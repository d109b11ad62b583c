//! What holds of every patch and every file, stated over the model.

use vstd::prelude::*;
use crate::model::{apply_hunks, patched, write_at, HunkModel, PatchModel};

verus! {

/// Patching is a function of the base file and the patch alone: two fresh
/// copies of one base file, patched with the same patch, come out byte for
/// byte the same.
pub proof fn lemma_copies_patch_alike(first: Seq<u8>, second: Seq<u8>, patch: PatchModel)
    requires
        first.len() == second.len(),
        forall|i: int| 0 <= i < first.len() ==> first[i] == second[i],
    ensures
        patched(first, patch) == patched(second, patch),
{
    assert(first =~= second);
}

/// The last hunk to cover a byte position decides the byte there: once all
/// hunks are written, position `i` holds the byte that hunk `j` wrote, if no
/// hunk after `j` covers `i`. Where two hunks overlap, the later one wins.
pub proof fn lemma_last_hunk_wins(file: Seq<u8>, hunks: Seq<HunkModel>, j: int, i: int)
    requires
        0 <= j < hunks.len(),
        hunks[j].covers(i),
        forall|k: int| j < k < hunks.len() ==> !(#[trigger] hunks[k]).covers(i),
    ensures
        0 <= i < apply_hunks(file, hunks).len(),
        apply_hunks(file, hunks)[i] == hunks[j].payload[i - hunks[j].offset],
    decreases hunks.len(),
{
    let earlier = hunks.drop_last();
    if j < hunks.len() - 1 {
        assert(earlier[j] == hunks[j]);
        assert forall|k: int| j < k < earlier.len() implies !(#[trigger] earlier[k]).covers(i) by {
            assert(earlier[k] == hunks[k]);
        }
        lemma_last_hunk_wins(file, earlier, j, i);
        assert(!hunks[hunks.len() - 1].covers(i));
    }
}

/// A byte position that no hunk covers keeps the byte of the base file, or
/// holds zero if the file had to grow past it.
pub proof fn lemma_uncovered_byte_kept(file: Seq<u8>, hunks: Seq<HunkModel>, i: int)
    requires
        0 <= i < apply_hunks(file, hunks).len(),
        forall|k: int| 0 <= k < hunks.len() ==> !(#[trigger] hunks[k]).covers(i),
    ensures
        apply_hunks(file, hunks)[i] == (if i < file.len() {
            file[i]
        } else {
            0u8
        }),
    decreases hunks.len(),
{
    if hunks.len() > 0 {
        let earlier = hunks.drop_last();
        assert(!hunks[hunks.len() - 1].covers(i));
        assert forall|k: int| 0 <= k < earlier.len() implies !(#[trigger] earlier[k]).covers(i) by {
            assert(earlier[k] == hunks[k]);
        }
        lemma_file_never_shrinks(file, earlier);
        if i < apply_hunks(file, earlier).len() {
            lemma_uncovered_byte_kept(file, earlier, i);
        }
    }
}

/// Writing hunks never makes a file shorter.
pub proof fn lemma_file_never_shrinks(file: Seq<u8>, hunks: Seq<HunkModel>)
    ensures
        apply_hunks(file, hunks).len() >= file.len(),
    decreases hunks.len(),
{
    if hunks.len() > 0 {
        lemma_file_never_shrinks(file, hunks.drop_last());
    }
}

/// A truncation is applied after all hunks: the patched file has exactly the
/// length asked for, however far a hunk wrote, and below that length it
/// holds what the hunks left (zero where they left nothing).
pub proof fn lemma_truncation_comes_last(file: Seq<u8>, patch: PatchModel, len: nat)
    requires
        patch.truncation == Some(len),
    ensures
        patched(file, patch).len() == len,
        forall|i: int|
            0 <= i < len ==> #[trigger] patched(file, patch)[i] == (if i < apply_hunks(
                file,
                patch.hunks,
            ).len() {
                apply_hunks(file, patch.hunks)[i]
            } else {
                0u8
            }),
{
}

/// A write aimed beyond the end of the file makes it grow: the old bytes
/// stay, zero bytes fill the gap up to `offset`, the payload follows, and the
/// file ends with it.
pub proof fn lemma_write_beyond_end(file: Seq<u8>, offset: nat, data: Seq<u8>)
    requires
        offset >= file.len(),
        data.len() > 0,
    ensures
        write_at(file, offset, data).len() == offset + data.len(),
        write_at(file, offset, data).subrange(0, file.len() as int) == file,
        forall|i: int| file.len() <= i < offset ==> #[trigger] write_at(file, offset, data)[i] == 0u8,
        write_at(file, offset, data).subrange(offset as int, (offset + data.len()) as int) == data,
{
    let after = write_at(file, offset, data);
    assert(after.subrange(0, file.len() as int) =~= file);
    assert(after.subrange(offset as int, (offset + data.len()) as int) =~= data);
}

/// The last hunk that covers byte position `i`, or -1 where none does.
pub open spec fn last_cover(hunks: Seq<HunkModel>, i: int) -> int
    decreases hunks.len(),
{
    if hunks.len() == 0 {
        -1
    } else if hunks.last().covers(i) {
        hunks.len() - 1
    } else {
        last_cover(hunks.drop_last(), i)
    }
}

/// `last_cover` names a hunk that covers `i` and has no such hunk after it,
/// or `i` is covered by no hunk at all.
pub proof fn lemma_last_cover(hunks: Seq<HunkModel>, i: int)
    ensures
        -1 <= last_cover(hunks, i) < hunks.len(),
        last_cover(hunks, i) >= 0 ==> hunks[last_cover(hunks, i)].covers(i),
        forall|k: int| last_cover(hunks, i) < k < hunks.len() ==> !(#[trigger] hunks[k]).covers(i),
    decreases hunks.len(),
{
    if hunks.len() > 0 && !hunks.last().covers(i) {
        let earlier = hunks.drop_last();
        lemma_last_cover(earlier, i);
        let last = last_cover(hunks, i);
        assert(last >= 0 ==> earlier[last] == hunks[last]);
        assert forall|k: int| last < k < hunks.len() implies !(#[trigger] hunks[k]).covers(i) by {
            if k < earlier.len() {
                assert(earlier[k] == hunks[k]);
            }
        }
    }
}

/// Every byte of the file after the hunks, told apart by the last hunk that
/// covers its position.
pub proof fn lemma_byte_after_hunks(file: Seq<u8>, hunks: Seq<HunkModel>, i: int)
    requires
        0 <= i < apply_hunks(file, hunks).len(),
    ensures
        apply_hunks(file, hunks)[i] == (if last_cover(hunks, i) >= 0 {
            hunks[last_cover(hunks, i)].payload[i - hunks[last_cover(hunks, i)].offset]
        } else if i < file.len() {
            file[i]
        } else {
            0u8
        }),
{
    lemma_last_cover(hunks, i);
    if last_cover(hunks, i) >= 0 {
        lemma_last_hunk_wins(file, hunks, last_cover(hunks, i), i);
    } else {
        lemma_uncovered_byte_kept(file, hunks, i);
    }
}

/// A file that already reaches as far as every hunk writes keeps its length.
pub proof fn lemma_long_file_keeps_length(file: Seq<u8>, hunks: Seq<HunkModel>)
    requires
        forall|k: int|
            0 <= k < hunks.len() && (#[trigger] hunks[k]).payload.len() > 0 ==> hunks[k].end()
                <= file.len(),
    ensures
        apply_hunks(file, hunks).len() == file.len(),
    decreases hunks.len(),
{
    if hunks.len() > 0 {
        let earlier = hunks.drop_last();
        assert forall|k: int| 0 <= k < earlier.len() implies (#[trigger] earlier[k]) == hunks[k] by {
        }
        lemma_long_file_keeps_length(file, earlier);
        assert(hunks[hunks.len() - 1] == hunks.last());
    }
}

/// Patching the output of a patch with the same patch changes nothing: a
/// rerun on a file that was already patched gives the same file.
pub proof fn lemma_patching_twice(file: Seq<u8>, patch: PatchModel)
    ensures
        patched(patched(file, patch), patch) == patched(file, patch),
{
    let hunks = patch.hunks;
    let once = patched(file, patch);
    let written = apply_hunks(file, hunks);
    let rewritten = apply_hunks(once, hunks);
    let twice = patched(once, patch);
    lemma_file_never_shrinks(once, hunks);
    assert forall|k: int|
        0 <= k < hunks.len() && (#[trigger] hunks[k]).payload.len() > 0 implies hunks[k].end()
        <= written.len() by {
        let at = hunks[k].end() - 1;
        assert(hunks[k].covers(at));
        lemma_last_cover(hunks, at);
        lemma_last_hunk_wins(file, hunks, last_cover(hunks, at), at);
    }
    if patch.truncation is None {
        lemma_long_file_keeps_length(written, hunks);
    }
    assert(twice.len() == once.len());
    assert forall|i: int| 0 <= i < once.len() implies twice[i] == once[i] by {
        assert(i < rewritten.len());
        lemma_byte_after_hunks(once, hunks, i);
        lemma_last_cover(hunks, i);
        if last_cover(hunks, i) >= 0 {
            let j = last_cover(hunks, i);
            assert(hunks[j].payload.len() > 0);
            assert(i < written.len());
            lemma_byte_after_hunks(file, hunks, i);
        }
    }
    assert(twice =~= once);
}

} // verus!
