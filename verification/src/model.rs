//! The mathematical model of patching: a file is a sequence of bytes, a hunk
//! overwrites a span of it, and a truncation fixes its final length.

use vstd::prelude::*;

verus! {

/// One edit of a patch: `payload` is to be written at byte `offset`.
pub struct HunkModel {
    pub offset: nat,
    pub payload: Seq<u8>,
}

/// A patch: its hunks in the order in which they are applied, and the length
/// that the file is given afterwards, if any.
pub struct PatchModel {
    pub hunks: Seq<HunkModel>,
    pub truncation: Option<nat>,
}

impl HunkModel {
    /// The first byte position after the span that the hunk writes.
    pub open spec fn end(self) -> nat {
        self.offset + self.payload.len()
    }

    /// Whether the hunk writes byte position `i`.
    pub open spec fn covers(self, i: int) -> bool {
        self.offset <= i < self.end()
    }

    /// Whether a target held in memory can take the hunk: it writes nothing,
    /// or the span it writes ends within the largest size that a buffer can
    /// have.
    pub open spec fn fits(self) -> bool {
        self.payload.len() == 0 || self.end() <= isize::MAX
    }
}

impl PatchModel {
    /// Whether a target held in memory can take the whole patch: every hunk
    /// fits, and so does the length asked for.
    pub open spec fn fits(self) -> bool {
        &&& forall|j: int| 0 <= j < self.hunks.len() ==> (#[trigger] self.hunks[j]).fits()
        &&& self.truncation matches Some(len) ==> len <= isize::MAX
    }
}

/// How many hunks are written before the first one that does not fit: the
/// number of hunks, if all of them fit.
pub open spec fn leading_fits(hunks: Seq<HunkModel>) -> nat
    decreases hunks.len(),
{
    if hunks.len() == 0 {
        0
    } else {
        let before = leading_fits(hunks.drop_last());
        if before == hunks.len() - 1 && hunks.last().fits() {
            hunks.len()
        } else {
            before
        }
    }
}

/// `leading_fits` is the position of the first hunk that does not fit.
pub proof fn lemma_leading_fits(hunks: Seq<HunkModel>, k: int)
    requires
        0 <= k <= hunks.len(),
        forall|j: int| 0 <= j < k ==> (#[trigger] hunks[j]).fits(),
        k < hunks.len() ==> !hunks[k].fits(),
    ensures
        leading_fits(hunks) == k,
    decreases hunks.len(),
{
    if hunks.len() > 0 {
        let shorter = hunks.drop_last();
        if k == hunks.len() {
            lemma_leading_fits(shorter, k - 1);
        } else {
            lemma_leading_fits(shorter, k);
        }
    }
}

/// The file after `data` was written at `offset`.
///
/// Bytes in the span are replaced. A write that ends beyond the end of the
/// file makes the file longer, and a gap between the old end and `offset` is
/// filled with zero bytes. A write of no bytes changes nothing, wherever it
/// is aimed.
pub open spec fn write_at(file: Seq<u8>, offset: nat, data: Seq<u8>) -> Seq<u8> {
    if data.len() == 0 {
        file
    } else {
        Seq::new(
            if file.len() >= offset + data.len() { file.len() } else { offset + data.len() },
            |i: int|
                if offset <= i < offset + data.len() {
                    data[i - offset]
                } else if i < file.len() {
                    file[i]
                } else {
                    0u8
                },
        )
    }
}

/// The file after its length was set to `len`: cut off there if it was
/// longer, extended with zero bytes if it was shorter.
pub open spec fn set_len(file: Seq<u8>, len: nat) -> Seq<u8> {
    Seq::new(len, |i: int| if i < file.len() { file[i] } else { 0u8 })
}

/// The file after the hunks were written one after the other, first to last.
pub open spec fn apply_hunks(file: Seq<u8>, hunks: Seq<HunkModel>) -> Seq<u8>
    decreases hunks.len(),
{
    if hunks.len() == 0 {
        file
    } else {
        write_at(apply_hunks(file, hunks.drop_last()), hunks.last().offset, hunks.last().payload)
    }
}

/// The file after the whole patch: all hunks in order, then the truncation.
pub open spec fn patched(file: Seq<u8>, patch: PatchModel) -> Seq<u8> {
    let written = apply_hunks(file, patch.hunks);
    match patch.truncation {
        Some(len) => set_len(written, len),
        None => written,
    }
}

} // verus!
