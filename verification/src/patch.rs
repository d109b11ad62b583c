//! Patches and the engine that applies them to a file held in memory.

use vstd::prelude::*;
use crate::error::PatchError;
use crate::model::{
    apply_hunks, leading_fits, lemma_leading_fits, patched, set_len, write_at, HunkModel,
    PatchModel,
};

verus! {

/// One edit: bytes to be written at an offset from the start of the file.
#[derive(Debug)]
pub struct Hunk {
    pub(crate) offset: u64,
    pub(crate) payload: Vec<u8>,
}

impl View for Hunk {
    type V = HunkModel;

    closed spec fn view(&self) -> HunkModel {
        HunkModel { offset: self.offset as nat, payload: self.payload@ }
    }
}

impl Hunk {
    /// A hunk that writes `payload` at `offset`.
    pub fn new(offset: u64, payload: Vec<u8>) -> (hunk: Hunk)
        ensures
            hunk@ == (HunkModel { offset: offset as nat, payload: payload@ }),
    {
        Hunk { offset, payload }
    }

    /// The offset in the patched file at which the hunk is written.
    pub fn offset(&self) -> (offset: u64)
        ensures
            offset == self@.offset,
    {
        self.offset
    }

    /// The bytes that the hunk writes.
    pub fn payload(&self) -> (payload: &[u8])
        ensures
            payload@ == self@.payload,
    {
        self.payload.as_slice()
    }

    /// Writes the hunk into `target`, which grows as far as the write needs.
    ///
    /// Fails with `IoFailure`, and leaves `target` as it was, exactly when
    /// the hunk does not fit.
    pub fn apply(&self, target: &mut Vec<u8>) -> (done: Result<(), PatchError>)
        ensures
            self@.fits() ==> done is Ok && final(target)@ == write_at(
                old(target)@,
                self@.offset,
                self@.payload,
            ),
            !self@.fits() ==> done == Err::<(), PatchError>(PatchError::IoFailure) && final(target)@
                == old(target)@,
    {
        let len = self.payload.len();
        if len == 0 {
            assert(target@ =~= write_at(target@, self@.offset, self@.payload));
            return Ok(());
        }
        let limit = isize::MAX as usize;
        if self.offset > limit as u64 {
            return Err(PatchError::IoFailure);
        }
        let start = self.offset as usize;
        if len > limit - start {
            return Err(PatchError::IoFailure);
        }
        let end = start + len;
        let ghost before = target@;
        if target.len() < end {
            target.resize(end, 0u8);
        }
        let mut i: usize = 0;
        while i < len
            invariant
                i <= len,
                len == self.payload@.len(),
                end == start + len,
                start == self@.offset,
                self.payload@ == self@.payload,
                target@.len() == (if before.len() >= end { before.len() } else { end as nat }),
                forall|k: int| start <= k < start + i ==> target@[k] == self.payload@[k - start],
                forall|k: int|
                    0 <= k < target@.len() && !(start <= k < start + i) ==> target@[k] == (if k
                        < before.len() {
                        before[k]
                    } else {
                        0u8
                    }),
            decreases len - i,
        {
            target.set(start + i, self.payload[i]);
            i = i + 1;
        }
        assert(target@ =~= write_at(before, self@.offset, self@.payload));
        Ok(())
    }
}

/// The models of a run of hunks, in the same order.
pub open spec fn hunk_models(hunks: Seq<Hunk>) -> Seq<HunkModel> {
    Seq::new(hunks.len(), |i: int| hunks[i]@)
}

/// A parsed patch: hunks in the order of the patch file, and the length to
/// which the patched file is cut, where the patch asks for one.
#[derive(Debug)]
pub struct Patch {
    pub(crate) hunks: Vec<Hunk>,
    pub(crate) truncation: Option<u64>,
}

impl View for Patch {
    type V = PatchModel;

    closed spec fn view(&self) -> PatchModel {
        PatchModel {
            hunks: hunk_models(self.hunks@),
            truncation: match self.truncation {
                Some(len) => Some(len as nat),
                None => None,
            },
        }
    }
}

impl Patch {
    /// A patch of the given hunks, applied in the order of the vector, and
    /// the given truncation.
    pub fn new(hunks: Vec<Hunk>, truncation: Option<u64>) -> (patch: Patch)
        ensures
            patch@.hunks == hunk_models(hunks@),
            patch@.truncation == match truncation {
                Some(len) => Some(len as nat),
                None => None,
            },
    {
        Patch { hunks, truncation }
    }

    /// The hunks, in the order in which they are applied.
    pub fn hunks(&self) -> (hunks: &[Hunk])
        ensures
            hunk_models(hunks@) == self@.hunks,
    {
        self.hunks.as_slice()
    }

    /// The length that the patched file is given once all hunks are written.
    pub fn truncation(&self) -> (truncation: Option<u64>)
        ensures
            self@.truncation == match truncation {
                Some(len) => Some(len as nat),
                None => None,
            },
    {
        self.truncation
    }

    /// Applies the patch to `target`: writes the hunks in order, each over
    /// what the earlier ones left, then sets the length if the patch has a
    /// truncation. A truncation longer than the file extends it with zero
    /// bytes.
    ///
    /// Succeeds exactly when the patch fits. Otherwise the work stops at the
    /// first step that the target cannot take, with `IoFailure`: the hunks
    /// before it stay written, nothing after it is done.
    pub fn apply(&self, target: &mut Vec<u8>) -> (done: Result<(), PatchError>)
        ensures
            self@.fits() ==> done is Ok && final(target)@ == patched(old(target)@, self@),
            !self@.fits() ==> done == Err::<(), PatchError>(PatchError::IoFailure)
                && final(target)@ == apply_hunks(
                old(target)@,
                self@.hunks.take(leading_fits(self@.hunks) as int),
            ),
    {
        let ghost before = target@;
        let ghost hunks = self@.hunks;
        let count = self.hunks.len();
        let mut i: usize = 0;
        assert(hunks.take(0) =~= Seq::<HunkModel>::empty());
        while i < count
            invariant
                i <= count,
                count == self.hunks@.len(),
                hunks == hunk_models(self.hunks@),
                hunks == self@.hunks,
                before == old(target)@,
                forall|j: int| 0 <= j < i ==> (#[trigger] hunks[j]).fits(),
                target@ == apply_hunks(before, hunks.take(i as int)),
            decreases count - i,
        {
            let step = self.hunks[i].apply(target);
            proof {
                assert(hunks[i as int] == self.hunks@[i as int]@);
                assert(hunks.take(i + 1).drop_last() =~= hunks.take(i as int));
                assert(hunks.take(i + 1).last() == hunks[i as int]);
            }
            if step.is_err() {
                proof {
                    lemma_leading_fits(hunks, i as int);
                }
                return Err(PatchError::IoFailure);
            }
            i = i + 1;
        }
        assert(hunks.take(count as int) =~= hunks);
        match self.truncation {
            Some(len) => {
                if len > isize::MAX as u64 {
                    proof {
                        lemma_leading_fits(hunks, count as int);
                    }
                    return Err(PatchError::IoFailure);
                }
                let ghost written = target@;
                target.resize(len as usize, 0u8);
                assert(target@ =~= set_len(written, len as nat));
            },
            None => {},
        }
        Ok(())
    }
}

} // verus!
