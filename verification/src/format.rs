//! Reading patch files in the IPS format, by way of the `ips` crate.

use vstd::prelude::*;
use crate::error::PatchError;
use crate::model::{patched, PatchModel};
use crate::patch::{Hunk, Patch};

verus! {

/// The error of the `ips` crate's parser.
#[verifier::external_type_specification]
#[verifier::external_body]
pub struct ExIpsError(ips::Error);

/// What `ips::Patch::parse` makes of a patch buffer: the patch that it
/// holds, or `None` where the parser rejects the buffer.
pub uninterp spec fn ips_parse(input: Seq<u8>) -> Option<PatchModel>;

/// Whether the buffer begins with the signature of the format, the five
/// bytes `PATCH`.
pub open spec fn has_signature(input: Seq<u8>) -> bool {
    input.len() >= 5 && input.subrange(0, 5) == seq![0x50u8, 0x41u8, 0x54u8, 0x43u8, 0x48u8]
}

/// The limits that the record layout of the format sets: an offset and a
/// truncation are numbers of three bytes, the length of a payload is a number
/// of two.
pub open spec fn in_format(patch: PatchModel) -> bool {
    &&& forall|j: int|
        0 <= j < patch.hunks.len() ==> (#[trigger] patch.hunks[j]).offset < 0x100_0000
            && patch.hunks[j].payload.len() <= 0xFFFF
    &&& patch.truncation matches Some(len) ==> len < 0x100_0000
}

/// Runs `ips::Patch::parse` on `input` and copies what it found: every hunk
/// with its offset and payload, in the parser's order, and the truncation.
///
/// Not proved: that the result is the parser's, which `ips_parse` names;
/// that the parser accepts no buffer without the signature at its start; and
/// that it reads offsets and truncation from three bytes and payload lengths
/// from two, so that a patch it accepts is within `in_format`.
#[verifier::external_body]
fn parse_ips(input: &[u8]) -> (parsed: Result<Patch, ips::Error>)
    ensures
        parsed matches Ok(patch) ==> ips_parse(input@) == Some(patch@) && in_format(patch@)
            && has_signature(input@),
        parsed is Err ==> ips_parse(input@) is None,
{
    let parsed = ips::Patch::parse(input)?;
    let hunks = parsed.hunks().iter().map(
        |h| Hunk { offset: h.offset() as u64, payload: h.payload().to_vec() },
    ).collect();
    Ok(Patch { hunks, truncation: parsed.truncation().map(|len| len as u64) })
}

/// A patch within the limits of the format fits every target.
pub proof fn lemma_in_format_fits(patch: PatchModel)
    requires
        in_format(patch),
    ensures
        patch.fits(),
{
    assert forall|j: int| 0 <= j < patch.hunks.len() implies (#[trigger] patch.hunks[j]).fits() by {
        assert(patch.hunks[j].offset < 0x100_0000);
    }
}

impl Patch {
    /// Parses a patch file.
    ///
    /// The hunks and the truncation are those that the `ips` parser finds in
    /// `input`, all within the limits of the format; a buffer that it rejects
    /// gives `MalformedPatch`, and it rejects every buffer that does not
    /// begin with the signature.
    pub fn parse(input: &[u8]) -> (parsed: Result<Patch, PatchError>)
        ensures
            match parsed {
                Ok(patch) => ips_parse(input@) == Some(patch@) && in_format(patch@),
                Err(e) => e == PatchError::MalformedPatch && ips_parse(input@) is None,
            },
            !has_signature(input@) ==> parsed is Err,
    {
        match parse_ips(input) {
            Ok(patch) => Ok(patch),
            Err(_) => Err(PatchError::MalformedPatch),
        }
    }
}

/// Parses `patch_file` and applies the patch to `target`.
///
/// A buffer that does not parse gives `MalformedPatch` and leaves `target`
/// untouched. Every patch that parses is applied in full.
pub fn apply_patch_file(patch_file: &[u8], target: &mut Vec<u8>) -> (done: Result<(), PatchError>)
    ensures
        !has_signature(patch_file@) ==> done == Err::<(), PatchError>(PatchError::MalformedPatch),
        match ips_parse(patch_file@) {
            Some(patch) => done is Ok && final(target)@ == patched(old(target)@, patch),
            None => done == Err::<(), PatchError>(PatchError::MalformedPatch) && final(target)@
                == old(target)@,
        },
{
    match Patch::parse(patch_file) {
        Ok(patch) => {
            proof {
                lemma_in_format_fits(patch@);
            }
            patch.apply(target)
        },
        Err(e) => Err(e),
    }
}

} // verus!
