//! The ways in which producing a patched file can fail.

use vstd::prelude::*;

verus! {

/// Why a patch could not be turned into a patched file.
#[derive(Clone, Copy, Debug, PartialEq, Eq, Structural)]
pub enum PatchError {
    /// The patch buffer is not a patch.
    MalformedPatch,
    /// The target cannot take a write or a change of length.
    IoFailure,
    /// No output path can be derived from the names given.
    PathResolution,
}

impl PatchError {
    /// A short description, for log lines.
    pub fn message(&self) -> (text: &'static str)
        ensures
            text@ == match *self {
                PatchError::MalformedPatch => "malformed patch"@,
                PatchError::IoFailure => "i/o failure"@,
                PatchError::PathResolution => "cannot derive the output path"@,
            },
    {
        match self {
            PatchError::MalformedPatch => "malformed patch",
            PatchError::IoFailure => "i/o failure",
            PatchError::PathResolution => "cannot derive the output path",
        }
    }
}

} // verus!
