//! The decisions of a batch run over a directory tree: what to do with each
//! thing that the walk yields, and what to write to the log when the work on
//! one file fails. One failure never ends the batch.

use vstd::prelude::*;
use vstd::string::*;
use crate::entry::{
    is_7z_file, is_rar_file, is_zip_file, rar_suffix, selected, sevenz_suffix, zip_suffix, Entry,
    EntryKind,
};

verus! {

/// What a directory walk yields at one step.
#[derive(Debug)]
pub enum WalkItem {
    /// An entry that the walk reached.
    Found(Entry),
    /// A place that the walk could not read, with the reason.
    Unreadable(String),
}

/// What the batch does with one item of the walk.
#[derive(Debug)]
pub enum Step {
    /// Run the action on the entry.
    Act,
    /// Write the line to the log and go on.
    Report(String),
    /// Go on to the next item.
    Pass,
}

/// What a step is in the contracts: `Report` with the text of its line.
pub enum StepModel {
    Act,
    Report(Seq<char>),
    Pass,
}

impl View for Step {
    type V = StepModel;

    open spec fn view(&self) -> StepModel {
        match *self {
            Step::Act => StepModel::Act,
            Step::Report(line) => StepModel::Report(line@),
            Step::Pass => StepModel::Pass,
        }
    }
}

/// The line logged for a place that the walk could not read.
pub open spec fn unreadable_line(reason: Seq<char>) -> Seq<char> {
    "Skipping directory due to error: "@ + reason
}

/// The line logged when the action failed on the entry at `path`.
pub open spec fn failure_line(path: Seq<char>, reason: Seq<char>) -> Seq<char> {
    "Hit an error on "@ + path + ", but continuing: "@ + reason
}

/// Decides what to do with one item of the walk: the action runs on regular
/// files only, an unreadable place is reported, anything else is passed over.
pub fn next_step(item: &WalkItem) -> (step: Step)
    ensures
        step@ == match *item {
            WalkItem::Found(entry) => if entry@.kind == EntryKind::File {
                StepModel::Act
            } else {
                StepModel::Pass
            },
            WalkItem::Unreadable(reason) => StepModel::Report(unreadable_line(reason@)),
        },
{
    match item {
        WalkItem::Found(entry) => match entry.kind() {
            EntryKind::File => Step::Act,
            _ => Step::Pass,
        },
        WalkItem::Unreadable(reason) => {
            let mut line = String::from_str("Skipping directory due to error: ");
            line.append(reason.as_str());
            Step::Report(line)
        },
    }
}

/// Writes the log line for an action that failed on `entry`. The batch goes
/// on with the next item afterwards.
pub fn report_failure(entry: &Entry, reason: &str) -> (line: String)
    ensures
        line@ == failure_line(entry@.path, reason@),
{
    let mut line = String::from_str("Hit an error on ");
    line.append(entry.path());
    line.append(", but continuing: ");
    line.append(reason);
    line
}

/// The kinds of archive that the batch unpacks.
#[derive(Clone, Copy, Debug, PartialEq, Eq, Structural)]
pub enum ArchiveKind {
    Zip,
    Rar,
    SevenZ,
}

/// Picks the unpacker for an entry by its name: zip before rar before 7z,
/// none where the name fits no kind.
pub fn archive_kind(entry: &Entry) -> (kind: Option<ArchiveKind>)
    ensures
        kind == (if selected(entry@, zip_suffix()) {
            Some(ArchiveKind::Zip)
        } else if selected(entry@, rar_suffix()) {
            Some(ArchiveKind::Rar)
        } else if selected(entry@, sevenz_suffix()) {
            Some(ArchiveKind::SevenZ)
        } else {
            None
        }),
{
    if is_zip_file(entry) {
        Some(ArchiveKind::Zip)
    } else if is_rar_file(entry) {
        Some(ArchiveKind::Rar)
    } else if is_7z_file(entry) {
        Some(ArchiveKind::SevenZ)
    } else {
        None
    }
}

} // verus!
