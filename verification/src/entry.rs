//! Entries found while walking a directory tree, and the tests that pick
//! the ones to work on.

use vstd::prelude::*;
use crate::text::{ends_with_ignoring_case, ends_with_upper, text_of};

verus! {

/// What kind of thing an entry is.
#[derive(Clone, Copy, Debug, PartialEq, Eq, Structural)]
pub enum EntryKind {
    /// A directory.
    Dir,
    /// A regular file.
    File,
    /// Anything else, such as a symbolic link.
    Other,
}

/// One entry of a directory walk, as plain values.
#[derive(Debug)]
pub struct Entry {
    kind: EntryKind,
    path: String,
    parent: Option<String>,
    name: Option<String>,
}

/// An entry as the contracts see it.
pub struct EntryModel {
    pub kind: EntryKind,
    pub path: Seq<char>,
    pub parent: Option<Seq<char>>,
    pub name: Option<Seq<char>>,
}

impl View for Entry {
    type V = EntryModel;

    closed spec fn view(&self) -> EntryModel {
        EntryModel {
            kind: self.kind,
            path: self.path@,
            parent: text_of(self.parent),
            name: text_of(self.name),
        }
    }
}

impl Entry {
    /// An entry of the given kind at `path`. `parent` is the directory that
    /// holds it, where the path has one; `name` is its file name, where that
    /// is valid text.
    pub fn new(kind: EntryKind, path: String, parent: Option<String>, name: Option<String>) -> (entry:
        Entry)
        ensures
            entry@ == (EntryModel {
                kind,
                path: path@,
                parent: text_of(parent),
                name: text_of(name),
            }),
    {
        Entry { kind, path, parent, name }
    }

    /// The kind of the entry.
    pub fn kind(&self) -> (kind: EntryKind)
        ensures
            kind == self@.kind,
    {
        self.kind
    }

    /// The path of the entry, for messages.
    pub fn path(&self) -> (path: &str)
        ensures
            path@ == self@.path,
    {
        self.path.as_str()
    }

    /// The directory that holds the entry.
    pub fn parent(&self) -> (parent: Option<&str>)
        ensures
            match parent {
                Some(p) => self@.parent == Some(p@),
                None => self@.parent is None,
            },
    {
        match &self.parent {
            Some(p) => Some(p.as_str()),
            None => None,
        }
    }

    /// The file name of the entry.
    pub fn name(&self) -> (name: Option<&str>)
        ensures
            match name {
                Some(n) => self@.name == Some(n@),
                None => self@.name is None,
            },
    {
        match &self.name {
            Some(n) => Some(n.as_str()),
            None => None,
        }
    }
}

/// Whether a walk that looks for files ending in `suffix` takes the entry:
/// every directory, so that the walk goes into it, and every entry whose
/// name ends in `suffix`, whatever the case of its letters.
pub open spec fn selected(entry: EntryModel, suffix: Seq<char>) -> bool {
    entry.kind == EntryKind::Dir || (entry.name matches Some(name) && ends_with_upper(name, suffix))
}

fn is_selected(entry: &Entry, suffix: &str) -> (pass: bool)
    ensures
        pass == selected(entry@, suffix@),
{
    match entry.kind {
        EntryKind::Dir => true,
        _ => match &entry.name {
            Some(name) => ends_with_ignoring_case(name.as_str(), suffix),
            None => false,
        },
    }
}

/// The suffix of zip archives.
pub open spec fn zip_suffix() -> Seq<char> {
    seq!['.', 'Z', 'I', 'P']
}

/// The suffix of rar archives.
pub open spec fn rar_suffix() -> Seq<char> {
    seq!['.', 'R', 'A', 'R']
}

/// The suffix of 7z archives.
pub open spec fn sevenz_suffix() -> Seq<char> {
    seq!['.', '7', 'Z']
}

/// The suffix of patch files.
pub open spec fn ips_suffix() -> Seq<char> {
    seq!['.', 'I', 'P', 'S']
}

/// Takes directories and zip archives.
pub fn is_zip_file(entry: &Entry) -> (pass: bool)
    ensures
        pass == selected(entry@, zip_suffix()),
{
    proof {
        reveal_strlit(".ZIP");
    }
    assert(".ZIP"@ =~= zip_suffix());
    is_selected(entry, ".ZIP")
}

/// Takes directories and rar archives.
pub fn is_rar_file(entry: &Entry) -> (pass: bool)
    ensures
        pass == selected(entry@, rar_suffix()),
{
    proof {
        reveal_strlit(".RAR");
    }
    assert(".RAR"@ =~= rar_suffix());
    is_selected(entry, ".RAR")
}

/// Takes directories and 7z archives.
pub fn is_7z_file(entry: &Entry) -> (pass: bool)
    ensures
        pass == selected(entry@, sevenz_suffix()),
{
    proof {
        reveal_strlit(".7Z");
    }
    assert(".7Z"@ =~= sevenz_suffix());
    is_selected(entry, ".7Z")
}

/// Takes directories and archives of any of the three kinds.
pub fn is_archive_file(entry: &Entry) -> (pass: bool)
    ensures
        pass == (selected(entry@, zip_suffix()) || selected(entry@, rar_suffix()) || selected(
            entry@,
            sevenz_suffix(),
        )),
{
    is_zip_file(entry) || is_rar_file(entry) || is_7z_file(entry)
}

/// Takes directories and patch files.
pub fn is_ips_file(entry: &Entry) -> (pass: bool)
    ensures
        pass == selected(entry@, ips_suffix()),
{
    proof {
        reveal_strlit(".IPS");
    }
    assert(".IPS"@ =~= ips_suffix());
    is_selected(entry, ".IPS")
}

} // verus!
