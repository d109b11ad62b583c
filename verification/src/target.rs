//! Where the work on an entry puts its output: the patched copy of the base
//! file, and the directory into which an archive is unpacked.

use vstd::prelude::*;
use vstd::string::*;
use crate::entry::{Entry, EntryModel};
use crate::error::PatchError;
use crate::text::{last_index_of, lemma_last_index_is, lemma_last_index_of};
use crate::paths::{
    extension_of, file_stem, is_plain, is_plain_name, join, joined, replace_extension,
    rom_extension, stem, with_extension,
};

verus! {

/// The two paths of a patched file: the directory to create, and the file in
/// it that starts as a copy of the base file.
#[derive(Debug)]
pub struct TargetPaths {
    dir: String,
    file: String,
}

/// The paths of a patched file as text: directory first, file second.
pub struct TargetModel {
    pub dir: Seq<char>,
    pub file: Seq<char>,
}

impl View for TargetPaths {
    type V = TargetModel;

    closed spec fn view(&self) -> TargetModel {
        TargetModel { dir: self.dir@, file: self.file@ }
    }
}

impl TargetPaths {
    /// The directory that holds the patched file.
    pub fn dir(&self) -> (dir: &str)
        ensures
            dir@ == self@.dir,
    {
        self.dir.as_str()
    }

    /// The patched file.
    pub fn file(&self) -> (file: &str)
        ensures
            file@ == self@.file,
    {
        self.file.as_str()
    }
}

/// Where the patched file for a patch entry goes.
///
/// The directory of the entry is mirrored below `root`, and the file takes
/// the name of the patch file, with the extension of the base file in place
/// of its own. There is no such place where the entry has no parent
/// directory or no plain file name, or the base file has no extension.
pub open spec fn target_of(root: Seq<char>, base_rom: Seq<char>, entry: EntryModel) -> Option<
    TargetModel,
> {
    match (entry.parent, entry.name, rom_extension(base_rom)) {
        (Some(parent), Some(name), Some(ext)) => if is_plain_name(name) {
            Some(
                TargetModel {
                    dir: joined(root, parent),
                    file: joined(joined(root, parent), with_extension(name, ext)),
                },
            )
        } else {
            None
        },
        _ => None,
    }
}

/// Derives the paths of the patched file for a patch entry, or fails with
/// `PathResolution` where `target_of` has none.
pub fn prepare_target(root: &str, base_rom: &str, entry: &Entry) -> (target: Result<
    TargetPaths,
    PatchError,
>)
    ensures
        match target {
            Ok(paths) => target_of(root@, base_rom@, entry@) == Some(paths@),
            Err(e) => e == PatchError::PathResolution && target_of(root@, base_rom@, entry@)
                is None,
        },
{
    let parent = match entry.parent() {
        Some(parent) => parent,
        None => return Err(PatchError::PathResolution),
    };
    let name = match entry.name() {
        Some(name) => name,
        None => return Err(PatchError::PathResolution),
    };
    if !is_plain(name) {
        return Err(PatchError::PathResolution);
    }
    let ext = match extension_of(base_rom) {
        Some(ext) => ext,
        None => return Err(PatchError::PathResolution),
    };
    let dir = join(root, parent);
    let renamed = replace_extension(name, ext.as_str());
    let file = join(dir.as_str(), renamed.as_str());
    Ok(TargetPaths { dir, file })
}

/// The patched file bears the extension of the base file, whatever the
/// extension of the patch file was, and keeps the name of the patch file
/// before the extension and its directory below the root.
pub proof fn lemma_target_takes_base_extension(
    root: Seq<char>,
    base_rom: Seq<char>,
    entry: EntryModel,
)
    requires
        target_of(root, base_rom, entry) is Some,
        rom_extension(base_rom)->0.len() > 0,
    ensures
        rom_extension(target_of(root, base_rom, entry)->0.file) == rom_extension(base_rom),
        target_of(root, base_rom, entry)->0.dir == joined(root, entry.parent->0),
        target_of(root, base_rom, entry)->0.file == joined(
            target_of(root, base_rom, entry)->0.dir,
            stem(entry.name->0) + seq!['.'] + rom_extension(base_rom)->0,
        ),
{
    let ext = rom_extension(base_rom)->0;
    let dir = joined(root, entry.parent->0);
    let renamed = stem(entry.name->0) + seq!['.'] + ext;
    let file = joined(dir, renamed);
    lemma_last_index_of(base_rom, '.');
    let dot = file.len() - ext.len() - 1;
    assert(renamed[renamed.len() - ext.len() - 1] == '.');
    assert(file[dot] == '.');
    assert forall|i: int| dot < i < file.len() implies file[i] != '.' by {
        let k = i - dot - 1;
        assert(file[i] == ext[k]);
        assert(ext[k] == base_rom[last_index_of(base_rom, '.') + 1 + k]);
    }
    lemma_last_index_is(file, '.', dot);
    assert(file.subrange(dot + 1, file.len() as int) =~= ext);
}

/// The directory into which an archive entry is unpacked: beside the
/// archive, named after it without its extension. An entry without a parent
/// directory or a plain file name has none.
pub open spec fn unpack_dir_of(entry: EntryModel) -> Option<Seq<char>> {
    match (entry.parent, entry.name) {
        (Some(parent), Some(name)) => if is_plain_name(name) {
            Some(joined(parent, stem(name)))
        } else {
            None
        },
        _ => None,
    }
}

/// Derives the directory into which an archive entry is unpacked.
pub fn unpack_dir(entry: &Entry) -> (dir: Option<String>)
    ensures
        match dir {
            Some(d) => unpack_dir_of(entry@) == Some(d@),
            None => unpack_dir_of(entry@) is None,
        },
{
    match (entry.parent(), entry.name()) {
        (Some(parent), Some(name)) => {
            if is_plain(name) {
                let short = file_stem(name);
                Some(join(parent, short.as_str()))
            } else {
                None
            }
        },
        _ => None,
    }
}

/// Where a member of an archive goes: below the directory of the archive,
/// under its own name. A member whose name ends in `/` is a directory and
/// goes nowhere by itself.
pub open spec fn member_path_of(unpack_dir: Seq<char>, member: Seq<char>) -> Option<Seq<char>> {
    if member.len() > 0 && member.last() == '/' {
        None
    } else {
        Some(joined(unpack_dir, member))
    }
}

/// Derives the path of the file that a member of an archive is unpacked to.
pub fn member_path(unpack_dir: &str, member: &str) -> (path: Option<String>)
    ensures
        match path {
            Some(p) => member_path_of(unpack_dir@, member@) == Some(p@),
            None => member_path_of(unpack_dir@, member@) is None,
        },
{
    let len = member.unicode_len();
    if len > 0 && member.get_char(len - 1) == '/' {
        None
    } else {
        Some(join(unpack_dir, member))
    }
}

} // verus!
