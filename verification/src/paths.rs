//! Where a patched file goes: paths put together from the name of the base
//! file and the place of the patch file. Paths are text with `/` between
//! their parts.

use vstd::prelude::*;
use vstd::string::*;
use crate::text::{chars_of, find_last, holds_from, last_index_of, lemma_last_index_of};

verus! {

/// The extension of the base file: what follows the last `.` of its path.
/// There is none where the path has no `.`, or where a `/` follows the last
/// one, which then belongs to a directory's name.
pub open spec fn rom_extension(base_rom: Seq<char>) -> Option<Seq<char>> {
    let dot = last_index_of(base_rom, '.');
    if dot < 0 {
        None
    } else {
        let ext = base_rom.subrange(dot + 1, base_rom.len() as int);
        if ext.contains('/') {
            None
        } else {
            Some(ext)
        }
    }
}

/// Whether `name` can be the name of a file in a directory: not empty, no
/// `/` in it, and neither `.` nor `..`.
pub open spec fn is_plain_name(name: Seq<char>) -> bool {
    &&& name.len() > 0
    &&& !name.contains('/')
    &&& name != seq!['.']
    &&& name != seq!['.', '.']
}

/// A file name without its extension: what stands before the last `.`, or
/// the whole name where it has no `.` or only begins with one.
pub open spec fn stem(name: Seq<char>) -> Seq<char> {
    let dot = last_index_of(name, '.');
    if dot <= 0 {
        name
    } else {
        name.subrange(0, dot)
    }
}

/// A file name with its extension replaced by `ext`. An empty `ext` leaves
/// the stem alone, without a `.`.
pub open spec fn with_extension(name: Seq<char>, ext: Seq<char>) -> Seq<char> {
    if ext.len() == 0 {
        stem(name)
    } else {
        stem(name) + seq!['.'] + ext
    }
}

/// `rest` below `base`: one `/` stands between them unless `base` is empty
/// or ends in one already. A `rest` that begins with `/` stands for itself.
pub open spec fn joined(base: Seq<char>, rest: Seq<char>) -> Seq<char> {
    if rest.len() > 0 && rest[0] == '/' {
        rest
    } else if base.len() == 0 || base.last() == '/' {
        base + rest
    } else {
        base + seq!['/'] + rest
    }
}

/// Finds the extension of the base file.
pub fn extension_of(base_rom: &str) -> (ext: Option<String>)
    ensures
        match ext {
            Some(e) => rom_extension(base_rom@) == Some(e@),
            None => rom_extension(base_rom@) is None,
        },
{
    let chars = chars_of(base_rom);
    proof {
        lemma_last_index_of(base_rom@, '.');
    }
    match find_last(chars.as_slice(), '.') {
        None => None,
        Some(dot) => {
            let ghost ext = base_rom@.subrange(dot + 1, base_rom@.len() as int);
            assert(dot < chars.len());
            if holds_from(chars.as_slice(), dot + 1, '/') {
                proof {
                    let i = choose|i: int| dot + 1 <= i < chars@.len() && chars@[i] == '/';
                    assert(ext[i - (dot + 1)] == '/');
                }
                None
            } else {
                proof {
                    if ext.contains('/') {
                        let k = choose|k: int| 0 <= k < ext.len() && ext[k] == '/';
                        assert(chars@[dot + 1 + k] == '/');
                    }
                }
                Some(String::from_str(base_rom.substring_char(dot + 1, chars.len())))
            }
        },
    }
}

/// Tells whether `name` can be the name of a file in a directory.
pub fn is_plain(name: &str) -> (plain: bool)
    ensures
        plain == is_plain_name(name@),
{
    let chars = chars_of(name);
    let n = chars.len();
    if n == 0 {
        return false;
    }
    if holds_from(chars.as_slice(), 0, '/') {
        let ghost i = choose|i: int| 0 <= i < chars@.len() && chars@[i] == '/';
        assert(name@[i] == '/');
        return false;
    }
    proof {
        if name@.contains('/') {
            let k = choose|k: int| 0 <= k < name@.len() && name@[k] == '/';
            assert(chars@[k] == '/');
        }
    }
    if n == 1 && chars[0] == '.' {
        assert(name@ =~= seq!['.']);
        return false;
    }
    if n == 2 && chars[0] == '.' && chars[1] == '.' {
        assert(name@ =~= seq!['.', '.']);
        return false;
    }
    proof {
        if name@ == seq!['.'] {
            assert(seq!['.'].len() == 1);
            assert(seq!['.'][0] == '.');
        }
        if name@ == seq!['.', '.'] {
            assert(seq!['.', '.'].len() == 2);
            assert(seq!['.', '.'][0] == '.');
            assert(seq!['.', '.'][1] == '.');
        }
    }
    true
}

/// The file name without its extension.
pub fn file_stem(name: &str) -> (short: String)
    ensures
        short@ == stem(name@),
{
    let chars = chars_of(name);
    proof {
        lemma_last_index_of(name@, '.');
    }
    match find_last(chars.as_slice(), '.') {
        Some(dot) if dot > 0 => String::from_str(name.substring_char(0, dot)),
        _ => String::from_str(name),
    }
}

/// The file name with its extension replaced by `ext`.
pub fn replace_extension(name: &str, ext: &str) -> (renamed: String)
    ensures
        renamed@ == with_extension(name@, ext@),
{
    let mut renamed = file_stem(name);
    if ext.unicode_len() > 0 {
        proof {
            reveal_strlit(".");
        }
        renamed.append(".");
        renamed.append(ext);
        assert(renamed@ =~= stem(name@) + seq!['.'] + ext@);
    }
    renamed
}

/// Puts `rest` below `base`.
pub fn join(base: &str, rest: &str) -> (path: String)
    ensures
        path@ == joined(base@, rest@),
{
    let rest_len = rest.unicode_len();
    if rest_len > 0 && rest.get_char(0) == '/' {
        return String::from_str(rest);
    }
    let base_len = base.unicode_len();
    let mut path = String::from_str(base);
    if base_len > 0 && base.get_char(base_len - 1) != '/' {
        proof {
            reveal_strlit("/");
        }
        path.append("/");
        assert(path@ =~= base@ + seq!['/']);
    }
    path.append(rest);
    path
}

} // verus!
