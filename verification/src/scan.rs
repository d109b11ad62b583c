//! A survey of the kinds of file in a tree: the extensions of the file names
//! seen, each kept once, in lower case.

use vstd::prelude::*;
use vstd::string::*;
use crate::pattern::strings_of;
use crate::text::{chars_of, find_last, last_index_of, lemma_last_index_of, str_equal, text_of};

verus! {

/// The extension of a file name: what follows its last `.`. A name without
/// a `.`, or with its only `.` at the start, has none.
pub open spec fn name_extension(name: Seq<char>) -> Option<Seq<char>> {
    let dot = last_index_of(name, '.');
    if dot <= 0 {
        None
    } else {
        Some(name.subrange(dot + 1, name.len() as int))
    }
}

/// Finds the extension of a file name.
pub fn extension(name: &str) -> (ext: Option<String>)
    ensures
        text_of(ext) == name_extension(name@),
{
    let chars = chars_of(name);
    proof {
        lemma_last_index_of(name@, '.');
    }
    match find_last(chars.as_slice(), '.') {
        Some(dot) if dot > 0 => Some(String::from_str(name.substring_char(dot + 1, chars.len()))),
        _ => None,
    }
}

/// What `str::to_lowercase` makes of a text: its lower-case form by the
/// rules of Unicode.
pub uninterp spec fn unicode_lower(text: Seq<char>) -> Seq<char>;

/// Calls `str::to_lowercase`.
///
/// Not proved: that the result is the one that `unicode_lower` names.
#[verifier::external_body]
fn lower_case(text: &str) -> (lower: String)
    ensures
        lower@ == unicode_lower(text@),
{
    text.to_lowercase()
}

/// The extensions seen so far, in the order in which each was first seen.
#[derive(Debug)]
pub struct ExtensionSet {
    seen: Vec<String>,
}

impl View for ExtensionSet {
    type V = Seq<Seq<char>>;

    closed spec fn view(&self) -> Seq<Seq<char>> {
        strings_of(self.seen@)
    }
}

impl ExtensionSet {
    /// No extension is kept twice.
    #[verifier::type_invariant]
    spec fn distinct(&self) -> bool {
        forall|i: int, j: int|
            0 <= i < j < self.seen@.len() ==> (#[trigger] self.seen@[i])@ != (#[trigger] self.seen@[j])@
    }

    /// A survey that has seen nothing yet.
    pub fn new() -> (set: ExtensionSet)
        ensures
            set@ == Seq::<Seq<char>>::empty(),
    {
        let set = ExtensionSet { seen: Vec::new() };
        assert(set@ =~= Seq::<Seq<char>>::empty());
        set
    }

    /// The extensions seen so far, no two of them the same.
    pub fn extensions(&self) -> (seen: &Vec<String>)
        ensures
            strings_of(seen@) == self@,
            forall|i: int, j: int| 0 <= i < j < self@.len() ==> self@[i] != self@[j],
    {
        proof {
            use_type_invariant(self);
        }
        &self.seen
    }

    /// Takes note of a file name: its extension, put in lower case, joins
    /// the set unless it is there already. A name without an extension
    /// changes nothing.
    pub fn record(self, name: &str) -> (set: ExtensionSet)
        ensures
            set@ == match name_extension(name@) {
                Some(ext) => if self@.contains(unicode_lower(ext)) {
                    self@
                } else {
                    self@.push(unicode_lower(ext))
                },
                None => self@,
            },
    {
        let ext = match extension(name) {
            Some(ext) => ext,
            None => return self,
        };
        let lower = lower_case(ext.as_str());
        let mut i: usize = 0;
        while i < self.seen.len()
            invariant
                i <= self.seen@.len(),
                self@ == strings_of(self.seen@),
                name_extension(name@) == Some(ext@),
                lower@ == unicode_lower(ext@),
                forall|k: int| 0 <= k < i ==> self@[k] != lower@,
            decreases self.seen@.len() - i,
        {
            if str_equal(self.seen[i].as_str(), lower.as_str()) {
                assert(self@[i as int] == lower@);
                return self;
            }
            i = i + 1;
        }
        proof {
            use_type_invariant(&self);
        }
        let ghost before = self@;
        let ghost old_seen = self.seen@;
        let mut seen = self.seen;
        seen.push(lower);
        assert forall|a: int, b: int| 0 <= a < b < seen@.len() implies (#[trigger] seen@[a])@
            != (#[trigger] seen@[b])@ by {
            if b < old_seen.len() {
                assert(old_seen[a]@ != old_seen[b]@);
            } else {
                assert(before[a] == old_seen[a]@);
            }
        }
        let set = ExtensionSet { seen };
        assert(set@ =~= before.push(lower@));
        set
    }
}

} // verus!
