//! Searching text with regular expressions, by way of the `regex` crate.

use vstd::prelude::*;
use crate::text::text_of;

verus! {

/// The error of the `regex` crate for a pattern that it does not take.
#[verifier::external_type_specification]
#[verifier::external_body]
pub struct ExRegexError(regex::Error);

/// Whether `regex::Regex::new` takes the pattern.
pub uninterp spec fn regex_compiles(pattern: Seq<char>) -> bool;

/// What group `group` holds in each match that `regex::Regex::captures_iter`
/// finds for the pattern in `text`, match by match from the left: the text
/// that the group captured, or `None` where it took no part in the match.
/// Group 0 is the whole match.
pub uninterp spec fn regex_captures(pattern: Seq<char>, group: nat, text: Seq<char>) -> Seq<
    Option<Seq<char>>,
>;

/// The texts of a run of optional strings.
pub open spec fn texts_of(items: Seq<Option<String>>) -> Seq<Option<Seq<char>>> {
    Seq::new(items.len(), |i: int| text_of(items[i]))
}

/// The texts of a run of strings.
pub open spec fn strings_of(items: Seq<String>) -> Seq<Seq<char>> {
    Seq::new(items.len(), |i: int| items[i]@)
}

/// Compiles the pattern with `regex::Regex::new`, walks the matches in `text`
/// with `captures_iter`, and copies out of each what `Captures::get` gives
/// for `group`.
///
/// Not proved: that the pattern is taken exactly when `regex_compiles` says
/// so, and that the groups copied are those that `regex_captures` names.
#[verifier::external_body]
fn find_captures(pattern: &str, group: usize, text: &str) -> (found: Result<
    Vec<Option<String>>,
    regex::Error,
>)
    ensures
        found is Ok <==> regex_compiles(pattern@),
        found matches Ok(groups) ==> texts_of(groups@) == regex_captures(
            pattern@,
            group as nat,
            text@,
        ),
{
    let re = regex::Regex::new(pattern)?;
    Ok(re.captures_iter(text).map(|c| c.get(group).map(|m| m.as_str().to_string())).collect())
}

/// A pattern or a selector that its engine does not take.
#[derive(Clone, Copy, Debug, PartialEq, Eq, Structural)]
pub struct SyntaxError;

/// The members of `items` that are there, in order.
pub open spec fn present(items: Seq<Option<Seq<char>>>) -> Seq<Seq<char>>
    decreases items.len(),
{
    if items.len() == 0 {
        Seq::empty()
    } else {
        match items.last() {
            Some(text) => present(items.drop_last()).push(text),
            None => present(items.drop_last()),
        }
    }
}

/// Copies the members of `items` that are there, in order.
pub fn present_texts(items: &Vec<Option<String>>) -> (texts: Vec<String>)
    ensures
        strings_of(texts@) == present(texts_of(items@)),
{
    let ghost all = texts_of(items@);
    let mut texts: Vec<String> = Vec::new();
    let mut i: usize = 0;
    assert(all.take(0) =~= Seq::<Option<Seq<char>>>::empty());
    while i < items.len()
        invariant
            i <= items@.len(),
            all == texts_of(items@),
            strings_of(texts@) == present(all.take(i as int)),
        decreases items@.len() - i,
    {
        proof {
            assert(all.take(i + 1).drop_last() =~= all.take(i as int));
            assert(all.take(i + 1).last() == all[i as int]);
        }
        match &items[i] {
            Some(text) => {
                let ghost before = strings_of(texts@);
                texts.push(text.clone());
                assert(strings_of(texts@) =~= before.push(text@));
            },
            None => {},
        }
        i = i + 1;
    }
    assert(all.take(items@.len() as int) =~= all);
    texts
}

/// Everything that group `group` of the pattern captured in `text`, match by
/// match. Fails exactly when the pattern does not compile.
pub fn captured(pattern: &str, group: usize, text: &str) -> (found: Result<Vec<String>, SyntaxError>)
    ensures
        found is Ok <==> regex_compiles(pattern@),
        found matches Ok(texts) ==> strings_of(texts@) == present(
            regex_captures(pattern@, group as nat, text@),
        ),
{
    match find_captures(pattern, group, text) {
        Ok(groups) => Ok(present_texts(&groups)),
        Err(_) => Err(SyntaxError),
    }
}

/// Whether the pattern matches anywhere in `text`. Fails exactly when the
/// pattern does not compile.
pub fn matches_in(pattern: &str, text: &str) -> (found: Result<bool, SyntaxError>)
    ensures
        found is Ok <==> regex_compiles(pattern@),
        found matches Ok(any) ==> any == (regex_captures(pattern@, 0, text@).len() > 0),
{
    match find_captures(pattern, 0, text) {
        Ok(groups) => Ok(groups.len() > 0),
        Err(_) => Err(SyntaxError),
    }
}

} // verus!
