//! Small tools on text, seen as a sequence of characters.

use vstd::prelude::*;
use vstd::string::*;

verus! {

/// The text of an optional string.
pub open spec fn text_of(s: Option<String>) -> Option<Seq<char>> {
    match s {
        Some(s) => Some(s@),
        None => None,
    }
}

/// The position of the last `c` in `s`, or -1 where `s` holds none.
pub open spec fn last_index_of(s: Seq<char>, c: char) -> int
    decreases s.len(),
{
    if s.len() == 0 {
        -1
    } else if s.last() == c {
        s.len() - 1
    } else {
        last_index_of(s.drop_last(), c)
    }
}

/// The characters of `s`, one by one.
pub fn chars_of(s: &str) -> (chars: Vec<char>)
    ensures
        chars@ == s@,
{
    let mut chars: Vec<char> = Vec::new();
    for c in iter: s.chars()
        invariant
            iter.seq() == s@,
            chars@ == s@.take(iter.index() as int),
    {
        chars.push(c);
        assert(s@.take(iter.index() + 1) =~= s@.take(iter.index() as int).push(c));
    }
    assert(s@.take(s@.len() as int) =~= s@);
    chars
}

/// Where `last_index_of` points, `c` stands, and no `c` follows.
pub proof fn lemma_last_index_of(s: Seq<char>, c: char)
    ensures
        -1 <= last_index_of(s, c) < s.len(),
        last_index_of(s, c) >= 0 ==> s[last_index_of(s, c)] == c,
        forall|i: int| last_index_of(s, c) < i < s.len() ==> s[i] != c,
    decreases s.len(),
{
    if s.len() > 0 && s.last() != c {
        let front = s.drop_last();
        lemma_last_index_of(front, c);
        assert forall|i: int| last_index_of(s, c) < i < s.len() implies s[i] != c by {
            if i < front.len() {
                assert(front[i] == s[i]);
            }
        }
    }
}

/// A position that holds `c` and has no `c` after it is the last one.
pub proof fn lemma_last_index_is(s: Seq<char>, c: char, k: int)
    requires
        -1 <= k < s.len(),
        k >= 0 ==> s[k] == c,
        forall|i: int| k < i < s.len() ==> s[i] != c,
    ensures
        last_index_of(s, c) == k,
    decreases s.len(),
{
    if s.len() > 0 && s.last() != c {
        let front = s.drop_last();
        assert forall|i: int| k < i < front.len() implies front[i] != c by {
            assert(front[i] == s[i]);
        }
        lemma_last_index_is(front, c, k);
    }
}

/// Finds the last `c` among `chars`.
pub fn find_last(chars: &[char], c: char) -> (found: Option<usize>)
    ensures
        match found {
            Some(k) => k == last_index_of(chars@, c),
            None => last_index_of(chars@, c) == -1,
        },
{
    let mut i: usize = chars.len();
    while i > 0
        invariant
            i <= chars@.len(),
            forall|j: int| i <= j < chars@.len() ==> chars@[j] != c,
        decreases i,
    {
        i = i - 1;
        if chars[i] == c {
            proof {
                lemma_last_index_is(chars@, c, i as int);
            }
            return Some(i);
        }
    }
    proof {
        lemma_last_index_is(chars@, c, -1);
    }
    None
}

/// Whether `c` stands among `chars` at position `from` or later.
pub fn holds_from(chars: &[char], from: usize, c: char) -> (found: bool)
    ensures
        found == exists|i: int| from <= i < chars@.len() && chars@[i] == c,
{
    let mut i: usize = from;
    while i < chars.len()
        invariant
            from <= i,
            forall|j: int| from <= j < i && j < chars@.len() ==> chars@[j] != c,
        decreases chars@.len() - i,
    {
        if chars[i] == c {
            return true;
        }
        i = i + 1;
    }
    false
}

/// The upper-case form of an ASCII letter; any other character is itself.
pub open spec fn ascii_upper(c: char) -> char {
    if 'a' <= c && c <= 'z' {
        ((c as u8) - 32) as char
    } else {
        c
    }
}

/// Turns an ASCII lower-case letter into its upper-case form.
pub fn to_ascii_upper(c: char) -> (upper: char)
    ensures
        upper == ascii_upper(c),
{
    if 'a' <= c && c <= 'z' {
        ((c as u8) - 32) as char
    } else {
        c
    }
}

/// Whether `name` ends in `suffix` once its ASCII letters are put in upper
/// case.
pub open spec fn ends_with_upper(name: Seq<char>, suffix: Seq<char>) -> bool {
    &&& name.len() >= suffix.len()
    &&& forall|i: int|
        0 <= i < suffix.len() ==> ascii_upper(#[trigger] name[name.len() - suffix.len() + i])
            == suffix[i]
}

/// Tests whether `name`, with its ASCII letters in upper case, ends in
/// `suffix`.
pub fn ends_with_ignoring_case(name: &str, suffix: &str) -> (ends: bool)
    ensures
        ends == ends_with_upper(name@, suffix@),
{
    let name_chars = chars_of(name);
    let suffix_chars = chars_of(suffix);
    let n = name_chars.len();
    let m = suffix_chars.len();
    if n < m {
        return false;
    }
    let mut i: usize = 0;
    while i < m
        invariant
            i <= m <= n,
            n == name_chars@.len(),
            m == suffix_chars@.len(),
            name_chars@ == name@,
            suffix_chars@ == suffix@,
            forall|j: int|
                0 <= j < i ==> ascii_upper(#[trigger] name@[n - m + j]) == suffix@[j],
        decreases m - i,
    {
        if to_ascii_upper(name_chars[n - m + i]) != suffix_chars[i] {
            assert(ascii_upper(name@[n - m + i]) != suffix@[i as int]);
            return false;
        }
        i = i + 1;
    }
    true
}

/// What follows the last `c` in `s`; `None` where `s` holds no `c`.
pub open spec fn tail_after_last(s: Seq<char>, c: char) -> Option<Seq<char>> {
    let at = last_index_of(s, c);
    if at < 0 {
        None
    } else {
        Some(s.subrange(at + 1, s.len() as int))
    }
}

/// Cuts off everything up to the last `c` in `s`.
pub fn after_last(s: &str, c: char) -> (tail: Option<String>)
    ensures
        text_of(tail) == tail_after_last(s@, c),
{
    let chars = chars_of(s);
    proof {
        lemma_last_index_of(s@, c);
    }
    match find_last(chars.as_slice(), c) {
        Some(at) => Some(String::from_str(s.substring_char(at + 1, chars.len()))),
        None => None,
    }
}

/// Whether `c` is white space: a character with the Unicode property
/// `White_Space`.
pub open spec fn is_space(c: char) -> bool {
    ||| '\u{9}' <= c <= '\u{D}'
    ||| c == ' '
    ||| c == '\u{85}'
    ||| c == '\u{A0}'
    ||| c == '\u{1680}'
    ||| '\u{2000}' <= c <= '\u{200A}'
    ||| c == '\u{2028}'
    ||| c == '\u{2029}'
    ||| c == '\u{202F}'
    ||| c == '\u{205F}'
    ||| c == '\u{3000}'
}

/// Tests whether `c` is white space.
pub fn is_white(c: char) -> (white: bool)
    ensures
        white == is_space(c),
{
    ('\u{9}' <= c && c <= '\u{D}') || c == ' ' || c == '\u{85}' || c == '\u{A0}' || c
        == '\u{1680}' || ('\u{2000}' <= c && c <= '\u{200A}') || c == '\u{2028}' || c
        == '\u{2029}' || c == '\u{202F}' || c == '\u{205F}' || c == '\u{3000}'
}

/// How many white-space characters `s` begins with.
pub open spec fn leading_spaces(s: Seq<char>) -> nat
    decreases s.len(),
{
    if s.len() > 0 && is_space(s[0]) {
        1 + leading_spaces(s.drop_first())
    } else {
        0
    }
}

/// How many white-space characters `s` ends with.
pub open spec fn trailing_spaces(s: Seq<char>) -> nat
    decreases s.len(),
{
    if s.len() > 0 && is_space(s.last()) {
        1 + trailing_spaces(s.drop_last())
    } else {
        0
    }
}

/// `s` without the white space at its start and at its end.
pub open spec fn trimmed(s: Seq<char>) -> Seq<char> {
    let rest = s.subrange(leading_spaces(s) as int, s.len() as int);
    rest.subrange(0, rest.len() - trailing_spaces(rest))
}

/// The count of leading white space is the position of the first character
/// that is none.
pub proof fn lemma_leading_spaces(s: Seq<char>, k: int)
    requires
        0 <= k <= s.len(),
        forall|i: int| 0 <= i < k ==> is_space(s[i]),
        k < s.len() ==> !is_space(s[k]),
    ensures
        leading_spaces(s) == k,
    decreases s.len(),
{
    if k > 0 {
        let rest = s.drop_first();
        assert forall|i: int| 0 <= i < k - 1 implies is_space(rest[i]) by {
            assert(rest[i] == s[i + 1]);
        }
        lemma_leading_spaces(rest, k - 1);
    }
}

/// The count of trailing white space is the distance from the end of the
/// last character that is none.
pub proof fn lemma_trailing_spaces(s: Seq<char>, k: int)
    requires
        0 <= k <= s.len(),
        forall|i: int| s.len() - k <= i < s.len() ==> is_space(s[i]),
        k < s.len() ==> !is_space(s[s.len() - k - 1]),
    ensures
        trailing_spaces(s) == k,
    decreases s.len(),
{
    if k > 0 {
        let rest = s.drop_last();
        assert forall|i: int| rest.len() - (k - 1) <= i < rest.len() implies is_space(rest[i]) by {
            assert(rest[i] == s[i]);
        }
        lemma_trailing_spaces(rest, k - 1);
    }
}

/// Removes the white space at both ends of `s`.
pub fn trim(s: &str) -> (inner: String)
    ensures
        inner@ == trimmed(s@),
{
    let chars = chars_of(s);
    let n = chars.len();
    let mut from: usize = 0;
    while from < n && is_white(chars[from])
        invariant
            from <= n,
            n == chars@.len(),
            forall|i: int| 0 <= i < from ==> is_space(chars@[i]),
        decreases n - from,
    {
        from = from + 1;
    }
    let mut to: usize = n;
    while to > from && is_white(chars[to - 1])
        invariant
            from <= to <= n,
            n == chars@.len(),
            forall|i: int| to <= i < n ==> is_space(chars@[i]),
        decreases to,
    {
        to = to - 1;
    }
    proof {
        lemma_leading_spaces(s@, from as int);
        let rest = s@.subrange(from as int, n as int);
        assert forall|i: int| rest.len() - (n - to) <= i < rest.len() implies is_space(rest[i]) by {
            assert(rest[i] == s@[from + i]);
        }
        lemma_trailing_spaces(rest, n - to);
        assert(rest.subrange(0, rest.len() - (n - to)) =~= s@.subrange(from as int, to as int));
    }
    String::from_str(s.substring_char(from, to))
}

/// The ten digits, in order.
pub open spec fn digits() -> Seq<char> {
    seq!['0', '1', '2', '3', '4', '5', '6', '7', '8', '9']
}

/// The decimal form of `n`, without leading zeros.
pub open spec fn decimal(n: nat) -> Seq<char>
    decreases n,
{
    if n < 10 {
        seq![digits()[n as int]]
    } else {
        decimal(n / 10).push(digits()[(n % 10) as int])
    }
}

/// The decimal form of `n` with zeros in front of it up to `width`
/// characters; a longer number is not cut.
pub open spec fn zero_padded(n: nat, width: nat) -> Seq<char> {
    let number = decimal(n);
    if number.len() >= width {
        number
    } else {
        Seq::new((width - number.len()) as nat, |i: int| '0') + number
    }
}

fn digit_text(d: usize) -> (text: &'static str)
    requires
        d < 10,
    ensures
        text@ == seq![digits()[d as int]],
{
    proof {
        reveal_strlit("0123456789");
    }
    let text = "0123456789".substring_char(d, d + 1);
    assert(text@ =~= seq![digits()[d as int]]);
    text
}

/// Writes `n` in decimal.
pub fn decimal_text(n: usize) -> (text: String)
    ensures
        text@ == decimal(n as nat),
    decreases n,
{
    if n < 10 {
        String::from_str(digit_text(n))
    } else {
        let mut text = decimal_text(n / 10);
        text.append(digit_text(n % 10));
        text
    }
}

/// Writes `n` in decimal, with zeros in front up to `width` characters.
pub fn zero_padded_text(n: usize, width: usize) -> (text: String)
    ensures
        text@ == zero_padded(n as nat, width as nat),
{
    let number = decimal_text(n);
    let len = number.as_str().unicode_len();
    let mut text = String::new();
    let mut i: usize = len;
    proof {
        reveal_strlit("0");
    }
    while i < width
        invariant
            len <= i,
            len < width ==> i <= width,
            len >= width ==> i == len,
            "0"@ == seq!['0'],
            text@ == Seq::new((i - len) as nat, |k: int| '0'),
        decreases width - i,
    {
        text.append("0");
        i = i + 1;
        assert(text@ =~= Seq::new((i - len) as nat, |k: int| '0'));
    }
    text.append(number.as_str());
    assert(text@ =~= zero_padded(n as nat, width as nat));
    text
}

/// Tells whether two texts are the same.
pub fn str_equal(a: &str, b: &str) -> (same: bool)
    ensures
        same == (a@ == b@),
{
    let left = chars_of(a);
    let right = chars_of(b);
    if left.len() != right.len() {
        return false;
    }
    let mut i: usize = 0;
    while i < left.len()
        invariant
            i <= left@.len(),
            left@.len() == right@.len(),
            left@ == a@,
            right@ == b@,
            forall|k: int| 0 <= k < i ==> left@[k] == right@[k],
        decreases left@.len() - i,
    {
        if left[i] != right[i] {
            return false;
        }
        i = i + 1;
    }
    assert(left@ =~= right@);
    true
}

/// The lower-case form of an ASCII letter; any other character is itself.
pub open spec fn ascii_lower(c: char) -> char {
    if 'A' <= c && c <= 'Z' {
        ((c as u8) + 32) as char
    } else {
        c
    }
}

/// Turns an ASCII upper-case letter into its lower-case form.
pub fn to_ascii_lower(c: char) -> (lower: char)
    ensures
        lower == ascii_lower(c),
{
    if 'A' <= c && c <= 'Z' {
        ((c as u8) + 32) as char
    } else {
        c
    }
}

/// `s` with its ASCII letters in lower case.
pub open spec fn lowered(s: Seq<char>) -> Seq<char> {
    Seq::new(s.len(), |i: int| ascii_lower(s[i]))
}

/// Tells whether two texts are the same but for the case of their ASCII
/// letters.
pub fn equal_ignoring_case(a: &str, b: &str) -> (same: bool)
    ensures
        same == (lowered(a@) == lowered(b@)),
{
    let left = chars_of(a);
    let right = chars_of(b);
    if left.len() != right.len() {
        assert(lowered(a@).len() != lowered(b@).len());
        return false;
    }
    let mut i: usize = 0;
    while i < left.len()
        invariant
            i <= left@.len(),
            left@.len() == right@.len(),
            left@ == a@,
            right@ == b@,
            forall|k: int| 0 <= k < i ==> ascii_lower(left@[k]) == ascii_lower(right@[k]),
        decreases left@.len() - i,
    {
        if to_ascii_lower(left[i]) != to_ascii_lower(right[i]) {
            assert(lowered(a@)[i as int] != lowered(b@)[i as int]);
            return false;
        }
        i = i + 1;
    }
    assert(lowered(a@) =~= lowered(b@));
    true
}

} // verus!
