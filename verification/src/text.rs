//! Text as sequences of characters: comparison, the end of a line, words.

use vstd::prelude::*;
use vstd::string::*;
use vstd::utf8::*;
use crate::scan::{first_index, lemma_first_index, lemma_first_index_is};

verus! {

/// Whether two strings hold the same characters.
pub fn same_text(a: &str, b: &str) -> (same: bool)
    ensures
        same == (a@ == b@),
{
    let x = a.as_bytes();
    let y = b.as_bytes();
    proof {
        encode_utf8_decode_utf8(a@);
        encode_utf8_decode_utf8(b@);
    }
    let n = x.len();
    if n != y.len() {
        return false;
    }
    let mut i: usize = 0;
    while i < n
        invariant
            i <= n,
            n == x@.len(),
            n == y@.len(),
            x@ == encode_utf8(a@),
            y@ == encode_utf8(b@),
            x@.take(i as int) == y@.take(i as int),
        decreases n - i,
    {
        if x[i] != y[i] {
            return false;
        }
        i += 1;
    }
    assert(x@ == x@.take(n as int));
    assert(y@ == y@.take(n as int));
    true
}

/// A line without its line feed: when `line` ends in a line feed, all of it
/// but that one character; otherwise `line` as it is.
pub open spec fn chomped(line: Seq<char>) -> Seq<char> {
    if line.len() > 0 && line.last() == '\n' {
        line.drop_last()
    } else {
        line
    }
}

/// A line feed at the end of a line is dropped, and only one; a line that
/// ends otherwise stays as it is.
pub proof fn lemma_chomped(line: Seq<char>)
    ensures
        chomped(line + seq!['\n']) == line,
        line.len() == 0 || line.last() != '\n' ==> chomped(line) == line,
{
}

/// Drops one trailing line feed, if there is one.
pub fn chomp(line: &str) -> (rest: &str)
    ensures
        rest@ == chomped(line@),
{
    let n = line.unicode_len();
    if n > 0 && line.get_char(n - 1) == '\n' {
        line.substring_char(0, n - 1)
    } else {
        line
    }
}

/// The characters of a string, one by one.
pub fn chars_of(s: &str) -> (chars: Vec<char>)
    ensures
        chars@ == s@,
{
    let mut chars: Vec<char> = Vec::new();
    for c in it: s.chars()
        invariant
            it.seq() == s@,
            chars@ == it.seq().take(it.index()),
    {
        chars.push(c);
    }
    chars
}

/// The form of a character by which keywords are matched whatever the case
/// of their letters. An upper-case ASCII letter folds onto its lower-case
/// form; so do the two other characters that Unicode folds onto an ASCII
/// letter: the Kelvin sign onto `k`, the long s onto `s`. Every other
/// character is its own form.
pub open spec fn folded(c: char) -> char {
    if 'A' <= c <= 'Z' {
        (c as u8 + 32) as char
    } else if c == '\u{212A}' {
        'k'
    } else if c == '\u{17F}' {
        's'
    } else {
        c
    }
}

/// Folds a character onto the form by which keywords are matched.
pub fn fold_case(c: char) -> (form: char)
    ensures
        form == folded(c),
{
    if 'A' <= c && c <= 'Z' {
        ((c as u8) + 32) as char
    } else if c == '\u{212A}' {
        'k'
    } else if c == '\u{17F}' {
        's'
    } else {
        c
    }
}

/// Whether `line` begins with `keyword`, each character compared by its
/// folded form. `keyword` is meant to be ASCII.
pub open spec fn opens_with(line: Seq<char>, keyword: Seq<char>) -> bool {
    &&& keyword.len() <= line.len()
    &&& forall|i: int| 0 <= i < keyword.len() ==> folded(#[trigger] line[i]) == folded(keyword[i])
}

/// What stands in `line` from index `from` to the end of that line: up to
/// the first line feed at or after `from`, or to the end of `line` where
/// none follows.
pub open spec fn rest_of_line(line: Seq<char>, from: int) -> Seq<char> {
    let rest = line.skip(from);
    rest.take(first_index(rest, |c: char| c == '\n'))
}

/// The text that follows `keyword` at the start of `line`, to the end of
/// that line and as it stands; `None` where `line` does not begin with
/// `keyword`.
pub open spec fn text_after(line: Seq<char>, keyword: Seq<char>) -> Option<Seq<char>> {
    if opens_with(line, keyword) {
        Some(rest_of_line(line, keyword.len() as int))
    } else {
        None
    }
}

/// Finds `keyword` at the start of `line` and hands out what follows it.
/// `chars` holds the characters of `line`.
pub(crate) fn after_keyword<'a>(line: &'a str, chars: &Vec<char>, keyword: &str) -> (rest: Option<&'a str>)
    requires
        chars@ == line@,
    ensures
        rest.deep_view() == text_after(line@, keyword@),
{
    let key = chars_of(keyword);
    let n = chars.len();
    let k = key.len();
    if n < k {
        return None;
    }
    let mut i: usize = 0;
    while i < k
        invariant
            i <= k <= n,
            n == chars@.len(),
            k == key@.len(),
            chars@ == line@,
            key@ == keyword@,
            forall|j: int| 0 <= j < i ==> folded(#[trigger] line@[j]) == folded(keyword@[j]),
        decreases k - i,
    {
        if fold_case(chars[i]) != fold_case(key[i]) {
            return None;
        }
        i += 1;
    }
    let ghost rest = line@.skip(k as int);
    let mut end: usize = k;
    while end < n && chars[end] != '\n'
        invariant
            k <= end <= n,
            n == chars@.len(),
            chars@ == line@,
            rest == line@.skip(k as int),
            forall|j: int| 0 <= j < end - k ==> #[trigger] rest[j] != '\n',
        decreases n - end,
    {
        end += 1;
    }
    proof {
        lemma_first_index_is(rest, |c: char| c == '\n', end - k);
    }
    Some(line.substring_char(k, end))
}

/// The text that formatting a string with `{:?}` gives.
pub uninterp spec fn debug_text(s: Seq<char>) -> Seq<char>;

/// `format!` of std with `{:?}`, on a string: the string between double
/// quotes, with its special characters escaped. The text depends on nothing
/// but the string's characters, and is known here under the name
/// `debug_text`.
#[verifier::external_body]
pub(crate) fn debug_str(s: &str) -> (text: String)
    ensures
        text@ == debug_text(s@),
{
    format!("{:?}", s)
}

/// The text that formatting a list of strings with `{:?}` gives.
pub uninterp spec fn list_debug_text(list: Seq<Seq<char>>) -> Seq<char>;

/// `format!` of std with `{:?}`, on a list of strings: the strings as
/// `{:?}` writes each, between square brackets. The text depends on nothing
/// but the strings' characters, and is known here under the name
/// `list_debug_text`.
#[verifier::external_body]
pub(crate) fn debug_list(list: &Vec<&str>) -> (text: String)
    ensures
        text@ == list_debug_text(list.deep_view()),
{
    format!("{:?}", list)
}

/// Whether `c` is white space: one of the 25 characters that have Unicode's
/// `White_Space` property, which are the ones that `char::is_whitespace`
/// accepts.
pub open spec fn white_space(c: char) -> bool {
    ||| '\u{9}' <= c <= '\u{D}'
    ||| c == ' '
    ||| c == '\u{85}'
    ||| c == '\u{A0}'
    ||| c == '\u{1680}'
    ||| '\u{2000}' <= c <= '\u{200A}'
    ||| c == '\u{2028}'
    ||| c == '\u{2029}'
    ||| c == '\u{202F}'
    ||| c == '\u{205F}'
    ||| c == '\u{3000}'
}

/// Whether a character is white space.
pub fn is_white_space(c: char) -> (white: bool)
    ensures
        white == white_space(c),
{
    ('\u{9}' <= c && c <= '\u{D}') || c == ' ' || c == '\u{85}' || c == '\u{A0}' || c == '\u{1680}'
        || ('\u{2000}' <= c && c <= '\u{200A}') || c == '\u{2028}' || c == '\u{2029}' || c
        == '\u{202F}' || c == '\u{205F}' || c == '\u{3000}'
}

/// The words of a text: its longest runs of characters that are not white
/// space, in their order.
pub open spec fn words(s: Seq<char>) -> Seq<Seq<char>>
    decreases s.len(),
{
    if s.len() == 0 {
        Seq::empty()
    } else if white_space(s[0]) {
        words(s.drop_first())
    } else {
        let n = first_index(s, |c: char| white_space(c));
        proof {
            lemma_first_index(s, |c: char| white_space(c));
        }
        seq![s.take(n)] + words(s.skip(n))
    }
}

/// Splits a text at its white space, as `str::split_whitespace` does.
pub fn split_words<'a>(line: &'a str) -> (found: Vec<&'a str>)
    ensures
        found.deep_view() == words(line@),
{
    let chars = chars_of(line);
    let n = chars.len();
    let mut found: Vec<&'a str> = Vec::new();
    let mut i: usize = 0;
    assert(line@.skip(0) == line@);
    while i < n
        invariant
            i <= n,
            n == chars@.len(),
            chars@ == line@,
            words(line@) == found.deep_view() + words(line@.skip(i as int)),
        decreases n - i,
    {
        let ghost rest = line@.skip(i as int);
        if is_white_space(chars[i]) {
            assert(rest.drop_first() == line@.skip(i + 1));
            i += 1;
        } else {
            let start = i;
            while i < n && !is_white_space(chars[i])
                invariant
                    start <= i <= n,
                    n == chars@.len(),
                    chars@ == line@,
                    rest == line@.skip(start as int),
                    forall|j: int| 0 <= j < i - start ==> !white_space(#[trigger] rest[j]),
                decreases n - i,
            {
                i += 1;
            }
            let word = line.substring_char(start, i);
            proof {
                lemma_first_index_is(rest, |c: char| white_space(c), i - start);
                assert(rest.take(i - start) == word@);
                assert(rest.skip(i - start) == line@.skip(i as int));
                assert(found.deep_view().push(word@) + words(line@.skip(i as int))
                    == found.deep_view() + words(rest));
            }
            found.push(word);
        }
    }
    found
}

} // verus!
