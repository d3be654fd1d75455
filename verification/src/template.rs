//! Lines of fixed wording with names or numbers set into them.

use vstd::prelude::*;
use crate::text::{chars_of, text_view, trim_bounds, trimmed};

verus! {

/// Whether `needle` stands in `hay` at place `i`.
pub open spec fn occurs_at(hay: Seq<char>, needle: Seq<char>, i: int) -> bool {
    &&& 0 <= i
    &&& i + needle.len() <= hay.len()
    &&& hay.subrange(i, i + needle.len()) == needle
}

/// The first place at or after `from` where `needle` stands in `hay`.
pub open spec fn first_occurrence(hay: Seq<char>, needle: Seq<char>, from: int) -> Option<int>
    decreases hay.len() - from + 1,
{
    if from < 0 || from + needle.len() > hay.len() {
        None
    } else if occurs_at(hay, needle, from) {
        Some(from)
    } else {
        first_occurrence(hay, needle, from + 1)
    }
}

/// `s` where it is not empty.
pub open spec fn nonempty(s: Seq<char>) -> Option<Seq<char>> {
    if s.len() > 0 {
        Some(s)
    } else {
        None
    }
}

/// What a field holds that is taken as it stands: the trimmed text, unless
/// nothing is left of it.
pub open spec fn plain_of(text: Seq<char>) -> Option<Seq<char>> {
    nonempty(trimmed(text))
}

/// The mark that ends a name and opens what is set in brackets behind it.
pub open spec fn opening_mark() -> Seq<char> {
    " ("@
}

/// The mark that ends a song's rate.
pub open spec fn closing_mark() -> Seq<char> {
    "x))"@
}

/// What stands before an artist's name.
pub open spec fn artist_heading() -> Seq<char> {
    "By: "@
}

/// What stands before the name of the user who is logged in.
pub open spec fn login_heading() -> Seq<char> {
    "Logged in as "@
}

/// The title and the rate in a line of the form `<song> (<rate>x))`, both
/// trimmed.
///
/// The title ends at the first ` (`, the rate at the first `x))` behind
/// that; what follows is not looked at. `None` where either mark is missing.
pub open spec fn song_and_rate_of(text: Seq<char>) -> Option<(Seq<char>, Seq<char>)> {
    match first_occurrence(text, opening_mark(), 0) {
        Some(i) => {
            let from = i + opening_mark().len();
            match first_occurrence(text, closing_mark(), from) {
                Some(j) => Some((trimmed(text.subrange(0, i)), trimmed(text.subrange(from, j)))),
                None => None,
            }
        },
        None => None,
    }
}

/// The artist in a line of the form `By: <artist>`: all that follows the
/// heading, trimmed. `None` where the heading is missing or nothing follows.
pub open spec fn artist_of(text: Seq<char>) -> Option<Seq<char>> {
    if occurs_at(text, artist_heading(), 0) {
        nonempty(trimmed(text.subrange(artist_heading().len() as int, text.len() as int)))
    } else {
        None
    }
}

/// The user name in a line of the form `Logged in as <username> (<rest>`:
/// what stands between the heading and the first ` (` behind it, trimmed.
/// `None` where the heading or the mark is missing, or the name is empty.
pub open spec fn username_of(text: Seq<char>) -> Option<Seq<char>> {
    if occurs_at(text, login_heading(), 0) {
        let from = login_heading().len() as int;
        match first_occurrence(text, opening_mark(), from) {
            Some(i) => nonempty(trimmed(text.subrange(from, i))),
            None => None,
        }
    } else {
        None
    }
}

/// Tells whether `needle` stands in `hay` at place `i`.
fn stands_at(hay: &Vec<char>, needle: &Vec<char>, i: usize) -> (b: bool)
    ensures
        b == occurs_at(hay@, needle@, i as int),
{
    if needle.len() > hay.len() || i > hay.len() - needle.len() {
        return false;
    }
    let mut k: usize = 0;
    while k < needle.len()
        invariant
            k <= needle.len(),
            i + needle.len() <= hay.len(),
            hay@.subrange(i as int, i + k) == needle@.subrange(0, k as int),
        decreases needle.len() - k,
    {
        if hay[i + k] != needle[k] {
            assert(hay@.subrange(i as int, i + needle.len())[k as int] != needle@[k as int]);
            return false;
        }
        assert(hay@.subrange(i as int, i + k + 1) == hay@.subrange(i as int, i + k).push(
            hay@[i + k],
        ));
        assert(needle@.subrange(0, k + 1) == needle@.subrange(0, k as int).push(needle@[k as int]));
        k = k + 1;
    }
    assert(needle@.subrange(0, k as int) == needle@);
    true
}

/// Finds the first place at or after `from` where `needle` stands in `hay`.
fn find(hay: &Vec<char>, needle: &Vec<char>, from: usize) -> (r: Option<usize>)
    ensures
        match r {
            Some(i) => first_occurrence(hay@, needle@, from as int) == Some(i as int) && from <= i
                && i + needle.len() <= hay.len(),
            None => first_occurrence(hay@, needle@, from as int) is None,
        },
{
    if needle.len() > hay.len() {
        return None;
    }
    let last: usize = hay.len() - needle.len();
    let mut i: usize = from;
    while i <= last
        invariant
            from <= i,
            last == hay.len() - needle.len(),
            first_occurrence(hay@, needle@, from as int) == first_occurrence(
                hay@,
                needle@,
                i as int,
            ),
        decreases last + 1 - i,
    {
        if stands_at(hay, needle, i) {
            return Some(i);
        }
        if i == last {
            assert(first_occurrence(hay@, needle@, i + 1) is None);
            return None;
        }
        i = i + 1;
    }
    None
}

/// The text between `lo` and `hi` of `chars`, trimmed, as a string of its own.
fn trimmed_part(text: &str, chars: &Vec<char>, lo: usize, hi: usize) -> (r: String)
    requires
        chars@ == text@,
        lo <= hi <= chars.len(),
    ensures
        r@ == trimmed(text@.subrange(lo as int, hi as int)),
{
    let (a, b) = trim_bounds(chars, lo, hi);
    text.substring_char(a, b).to_owned()
}

/// Reads a field that is taken as it stands.
pub fn parse_plain(text: &str) -> (r: Option<String>)
    ensures
        text_view(r) == plain_of(text@),
{
    let chars = chars_of(text);
    assert(text@.subrange(0, chars.len() as int) == text@);
    let part = trimmed_part(text, &chars, 0, chars.len());
    if part.as_str().is_empty() {
        None
    } else {
        Some(part)
    }
}

/// Reads the title and the rate from a line of the form `<song> (<rate>x))`.
pub fn parse_song_and_rate(text: &str) -> (r: Option<(String, String)>)
    ensures
        match r {
            Some((song, rate)) => song_and_rate_of(text@) == Some((song@, rate@)),
            None => song_and_rate_of(text@) is None,
        },
{
    let chars = chars_of(text);
    let opening = chars_of(" (");
    let closing = chars_of("x))");
    match find(&chars, &opening, 0) {
        Some(i) => {
            let from = i + opening.len();
            match find(&chars, &closing, from) {
                Some(j) => {
                    let song = trimmed_part(text, &chars, 0, i);
                    let rate = trimmed_part(text, &chars, from, j);
                    Some((song, rate))
                },
                None => None,
            }
        },
        None => None,
    }
}

/// Reads the artist from a line of the form `By: <artist>`.
pub fn parse_artist(text: &str) -> (r: Option<String>)
    ensures
        text_view(r) == artist_of(text@),
{
    let chars = chars_of(text);
    let heading = chars_of("By: ");
    if !stands_at(&chars, &heading, 0) {
        return None;
    }
    let part = trimmed_part(text, &chars, heading.len(), chars.len());
    if part.as_str().is_empty() {
        None
    } else {
        Some(part)
    }
}

/// Reads the user name from a line of the form
/// `Logged in as <username> (<rest>`.
pub fn parse_username(text: &str) -> (r: Option<String>)
    ensures
        text_view(r) == username_of(text@),
{
    let chars = chars_of(text);
    let heading = chars_of("Logged in as ");
    let opening = chars_of(" (");
    if !stands_at(&chars, &heading, 0) {
        return None;
    }
    match find(&chars, &opening, heading.len()) {
        Some(i) => {
            let part = trimmed_part(text, &chars, heading.len(), i);
            if part.as_str().is_empty() {
                None
            } else {
                Some(part)
            }
        },
        None => None,
    }
}

} // verus!
