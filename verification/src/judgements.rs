//! Counts of tap judgements, each of which may be missing.

use vstd::prelude::*;
use crate::number::{count_in, count_of};
use crate::text::{chars_of, trim_bounds, trimmed};

verus! {

/// `etterna::TapJudgements`: six counts in public fields, one for each
/// category, all of them known.
#[verifier::external_type_specification]
pub struct ExTapJudgements(etterna::TapJudgements);

/// Six judgement counts, from the most precise category to the least. A count
/// that was not read is `None`, never zero.
#[derive(Debug, Clone, Copy, PartialEq, Eq, Hash, Structural)]
pub struct TapJudgementsMaybe {
    pub marvelouses: Option<u32>,
    pub perfects: Option<u32>,
    pub greats: Option<u32>,
    pub goods: Option<u32>,
    pub bads: Option<u32>,
    pub misses: Option<u32>,
}

impl Default for TapJudgementsMaybe {
    fn default() -> (r: Self)
        ensures
            r == Self::empty(),
    {
        TapJudgementsMaybe {
            marvelouses: None,
            perfects: None,
            greats: None,
            goods: None,
            bads: None,
            misses: None,
        }
    }
}

impl TapJudgementsMaybe {
    /// The counts of which none is known.
    pub open spec fn empty() -> Self {
        TapJudgementsMaybe {
            marvelouses: None,
            perfects: None,
            greats: None,
            goods: None,
            bads: None,
            misses: None,
        }
    }
}

impl vstd::std_specs::convert::FromSpecImpl<etterna::TapJudgements> for TapJudgementsMaybe {
    open spec fn obeys_from_spec() -> bool {
        true
    }

    /// Every count is known and is the count of the same category in `j`.
    open spec fn from_spec(j: etterna::TapJudgements) -> Self {
        TapJudgementsMaybe {
            marvelouses: Some(j.marvelouses),
            perfects: Some(j.perfects),
            greats: Some(j.greats),
            goods: Some(j.goods),
            bads: Some(j.bads),
            misses: Some(j.misses),
        }
    }
}

impl From<etterna::TapJudgements> for TapJudgementsMaybe {
    fn from(j: etterna::TapJudgements) -> (r: Self) {
        TapJudgementsMaybe {
            marvelouses: Some(j.marvelouses),
            perfects: Some(j.perfects),
            greats: Some(j.greats),
            goods: Some(j.goods),
            bads: Some(j.bads),
            misses: Some(j.misses),
        }
    }
}

/// The pieces that the separator `sep` cuts `s` into, in order. A text without
/// a separator is one piece; the empty text is one empty piece.
pub open spec fn split(s: Seq<char>, sep: char) -> Seq<Seq<char>>
    decreases s.len(),
{
    if s.len() == 0 {
        seq![Seq::empty()]
    } else {
        let before = split(s.drop_last(), sep);
        if s.last() == sep {
            before.push(Seq::empty())
        } else {
            before.drop_last().push(before.last().push(s.last()))
        }
    }
}

/// The counts that the tokens write, in order. Each token is trimmed first,
/// and a token that writes no count is left out.
pub open spec fn counts_of_tokens(tokens: Seq<Seq<char>>) -> Seq<u32>
    decreases tokens.len(),
{
    if tokens.len() == 0 {
        Seq::empty()
    } else {
        let before = counts_of_tokens(tokens.drop_last());
        match count_of(trimmed(tokens.last())) {
            Some(n) => before.push(n),
            None => before,
        }
    }
}

/// The count at place `k` of `counts`, if there is one.
pub open spec fn count_at(counts: Seq<u32>, k: int) -> Option<u32> {
    if 0 <= k < counts.len() {
        Some(counts[k])
    } else {
        None
    }
}

/// The first six of `counts` as judgements, the most precise category first.
/// Where there are fewer than six, the categories that are left are unknown.
pub open spec fn judgements_from_counts(counts: Seq<u32>) -> TapJudgementsMaybe {
    TapJudgementsMaybe {
        marvelouses: count_at(counts, 0),
        perfects: count_at(counts, 1),
        greats: count_at(counts, 2),
        goods: count_at(counts, 3),
        bads: count_at(counts, 4),
        misses: count_at(counts, 5),
    }
}

/// The judgements that a slash-separated text such as `1000/50/10/2/1/0`
/// writes.
pub open spec fn slash_separated_judgements(text: Seq<char>) -> TapJudgementsMaybe {
    judgements_from_counts(counts_of_tokens(split(text, '/')))
}

fn count_at_place(counts: &Vec<u32>, k: usize) -> (r: Option<u32>)
    ensures
        r == count_at(counts@, k as int),
{
    if k < counts.len() {
        Some(counts[k])
    } else {
        None
    }
}

/// Reads judgement counts from a text in which slashes separate them.
///
/// Each piece between slashes is trimmed and read as a count; a piece that
/// writes no count is skipped, and the counts found fill the categories in
/// order. The result is never `None`.
pub fn parse_slash_separated_judgement_string(s: &str) -> (r: Option<TapJudgementsMaybe>)
    ensures
        r == Some(slash_separated_judgements(s@)),
{
    let chars = chars_of(s);
    let n = chars.len();
    let mut counts: Vec<u32> = Vec::new();
    let mut start: usize = 0;
    let mut i: usize = 0;
    let ghost mut done: Seq<Seq<char>> = Seq::empty();
    assert(chars@.subrange(0, 0) == Seq::<char>::empty());
    assert(seq![Seq::<char>::empty()] == done.push(chars@.subrange(0, 0)));
    while i < n
        invariant
            start <= i <= n == chars.len(),
            split(chars@.subrange(0, i as int), '/') == done.push(
                chars@.subrange(start as int, i as int),
            ),
            counts@ == counts_of_tokens(done),
        decreases n - i,
    {
        let ghost prefix = chars@.subrange(0, i as int);
        let ghost longer = chars@.subrange(0, i + 1);
        let ghost token = chars@.subrange(start as int, i as int);
        assert(longer.drop_last() == prefix);
        assert(longer.last() == chars@[i as int]);
        assert(done.push(token).drop_last() == done);
        if chars[i] == '/' {
            let (a, b) = trim_bounds(&chars, start, i);
            match count_in(&chars, a, b) {
                Some(c) => {
                    counts.push(c);
                },
                None => {},
            }
            proof {
                done = done.push(token);
                assert(chars@.subrange(i + 1, i + 1) == Seq::<char>::empty());
            }
            start = i + 1;
        } else {
            assert(token.push(chars@[i as int]) == chars@.subrange(start as int, i + 1));
        }
        i = i + 1;
    }
    let (a, b) = trim_bounds(&chars, start, n);
    match count_in(&chars, a, b) {
        Some(c) => {
            counts.push(c);
        },
        None => {},
    }
    proof {
        let token = chars@.subrange(start as int, n as int);
        assert(done.push(token).drop_last() == done);
        assert(chars@.subrange(0, n as int) == chars@);
    }
    Some(
        TapJudgementsMaybe {
            marvelouses: count_at_place(&counts, 0),
            perfects: count_at_place(&counts, 1),
            greats: count_at_place(&counts, 2),
            goods: count_at_place(&counts, 3),
            bads: count_at_place(&counts, 4),
            misses: count_at_place(&counts, 5),
        },
    )
}

} // verus!
