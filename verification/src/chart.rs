//! Chart properties shown on an evaluation screen: the rate and the difficulty.

use vstd::prelude::*;

verus! {

/// A chart rate (music speed), held as a whole number of twentieths:
/// `1.15x` is 23.
#[derive(Clone, Copy, Debug, PartialEq, Eq, Hash, Structural)]
pub struct Rate {
    pub x20: u32,
}

/// Chart difficulty.
#[derive(Clone, Copy, Debug, PartialEq, Eq, Hash, Structural)]
pub enum Difficulty {
    Beginner,
    Easy,
    Medium,
    Hard,
    Challenge,
    Edit,
}

/// The rate, in twentieths, that `etterna::Rate::from_string` reads from a
/// text; `None` where it reads none.
pub uninterp spec fn rate_of_text(text: Seq<char>) -> Option<u32>;

/// What [`parse_rate`] returns on a text.
pub open spec fn rate_reading(text: Seq<char>) -> Option<Rate> {
    match rate_of_text(text) {
        Some(x20) => Some(Rate { x20 }),
        None => None,
    }
}

/// Calls `etterna::Rate::from_string` and hands back the rate in twentieths.
/// Trusted: the result is the same for the same text.
#[verifier::external_body]
fn rate_from_string(text: &str) -> (r: Option<u32>)
    ensures
        r == rate_of_text(text@),
{
    match etterna::Rate::from_string(text) {
        Some(rate) => Some(rate.as_x20()),
        None => None,
    }
}

/// Reads a rate from a numeric text such as `1.05`.
pub fn parse_rate(text: &str) -> (r: Option<Rate>)
    ensures
        r == rate_reading(text@),
{
    match rate_from_string(text) {
        Some(x20) => Some(Rate { x20 }),
        None => None,
    }
}

/// An ASCII lower-case letter as its upper-case letter, any other character
/// unchanged.
pub open spec fn ascii_upper(c: char) -> char {
    if 'a' <= c && c <= 'z' {
        ((c as u32) - 32) as char
    } else {
        c
    }
}

/// The difficulty that a two-letter code stands for, whatever the case of its
/// letters.
pub open spec fn difficulty_of_code(code: Seq<char>) -> Option<Difficulty> {
    if code.len() != 2 {
        None
    } else {
        let a = ascii_upper(code[0]);
        let b = ascii_upper(code[1]);
        if a == 'B' && b == 'G' {
            Some(Difficulty::Beginner)
        } else if a == 'E' && b == 'Z' {
            Some(Difficulty::Easy)
        } else if a == 'N' && b == 'M' {
            Some(Difficulty::Medium)
        } else if a == 'H' && b == 'D' {
            Some(Difficulty::Hard)
        } else if a == 'I' && b == 'N' {
            Some(Difficulty::Challenge)
        } else if a == 'E' && b == 'D' {
            Some(Difficulty::Edit)
        } else {
            None
        }
    }
}

/// Calls `etterna::Difficulty::from_short_string`. Trusted: it upper-cases
/// the ASCII letters of the text and matches the result against the six
/// codes `BG`, `EZ`, `NM`, `HD`, `IN` and `ED`.
#[verifier::external_body]
fn difficulty_from_short_string(text: &str) -> (r: Option<Difficulty>)
    ensures
        r == difficulty_of_code(text@),
{
    match etterna::Difficulty::from_short_string(text) {
        Some(etterna::Difficulty::Beginner) => Some(Difficulty::Beginner),
        Some(etterna::Difficulty::Easy) => Some(Difficulty::Easy),
        Some(etterna::Difficulty::Medium) => Some(Difficulty::Medium),
        Some(etterna::Difficulty::Hard) => Some(Difficulty::Hard),
        Some(etterna::Difficulty::Challenge) => Some(Difficulty::Challenge),
        Some(etterna::Difficulty::Edit) => Some(Difficulty::Edit),
        None => None,
    }
}

/// Reads a difficulty from its two-letter code.
pub fn parse_difficulty(text: &str) -> (r: Option<Difficulty>)
    ensures
        r == difficulty_of_code(text@),
{
    difficulty_from_short_string(text)
}

} // verus!
