//! Numbers in recognized text: counts and decimal readings.

use vstd::prelude::*;
use crate::text::chars_of;

verus! {

/// Whether `c` is one of the digits `0` to `9`.
pub open spec fn is_digit(c: char) -> bool {
    '0' <= c && c <= '9'
}

/// The number that the digit `c` stands for.
pub open spec fn digit_value(c: char) -> nat
    recommends
        is_digit(c),
{
    (c as u32 - 0x30) as nat
}

/// Whether every character of `s` is a digit.
pub open spec fn all_digits(s: Seq<char>) -> bool {
    forall|i: int| 0 <= i < s.len() ==> is_digit(#[trigger] s[i])
}

/// The number that the digits `s` write in base ten; 0 for no digits.
pub open spec fn digits_value(s: Seq<char>) -> nat
    recommends
        all_digits(s),
    decreases s.len(),
{
    if s.len() == 0 {
        0
    } else {
        digits_value(s.drop_last()) * 10 + digit_value(s.last())
    }
}

/// `s` without a plus sign at its start.
pub open spec fn unsigned_part(s: Seq<char>) -> Seq<char> {
    if s.len() > 0 && s[0] == '+' {
        s.drop_first()
    } else {
        s
    }
}

/// The count that `s` writes: one digit or more, after at most one plus sign,
/// with a value that fits 32 bits. `None` for any other text.
pub open spec fn count_of(s: Seq<char>) -> Option<u32> {
    let d = unsigned_part(s);
    if d.len() > 0 && all_digits(d) && digits_value(d) <= u32::MAX {
        Some(digits_value(d) as u32)
    } else {
        None
    }
}

/// Tells whether `c` is a digit.
pub fn is_ascii_digit(c: char) -> (b: bool)
    ensures
        b == is_digit(c),
{
    '0' <= c && c <= '9'
}

/// What a run of characters holds when it is read as digits.
enum DigitRun {
    /// A character of the run is no digit.
    NoNumber,
    /// All are digits, and their value is over the limit.
    OverLimit,
    /// All are digits, and this is their value.
    Value(u64),
}

/// Reads the characters of `chars` between `lo` and `hi` as digits, with a
/// value of at most `limit`.
fn digits_in(chars: &Vec<char>, lo: usize, hi: usize, limit: u64) -> (r: DigitRun)
    requires
        lo <= hi <= chars.len(),
        limit <= 1_000_000_000_000_000,
    ensures
        match r {
            DigitRun::NoNumber => !all_digits(chars@.subrange(lo as int, hi as int)),
            DigitRun::OverLimit => all_digits(chars@.subrange(lo as int, hi as int))
                && digits_value(chars@.subrange(lo as int, hi as int)) > limit,
            DigitRun::Value(n) => all_digits(chars@.subrange(lo as int, hi as int)) && n
                == digits_value(chars@.subrange(lo as int, hi as int)) && n <= limit,
        },
{
    let mut value: u64 = 0;
    let mut over: bool = false;
    let mut i: usize = lo;
    while i < hi
        invariant
            lo <= i <= hi <= chars.len(),
            limit <= 1_000_000_000_000_000,
            all_digits(chars@.subrange(lo as int, i as int)),
            !over ==> value == digits_value(chars@.subrange(lo as int, i as int)) && value <= limit,
            over ==> digits_value(chars@.subrange(lo as int, i as int)) > limit,
        decreases hi - i,
    {
        let c = chars[i];
        let ghost before = chars@.subrange(lo as int, i as int);
        let ghost after = chars@.subrange(lo as int, i + 1);
        assert(after.drop_last() == before);
        assert(after.last() == c);
        if !is_ascii_digit(c) {
            assert(!is_digit(chars@.subrange(lo as int, hi as int)[i - lo]));
            return DigitRun::NoNumber;
        }
        assert(all_digits(after)) by {
            assert forall|k: int| 0 <= k < after.len() implies is_digit(#[trigger] after[k]) by {
                if k < before.len() {
                    assert(after[k] == before[k]);
                }
            }
        }
        if !over {
            let d: u64 = (c as u32 - 0x30) as u64;
            let next: u64 = value * 10 + d;
            if next > limit {
                over = true;
            } else {
                value = next;
            }
        }
        i = i + 1;
    }
    assert(chars@.subrange(lo as int, i as int) == chars@.subrange(lo as int, hi as int));
    if over {
        DigitRun::OverLimit
    } else {
        DigitRun::Value(value)
    }
}

/// Reads the count written between `lo` and `hi` of `chars`.
pub(crate) fn count_in(chars: &Vec<char>, lo: usize, hi: usize) -> (r: Option<u32>)
    requires
        lo <= hi <= chars.len(),
    ensures
        r == count_of(chars@.subrange(lo as int, hi as int)),
{
    let ghost s = chars@.subrange(lo as int, hi as int);
    let start: usize = if lo < hi && chars[lo] == '+' {
        lo + 1
    } else {
        lo
    };
    assert(chars@.subrange(start as int, hi as int) == unsigned_part(s));
    if start == hi {
        return None;
    }
    match digits_in(chars, start, hi, 0xFFFF_FFFF) {
        DigitRun::Value(n) => Some(n as u32),
        _ => None,
    }
}

/// Reads a count: one digit or more, after at most one plus sign.
pub fn parse_count(text: &str) -> (r: Option<u32>)
    ensures
        r == count_of(text@),
{
    let chars = chars_of(text);
    assert(chars@.subrange(0, chars.len() as int) == chars@);
    count_in(&chars, 0, chars.len())
}

/// A decimal reading, kept to six places after the point: the number
/// `micros / 1_000_000`.
#[derive(Clone, Copy, Debug, PartialEq, Eq, Hash, Structural)]
pub struct Decimal {
    pub micros: i64,
}

/// How close two readings must be to count as the same: one hundredth.
pub const DECIMAL_TOLERANCE_MICROS: i64 = 10_000;

impl Decimal {
    /// Whether two readings differ by at most one hundredth.
    pub open spec fn close_to(self, other: Decimal) -> bool {
        -DECIMAL_TOLERANCE_MICROS <= self.micros - other.micros <= DECIMAL_TOLERANCE_MICROS
    }

    /// Tells whether two readings differ by at most one hundredth.
    pub fn is_close_to(&self, other: &Decimal) -> (b: bool)
        ensures
            b == self.close_to(*other),
    {
        if self.micros >= other.micros {
            if other.micros >= 0 || self.micros <= i64::MAX + other.micros {
                self.micros - other.micros <= DECIMAL_TOLERANCE_MICROS
            } else {
                false
            }
        } else {
            if self.micros >= 0 || other.micros <= i64::MAX + self.micros {
                other.micros - self.micros <= DECIMAL_TOLERANCE_MICROS
            } else {
                false
            }
        }
    }
}

/// The number of sign characters at the start of `s`: 1 for a plus or a
/// minus sign, else 0.
pub open spec fn sign_len(s: Seq<char>) -> int {
    if s.len() > 0 && (s[0] == '+' || s[0] == '-') {
        1
    } else {
        0
    }
}

/// The number of digits at the start of `s`.
pub open spec fn digit_run_len(s: Seq<char>) -> int
    decreases s.len(),
{
    if s.len() > 0 && is_digit(s[0]) {
        1 + digit_run_len(s.drop_first())
    } else {
        0
    }
}

/// The digit at place `k` after the point, 0 where `frac` is shorter.
pub open spec fn place_value(frac: Seq<char>, k: int) -> nat {
    if 0 <= k < frac.len() {
        digit_value(frac[k])
    } else {
        0
    }
}

/// The first six digits after the point as a number of millionths. Digits
/// after the sixth are dropped.
pub open spec fn fraction_micros(frac: Seq<char>) -> nat {
    place_value(frac, 0) * 100_000 + place_value(frac, 1) * 10_000 + place_value(frac, 2) * 1_000
        + place_value(frac, 3) * 100 + place_value(frac, 4) * 10 + place_value(frac, 5)
}

/// The digits of `s` before the point, after the sign.
pub open spec fn whole_digits(s: Seq<char>) -> Seq<char> {
    let body = s.skip(sign_len(s));
    body.take(digit_run_len(body))
}

/// What follows the digits before the point: the digits after the point
/// where `s` is well formed.
pub open spec fn fraction_digits(s: Seq<char>) -> Seq<char> {
    let body = s.skip(sign_len(s));
    let rest = body.skip(digit_run_len(body));
    if rest.len() > 0 && rest[0] == '.' {
        rest.skip(1)
    } else {
        rest
    }
}

/// The size of the reading that `s` writes, in millionths.
pub open spec fn decimal_magnitude(s: Seq<char>) -> nat {
    digits_value(whole_digits(s)) * 1_000_000 + fraction_micros(fraction_digits(s))
}

/// The reading that `s` writes: at most one sign, digits, and at most one
/// point among or beside them, with one digit at least. `None` for any other
/// text, and where the reading in millionths does not fit 64 bits.
pub open spec fn decimal_of(s: Seq<char>) -> Option<Decimal> {
    let whole = whole_digits(s);
    let frac = fraction_digits(s);
    if all_digits(frac) && whole.len() + frac.len() > 0 && decimal_magnitude(s) <= i64::MAX {
        if s.len() > 0 && s[0] == '-' {
            Some(Decimal { micros: (-decimal_magnitude(s)) as i64 })
        } else {
            Some(Decimal { micros: decimal_magnitude(s) as i64 })
        }
    } else {
        None
    }
}

fn place_in(chars: &Vec<char>, from: usize, k: usize) -> (r: u64)
    requires
        from <= chars.len(),
        k < 6,
        all_digits(chars@.skip(from as int)),
    ensures
        r == place_value(chars@.skip(from as int), k as int),
        r <= 9,
{
    if k < chars.len() - from {
        let c = chars[from + k];
        assert(chars@.skip(from as int)[k as int] == c);
        (c as u32 - 0x30) as u64
    } else {
        0
    }
}

/// The digits of `chars` from `from` to the end as millionths.
fn fraction_in(chars: &Vec<char>, from: usize) -> (r: u64)
    requires
        from <= chars.len(),
        all_digits(chars@.skip(from as int)),
    ensures
        r == fraction_micros(chars@.skip(from as int)),
        r <= 999_999,
{
    place_in(chars, from, 0) * 100_000 + place_in(chars, from, 1) * 10_000 + place_in(
        chars,
        from,
        2,
    ) * 1_000 + place_in(chars, from, 3) * 100 + place_in(chars, from, 4) * 10 + place_in(
        chars,
        from,
        5,
    )
}

/// The place behind the digits that start at `from`.
fn digit_run_end(chars: &Vec<char>, from: usize) -> (end: usize)
    requires
        from <= chars.len(),
    ensures
        from <= end <= chars.len(),
        end - from == digit_run_len(chars@.skip(from as int)),
        all_digits(chars@.subrange(from as int, end as int)),
{
    let mut i: usize = from;
    while i < chars.len() && is_ascii_digit(chars[i])
        invariant
            from <= i <= chars.len(),
            digit_run_len(chars@.skip(from as int)) == (i - from) + digit_run_len(
                chars@.skip(i as int),
            ),
            all_digits(chars@.subrange(from as int, i as int)),
        decreases chars.len() - i,
    {
        assert(chars@.skip(i as int).drop_first() == chars@.skip(i + 1));
        assert(chars@.skip(i as int)[0] == chars@[i as int]);
        assert(all_digits(chars@.subrange(from as int, i + 1))) by {
            let before = chars@.subrange(from as int, i as int);
            let after = chars@.subrange(from as int, i + 1);
            assert forall|k: int| 0 <= k < after.len() implies is_digit(#[trigger] after[k]) by {
                if k < before.len() {
                    assert(after[k] == before[k]);
                }
            }
        }
        i = i + 1;
    }
    proof {
        if i < chars.len() {
            assert(chars@.skip(i as int)[0] == chars@[i as int]);
        }
    }
    i
}

/// Where the parts of a reading stand in `s`: its digits before the point
/// between `start` and `point`, and what follows them from `frac_start` on.
proof fn lemma_decimal_parts(s: Seq<char>, start: int, point: int, frac_start: int)
    requires
        start == sign_len(s),
        start <= point <= s.len(),
        point - start == digit_run_len(s.skip(start)),
        frac_start == if point < s.len() && s[point] == '.' {
            point + 1
        } else {
            point
        },
    ensures
        whole_digits(s) == s.subrange(start, point),
        fraction_digits(s) == s.subrange(frac_start, s.len() as int),
{
    let body = s.skip(start);
    assert(body.take(point - start) == s.subrange(start, point));
    assert(body.skip(point - start) == s.skip(point));
    if point < s.len() {
        assert(s.skip(point)[0] == s[point]);
        assert(s.skip(point).skip(1) == s.skip(point + 1));
    }
    assert(s.skip(frac_start) == s.subrange(frac_start, s.len() as int));
}

/// The reading whose digits before the point have the value `whole` and
/// whose digits after it make `micros` millionths.
fn decimal_from_parts(negative: bool, whole: u64, micros: u64) -> (r: Option<Decimal>)
    requires
        whole <= 9_223_372_036_854,
        micros <= 999_999,
    ensures
        r == if whole * 1_000_000 + micros <= i64::MAX {
            if negative {
                Some(Decimal { micros: (-(whole * 1_000_000 + micros)) as i64 })
            } else {
                Some(Decimal { micros: (whole * 1_000_000 + micros) as i64 })
            }
        } else {
            None
        },
{
    let magnitude: u64 = whole * 1_000_000 + micros;
    if magnitude > 0x7FFF_FFFF_FFFF_FFFF {
        None
    } else if negative {
        Some(Decimal { micros: 0 - (magnitude as i64) })
    } else {
        Some(Decimal { micros: magnitude as i64 })
    }
}

/// Reads a decimal reading such as `99.53` or `-0.5`.
pub fn parse_decimal(text: &str) -> (r: Option<Decimal>)
    ensures
        r == decimal_of(text@),
{
    let chars = chars_of(text);
    let n = chars.len();
    let negative = n > 0 && chars[0] == '-';
    let start: usize = if n > 0 && (chars[0] == '+' || chars[0] == '-') {
        1
    } else {
        0
    };
    let point = digit_run_end(&chars, start);
    let frac_start: usize = if point < n && chars[point] == '.' {
        point + 1
    } else {
        point
    };
    proof {
        lemma_decimal_parts(chars@, start as int, point as int, frac_start as int);
        assert(chars@.skip(frac_start as int) == chars@.subrange(frac_start as int, n as int));
    }
    match digits_in(&chars, frac_start, n, 0) {
        DigitRun::NoNumber => {
            return None;
        },
        _ => {},
    }
    if (point - start) + (n - frac_start) == 0 {
        return None;
    }
    match digits_in(&chars, start, point, 9_223_372_036_854) {
        DigitRun::Value(whole) => decimal_from_parts(
            negative,
            whole,
            fraction_in(&chars, frac_start),
        ),
        _ => None,
    }
}

} // verus!
