//! Fixed-point numbers for measurements.
//!
//! Percentages and load figures are kept as a whole number of thousandths,
//! so that thresholds are compared exactly.

use vstd::prelude::*;
use crate::text::{
    all_digits, append, chars_of, decimal_text, decimal_value, digit_char, digit_value, find_from,
    is_digit, lemma_find_from_bounds, parse_digits, scan_for, unsigned_text,
};

verus! {

/// The largest whole part that a [`Decimal`] is read with.
pub const MAX_WHOLE: u64 = 9_000_000_000_000_000;

/// A number with three decimal places.
#[derive(Clone, Copy, Debug, PartialEq, Eq, Structural)]
pub struct Decimal {
    /// The number, multiplied by one thousand.
    pub thousandths: i64,
}

/// The digit at `at`, or zero behind the end.
pub open spec fn digit_or_zero(digits: Seq<char>, at: int) -> nat {
    if 0 <= at < digits.len() {
        digit_value(digits[at])
    } else {
        0
    }
}

/// What the first three decimal places are worth in thousandths.
pub open spec fn fraction_thousandths(digits: Seq<char>) -> nat {
    digit_or_zero(digits, 0) * 100 + digit_or_zero(digits, 1) * 10 + digit_or_zero(digits, 2)
}

/// `s` without one leading sign.
pub open spec fn unsigned_part(s: Seq<char>) -> Seq<char> {
    if s.len() > 0 && (s[0] == '-' || s[0] == '+') {
        s.drop_first()
    } else {
        s
    }
}

/// The digits before the decimal point of an unsigned text.
pub open spec fn whole_digits(body: Seq<char>) -> Seq<char> {
    body.subrange(0, find_from(body, '.', 0))
}

/// The digits behind the decimal point of an unsigned text.
pub open spec fn fraction_digits(body: Seq<char>) -> Seq<char> {
    let dot = find_from(body, '.', 0);
    if dot < body.len() {
        body.subrange(dot + 1, body.len() as int)
    } else {
        Seq::empty()
    }
}

/// What `s` denotes in thousandths: an optional sign, at least one digit,
/// and optionally a point with further digits, of which three count.
/// Exponents and a whole part over [`MAX_WHOLE`] are not read.
pub open spec fn parsed_decimal(s: Seq<char>) -> Option<int> {
    let body = unsigned_part(s);
    let whole = whole_digits(body);
    let fraction = fraction_digits(body);
    if whole.len() > 0 && all_digits(whole) && all_digits(fraction) && decimal_value(whole)
        <= MAX_WHOLE {
        let magnitude = decimal_value(whole) * 1000 + fraction_thousandths(fraction);
        if s[0] == '-' {
            Some(-magnitude)
        } else {
            Some(magnitude as int)
        }
    } else {
        None
    }
}

/// A count of hundredths rounded to tenths, a tie going to the even side.
pub open spec fn rounded_tenths(thousandths: nat) -> nat {
    let q = thousandths / 100;
    let r = thousandths % 100;
    if r > 50 || (r == 50 && q % 2 == 1) {
        q + 1
    } else {
        q
    }
}

/// The size of `t` without its sign.
pub open spec fn magnitude(t: int) -> nat {
    if t < 0 {
        (-t) as nat
    } else {
        t as nat
    }
}

/// `t` thousandths written with one decimal place.
pub open spec fn tenths_text(t: int) -> Seq<char> {
    let q = rounded_tenths(magnitude(t));
    let digits = decimal_text(q / 10) + seq!['.', digit_char(q % 10)];
    if t < 0 {
        seq!['-'] + digits
    } else {
        digits
    }
}

/// The decimal places of `m` thousandths, without zeros at the end but
/// with one place at least.
pub open spec fn places_text(m: nat) -> Seq<char> {
    let f = m % 1000;
    if f % 100 == 0 {
        seq![digit_char(f / 100)]
    } else if f % 10 == 0 {
        seq![digit_char(f / 100), digit_char((f / 10) % 10)]
    } else {
        seq![digit_char(f / 100), digit_char((f / 10) % 10), digit_char(f % 10)]
    }
}

/// `t` thousandths written in full: the whole part, a point, and the
/// decimal places that are needed, one at least.
pub open spec fn plain_text(t: int) -> Seq<char> {
    let m = magnitude(t);
    let digits = decimal_text(m / 1000) + seq!['.'] + places_text(m);
    if t < 0 {
        seq!['-'] + digits
    } else {
        digits
    }
}

/// Whether `chars[from..to]` holds nothing but digits.
fn only_digits(chars: &Vec<char>, from: usize, to: usize) -> (r: bool)
    requires
        from <= to <= chars@.len(),
    ensures
        r == all_digits(chars@.subrange(from as int, to as int)),
{
    let ghost part = chars@.subrange(from as int, to as int);
    let mut i: usize = from;
    while i < to
        invariant
            from <= i <= to <= chars@.len(),
            part == chars@.subrange(from as int, to as int),
            forall|k: int| 0 <= k < i - from ==> is_digit(#[trigger] part[k]),
        decreases to - i,
    {
        let c = chars[i];
        if c < '0' || c > '9' {
            assert(!is_digit(part[i - from]));
            return false;
        }
        i += 1;
    }
    true
}

/// The value of the digit at `at`, or zero behind `to`.
fn digit_at(chars: &Vec<char>, at: usize, to: usize) -> (d: u64)
    requires
        to <= chars@.len(),
        at < to ==> is_digit(chars@[at as int]),
    ensures
        d <= 9,
        d == if at < to {
            digit_value(chars@[at as int])
        } else {
            0
        },
{
    if at < to {
        (chars[at] as u32 - '0' as u32) as u64
    } else {
        0
    }
}

impl Decimal {
    /// The whole number `n`.
    pub fn from_whole(n: u32) -> (d: Decimal)
        ensures
            d.thousandths == n * 1000,
    {
        Decimal { thousandths: (n as i64) * 1000 }
    }

    /// Whether the number is greater than the whole number `n`.
    pub fn exceeds(&self, n: u32) -> (r: bool)
        ensures
            r == (self.thousandths > n * 1000),
    {
        self.thousandths > (n as i64) * 1000
    }

    /// Reads a decimal number.
    pub fn parse(s: &str) -> (r: Option<Decimal>)
        ensures
            r is Some <==> parsed_decimal(s@) is Some,
            r matches Some(d) ==> parsed_decimal(s@) == Some(d.thousandths as int),
    {
        let chars = chars_of(s);
        let n = chars.len();
        let negative = n > 0 && chars[0] == '-';
        let start: usize = if n > 0 && (chars[0] == '-' || chars[0] == '+') {
            1
        } else {
            0
        };
        let ghost body = unsigned_part(chars@);
        assert(body =~= chars@.subrange(start as int, n as int));
        let dot = scan_for(&chars, '.', start);
        proof {
            lemma_find_same_in_tail(chars@, '.', start as int, start as int);
            lemma_find_from_bounds(body, '.', 0);
            assert(find_from(body, '.', 0) == dot - start);
            assert(whole_digits(body) =~= chars@.subrange(start as int, dot as int));
        }
        let frac_start: usize = if dot < n {
            dot + 1
        } else {
            n
        };
        assert(fraction_digits(body) =~= chars@.subrange(frac_start as int, n as int));
        let ghost fraction = fraction_digits(body);
        if !only_digits(&chars, frac_start, n) {
            return None;
        }
        match parse_digits(&chars, start, dot, MAX_WHOLE) {
            None => None,
            Some(whole) => {
                proof {
                    if frac_start < n {
                        assert(fraction[0] == chars@[frac_start as int]);
                    }
                    if frac_start + 1 < n {
                        assert(fraction[1] == chars@[frac_start + 1]);
                    }
                    if frac_start + 2 < n {
                        assert(fraction[2] == chars@[frac_start + 2]);
                    }
                }
                let places = n - frac_start;
                let d0 = digit_at(&chars, frac_start, n);
                let d1 = if places >= 2 {
                    digit_at(&chars, frac_start + 1, n)
                } else {
                    0
                };
                let d2 = if places >= 3 {
                    digit_at(&chars, frac_start + 2, n)
                } else {
                    0
                };
                let magnitude: u64 = whole * 1000 + d0 * 100 + d1 * 10 + d2;
                assert(magnitude == decimal_value(whole_digits(body)) * 1000
                    + fraction_thousandths(fraction));
                if negative {
                    Some(Decimal { thousandths: -(magnitude as i64) })
                } else {
                    Some(Decimal { thousandths: magnitude as i64 })
                }
            },
        }
    }

    /// The number written in full, with the decimal places that are needed.
    pub fn to_plain_text(&self) -> (out: String)
        ensures
            out@ == plain_text(self.thousandths as int),
    {
        let t = self.thousandths;
        let size: u64 = if t < 0 {
            ((-(t + 1)) as u64) + 1
        } else {
            t as u64
        };
        let f = size % 1000;
        let mut places: Vec<char> = Vec::new();
        places.push(crate::text::digit_to_char(f / 100));
        if f % 100 != 0 {
            places.push(crate::text::digit_to_char((f / 10) % 10));
            if f % 10 != 0 {
                places.push(crate::text::digit_to_char(f % 10));
            }
        }
        assert(places@ =~= places_text(size as nat));
        let mut out = String::new();
        if t < 0 {
            append(&mut out, "-");
        }
        let whole = unsigned_text(size / 1000);
        append(&mut out, whole.as_str());
        append(&mut out, ".");
        let tail = crate::text::text_of_all(&places);
        append(&mut out, tail.as_str());
        proof {
            reveal_strlit("-");
            reveal_strlit(".");
            assert("-"@ =~= seq!['-']);
            assert("."@ =~= seq!['.']);
            let digits = decimal_text((size / 1000) as nat) + seq!['.'] + places_text(size as nat);
            if t < 0 {
                assert(out@ =~= seq!['-'] + digits);
            } else {
                assert(out@ =~= digits);
            }
        }
        out
    }

    /// The number with one decimal place, rounded to the nearest tenth; a
    /// tie goes to the even tenth.
    pub fn to_tenths_text(&self) -> (out: String)
        ensures
            out@ == tenths_text(self.thousandths as int),
    {
        let t = self.thousandths;
        let size: u64 = if t < 0 {
            ((-(t + 1)) as u64) + 1
        } else {
            t as u64
        };
        let q = size / 100;
        let r = size % 100;
        let tenths: u64 = if r > 50 || (r == 50 && q % 2 == 1) {
            q + 1
        } else {
            q
        };
        let mut out = String::new();
        if t < 0 {
            append(&mut out, "-");
        }
        let whole = unsigned_text(tenths / 10);
        append(&mut out, whole.as_str());
        append(&mut out, ".");
        let last = unsigned_text(tenths % 10);
        append(&mut out, last.as_str());
        proof {
            reveal_strlit("-");
            reveal_strlit(".");
            assert("-"@ =~= seq!['-']);
            assert("."@ =~= seq!['.']);
            assert(decimal_text((tenths % 10) as nat) =~= seq![digit_char((tenths % 10) as nat)]);
            let digits = decimal_text((tenths / 10) as nat) + seq![
                '.',
                digit_char((tenths % 10) as nat),
            ];
            if t < 0 {
                assert(out@ =~= seq!['-'] + digits);
            } else {
                assert(out@ =~= digits);
            }
        }
        out
    }
}

/// A search that starts at `from` in `s` finds what the same search finds
/// in the part of `s` from `base` on, moved by `base`.
pub proof fn lemma_find_same_in_tail(s: Seq<char>, c: char, base: int, from: int)
    requires
        0 <= base <= from <= s.len(),
    ensures
        find_from(s, c, from) == base + find_from(s.subrange(base, s.len() as int), c, from - base),
    decreases s.len() - from,
{
    let tail = s.subrange(base, s.len() as int);
    if from < s.len() {
        assert(tail[from - base] == s[from]);
        if s[from] != c {
            lemma_find_same_in_tail(s, c, base, from + 1);
        }
    }
}

} // verus!
