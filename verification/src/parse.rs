//! Parsing of decimal protocol values.
//!
//! Response values arrive as text: unsigned integers (`volume: 80`),
//! zero/one flags (`repeat: 1`), and fractional seconds (`elapsed:
//! 123.456`).  A value that does not parse never panics; it simply yields
//! nothing.

use vstd::prelude::*;
use vstd::string::StrSliceExecFns;
use crate::convert::TimePos;

verus! {

/// True for the ten decimal digit characters.
pub open spec fn is_dec_digit(c: char) -> bool {
    '0' <= c && c <= '9'
}

/// The numeric value of a decimal digit character.
pub open spec fn digit_val(c: char) -> nat {
    ((c as u32) - ('0' as u32)) as nat
}

/// True when every character of `s` is a decimal digit.
pub open spec fn all_dec_digits(s: Seq<char>) -> bool {
    forall|i: int| 0 <= i < s.len() ==> is_dec_digit(s[i])
}

/// The numeric value of a digit string, most significant digit first.
pub open spec fn dec_value(s: Seq<char>) -> nat
    decreases s.len(),
{
    if s.len() == 0 {
        0
    } else {
        dec_value(s.drop_last()) * 10 + digit_val(s.last())
    }
}

/// What parsing an unsigned decimal yields: a value exactly when the text
/// is one or more digits and the value fits.
pub open spec fn spec_parse_u64(s: Seq<char>) -> Option<u64> {
    if s.len() > 0 && all_dec_digits(s) && dec_value(s) <= u64::MAX {
        Some(dec_value(s) as u64)
    } else {
        None
    }
}

/// A longer digit string never has a smaller value.
proof fn lemma_dec_value_mono(s: Seq<char>, i: int)
    requires
        0 <= i <= s.len(),
    ensures
        dec_value(s.subrange(0, i)) <= dec_value(s),
    decreases s.len() - i,
{
    if i == s.len() {
        assert(s.subrange(0, i) =~= s);
    } else {
        let a = s.subrange(0, i);
        let b = s.subrange(0, i + 1);
        assert(b.drop_last() =~= a);
        assert(dec_value(b) == dec_value(a) * 10 + digit_val(b.last()));
        lemma_dec_value_mono(s, i + 1);
    }
}

/// Parses an unsigned decimal integer.
pub fn parse_u64(s: &str) -> (r: Option<u64>)
    ensures
        r == spec_parse_u64(s@),
{
    let n = s.unicode_len();
    if n == 0 {
        return None;
    }
    let mut acc: u64 = 0;
    let mut i: usize = 0;
    while i < n
        invariant
            0 <= i <= n,
            n == s@.len(),
            all_dec_digits(s@.subrange(0, i as int)),
            acc == dec_value(s@.subrange(0, i as int)),
        decreases n - i,
    {
        let c = s.get_char(i);
        if !(c >= '0' && c <= '9') {
            assert(!is_dec_digit(s@[i as int]));
            return None;
        }
        let d = (c as u32 - '0' as u32) as u64;
        assert(d == digit_val(s@[i as int]) && d <= 9);
        if acc > (u64::MAX - d) / 10 {
            proof {
                let b = s@.subrange(0, i as int + 1);
                assert(b.drop_last() =~= s@.subrange(0, i as int));
                assert(dec_value(b) == acc * 10 + d);
                assert(acc * 10 + d > u64::MAX);
                lemma_dec_value_mono(s@, i as int + 1);
            }
            return None;
        }
        proof {
            let b = s@.subrange(0, i as int + 1);
            assert(b.drop_last() =~= s@.subrange(0, i as int));
            assert(dec_value(b) == acc * 10 + d);
        }
        acc = acc * 10 + d;
        i += 1;
    }
    assert(s@.subrange(0, n as int) =~= s@);
    Some(acc)
}

/// What parsing a zero/one toggle yields: the flag is set exactly when the
/// value is 1 (any other number clears it, as the protocol never sends
/// one); non-numeric text yields nothing.
pub open spec fn spec_parse_flag(s: Seq<char>) -> Option<bool> {
    match spec_parse_u64(s) {
        Some(v) => Some(v == 1),
        None => None,
    }
}

/// Parses a zero/one toggle value.
pub fn parse_flag(s: &str) -> (r: Option<bool>)
    ensures
        r == spec_parse_flag(s@),
{
    match parse_u64(s) {
        Some(v) => Some(v == 1),
        None => None,
    }
}

/// True when `i` is the position of the only dot in `s`.
pub open spec fn dot_at(s: Seq<char>, i: int) -> bool {
    &&& 0 <= i < s.len()
    &&& s[i] == '.'
    &&& forall|j: int| 0 <= j < s.len() && j != i ==> s[j] != '.'
}

/// The factor that scales a fraction of the given digit count to
/// milliseconds.
pub open spec fn frac_scale(len: nat) -> nat {
    if len == 1 {
        100
    } else if len == 2 {
        10
    } else {
        1
    }
}

/// What parsing a seconds value to milliseconds yields.  The text is
/// either a plain digit string (whole seconds) or digits, one dot, and one
/// to three fraction digits, as the protocol renders elapsed times and
/// durations; anything else, or a value that cannot fit, yields nothing.
pub open spec fn spec_parse_millis(s: Seq<char>) -> Option<TimePos> {
    if exists|i: int| dot_at(s, i) {
        let i = choose|i: int| dot_at(s, i);
        let whole = s.subrange(0, i);
        let frac = s.subrange(i + 1, s.len() as int);
        if whole.len() > 0 && all_dec_digits(whole) && 1 <= frac.len() <= 3 && all_dec_digits(frac)
            && dec_value(whole) * 1000 + dec_value(frac) * frac_scale(frac.len()) <= u64::MAX {
            Some(
                TimePos {
                    millis: (dec_value(whole) * 1000 + dec_value(frac) * frac_scale(frac.len()))
                        as u64,
                },
            )
        } else {
            None
        }
    } else {
        match spec_parse_u64(s) {
            Some(v) => if v <= u64::MAX as nat / 1000 {
                Some(TimePos { millis: (v * 1000) as u64 })
            } else {
                None
            },
            None => None,
        }
    }
}

/// The dot position is unique when one exists.
proof fn lemma_dot_at_unique(s: Seq<char>, i: int, j: int)
    requires
        dot_at(s, i),
        dot_at(s, j),
    ensures
        i == j,
{
}

/// Parses a decimal seconds value (with an optional fraction of up to
/// three digits) to milliseconds.
pub fn parse_millis(s: &str) -> (r: Option<TimePos>)
    ensures
        r == spec_parse_millis(s@),
{
    let n = s.unicode_len();
    let mut i: usize = 0;
    let mut dot: Option<usize> = None;
    while i < n
        invariant
            0 <= i <= n,
            n == s@.len(),
            dot is None ==> forall|j: int| 0 <= j < i ==> s@[j] != '.',
            dot matches Some(d) ==> 0 <= d < i && s@[d as int] == '.' && forall|j: int|
                0 <= j < i && j != d ==> s@[j] != '.',
        decreases n - i,
    {
        if s.get_char(i) == '.' {
            if dot.is_some() {
                proof {
                    assert(forall|k: int| dot_at(s@, k) ==> false);
                }
                return None;
            }
            dot = Some(i);
        }
        i += 1;
    }
    match dot {
        None => {
            assert(forall|k: int| !dot_at(s@, k));
            match parse_u64(s) {
                Some(v) => {
                    if v <= u64::MAX / 1000 {
                        Some(TimePos { millis: v * 1000 })
                    } else {
                        None
                    }
                },
                None => None,
            }
        },
        Some(d) => {
            assert(dot_at(s@, d as int));
            proof {
                let k = choose|k: int| dot_at(s@, k);
                lemma_dot_at_unique(s@, k, d as int);
            }
            let whole = s.substring_char(0, d);
            let frac = s.substring_char(d + 1, n);
            let wl = whole.unicode_len();
            let fl = frac.unicode_len();
            if wl == 0 || fl == 0 || fl > 3 {
                return None;
            }
            let w = match parse_u64(whole) {
                Some(v) => v,
                None => {
                    return None;
                },
            };
            let f = match parse_u64(frac) {
                Some(v) => v,
                None => {
                    return None;
                },
            };
            let scale: u64 = if fl == 1 {
                100
            } else if fl == 2 {
                10
            } else {
                1
            };
            proof {
                lemma_frac_bound(frac@);
            }
            if w > (u64::MAX - f * scale) / 1000 {
                proof {
                    assert(w * 1000 + f * scale > u64::MAX);
                }
                return None;
            }
            Some(TimePos { millis: w * 1000 + f * scale })
        },
    }
}

/// A fraction of at most three digits scaled to milliseconds stays below
/// one thousand.
proof fn lemma_frac_bound(frac: Seq<char>)
    requires
        1 <= frac.len() <= 3,
        all_dec_digits(frac),
    ensures
        dec_value(frac) * frac_scale(frac.len()) < 1000,
{
    reveal_with_fuel(dec_value, 4);
    if frac.len() == 1 {
        assert(frac.drop_last().len() == 0);
        assert(dec_value(frac) == digit_val(frac[0]));
        assert(digit_val(frac[0]) <= 9);
        assert(frac_scale(frac.len()) == 100);
        assert(dec_value(frac) * 100 < 1000);
    } else if frac.len() == 2 {
        let a = frac.drop_last();
        assert(a.drop_last().len() == 0);
        assert(dec_value(a) == digit_val(a[0]) && a[0] == frac[0]);
        assert(digit_val(frac[0]) <= 9 && digit_val(frac[1]) <= 9);
        assert(dec_value(frac) == dec_value(a) * 10 + digit_val(frac[1]));
        assert(frac_scale(frac.len()) == 10);
        assert(dec_value(frac) * 10 < 1000);
    } else {
        let a = frac.drop_last();
        let b = a.drop_last();
        assert(b.drop_last().len() == 0);
        assert(dec_value(b) == digit_val(b[0]) && b[0] == frac[0]);
        assert(a[0] == frac[0] && a[1] == frac[1] && b[0] == a[0]);
        assert(digit_val(frac[0]) <= 9 && digit_val(frac[1]) <= 9 && digit_val(frac[2]) <= 9);
        assert(dec_value(a) == dec_value(b) * 10 + digit_val(a[1]));
        assert(dec_value(frac) == dec_value(a) * 10 + digit_val(frac[2]));
        assert(frac_scale(frac.len()) == 1);
        assert(dec_value(frac) * 1 < 1000);
    }
}

} // verus!
