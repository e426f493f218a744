//! Serialization of typed command arguments into protocol text.
//!
//! Arguments are rendered space-separated: integers in decimal, booleans as
//! the literal characters `1` / `0`, strings verbatim.

use vstd::prelude::*;
use vstd::string::{StringExecFns, StringSliceAdditionalSpecFns};

verus! {

/// The character for a single decimal digit value.
pub open spec fn digit_char(d: nat) -> char {
    if d == 0 {
        '0'
    } else if d == 1 {
        '1'
    } else if d == 2 {
        '2'
    } else if d == 3 {
        '3'
    } else if d == 4 {
        '4'
    } else if d == 5 {
        '5'
    } else if d == 6 {
        '6'
    } else if d == 7 {
        '7'
    } else if d == 8 {
        '8'
    } else {
        '9'
    }
}

/// The decimal rendering of a natural number, most significant digit first,
/// with no leading zeroes (`0` itself renders as "0").
pub open spec fn dec_digits(n: nat) -> Seq<char>
    decreases n,
{
    if n < 10 {
        seq![digit_char(n)]
    } else {
        dec_digits(n / 10) + seq![digit_char(n % 10)]
    }
}

/// A one-character string slice for a single decimal digit value.
fn digit_str(d: u64) -> (r: &'static str)
    requires
        d < 10,
    ensures
        r@ =~= seq![digit_char(d as nat)],
{
    if d == 0 {
        proof {
            reveal_strlit("0");
        }
        "0"
    } else if d == 1 {
        proof {
            reveal_strlit("1");
        }
        "1"
    } else if d == 2 {
        proof {
            reveal_strlit("2");
        }
        "2"
    } else if d == 3 {
        proof {
            reveal_strlit("3");
        }
        "3"
    } else if d == 4 {
        proof {
            reveal_strlit("4");
        }
        "4"
    } else if d == 5 {
        proof {
            reveal_strlit("5");
        }
        "5"
    } else if d == 6 {
        proof {
            reveal_strlit("6");
        }
        "6"
    } else if d == 7 {
        proof {
            reveal_strlit("7");
        }
        "7"
    } else if d == 8 {
        proof {
            reveal_strlit("8");
        }
        "8"
    } else {
        proof {
            reveal_strlit("9");
        }
        "9"
    }
}

/// The decimal text of `n`.
pub fn u64_to_string(n: u64) -> (s: String)
    ensures
        s@ == dec_digits(n as nat),
    decreases n,
{
    if n < 10 {
        let s = digit_str(n).to_owned();
        assert(s@ =~= dec_digits(n as nat));
        s
    } else {
        let hi = u64_to_string(n / 10);
        let s = hi.concat(digit_str(n % 10));
        assert(s@ =~= dec_digits(n as nat));
        s
    }
}

/// Character-wise string equality, decided on the UTF-8 bytes (two
/// strings are equal exactly when their encodings are).
pub fn str_eq(a: &str, b: &str) -> (r: bool)
    ensures
        r == (a@ == b@),
{
    let ab = a.as_bytes();
    let bb = b.as_bytes();
    if ab.len() != bb.len() {
        proof {
            if a@ == b@ {
                assert(a.spec_bytes() == b.spec_bytes());
            }
        }
        return false;
    }
    let n = ab.len();
    let mut i: usize = 0;
    while i < n
        invariant
            0 <= i <= n,
            n == ab@.len() == bb@.len(),
            ab@ == a.spec_bytes(),
            bb@ == b.spec_bytes(),
            forall|j: int| 0 <= j < i ==> ab@[j] == bb@[j],
        decreases n - i,
    {
        if ab[i] != bb[i] {
            proof {
                if a@ == b@ {
                    assert(a.spec_bytes() == b.spec_bytes());
                }
            }
            return false;
        }
        i += 1;
    }
    proof {
        assert(a.spec_bytes() =~= b.spec_bytes());
        vstd::utf8::encode_utf8_decode_utf8(a@);
        vstd::utf8::encode_utf8_decode_utf8(b@);
    }
    true
}

/// Three-digit, zero-padded rendering of a value below 1000.
pub open spec fn frac3_digits(n: nat) -> Seq<char> {
    seq![digit_char(n / 100 % 10), digit_char(n / 10 % 10), digit_char(n % 10)]
}

/// The decimal text of a time position given in milliseconds: the whole
/// seconds, a dot, and exactly three fractional digits.
pub open spec fn time_digits(ms: nat) -> Seq<char> {
    dec_digits(ms / 1000) + seq!['.'] + frac3_digits(ms % 1000)
}

/// A position within a song, in milliseconds.  The protocol speaks of
/// fractional seconds in decimal text; this type holds the same quantity
/// as a plain integer.
#[derive(Clone, Copy, Debug, PartialEq, Eq, Structural)]
pub struct TimePos {
    pub millis: u64,
}

/// The decimal seconds text of a time position.
pub fn millis_to_string(ms: u64) -> (s: String)
    ensures
        s@ == time_digits(ms as nat),
{
    let secs = ms / 1000;
    let frac = ms % 1000;
    let s = u64_to_string(secs).concat(".").concat(digit_str(frac / 100)).concat(
        digit_str(frac / 10 % 10),
    ).concat(digit_str(frac % 10));
    proof {
        reveal_strlit(".");
        assert(s@ =~= time_digits(ms as nat));
    }
    s
}

/// A value that can be rendered as (part of) a command line.
pub trait IntoParameter: Sized {
    /// The protocol text this value renders to.
    spec fn spec_parameter(self) -> Seq<char>;

    /// Renders the value to its protocol text.
    fn into_parameter(self) -> (s: String)
        ensures
            s@ == self.spec_parameter(),
    ;
}

impl IntoParameter for &'static str {
    open spec fn spec_parameter(self) -> Seq<char> {
        self@
    }

    fn into_parameter(self) -> (s: String)
        ensures
            s@ == self.spec_parameter(),
    {
        self.to_owned()
    }
}

impl IntoParameter for u64 {
    open spec fn spec_parameter(self) -> Seq<char> {
        dec_digits(self as nat)
    }

    fn into_parameter(self) -> (s: String)
        ensures
            s@ == self.spec_parameter(),
    {
        u64_to_string(self)
    }
}

impl IntoParameter for bool {
    open spec fn spec_parameter(self) -> Seq<char> {
        if self {
            seq!['1']
        } else {
            seq!['0']
        }
    }

    fn into_parameter(self) -> (s: String)
        ensures
            s@ == self.spec_parameter(),
    {
        let s = if self {
            "1"
        } else {
            "0"
        };
        proof {
            reveal_strlit("1");
            reveal_strlit("0");
            assert(s@ =~= self.spec_parameter());
        }
        s.to_owned()
    }
}

impl IntoParameter for TimePos {
    open spec fn spec_parameter(self) -> Seq<char> {
        time_digits(self.millis as nat)
    }

    fn into_parameter(self) -> (s: String)
        ensures
            s@ == self.spec_parameter(),
    {
        millis_to_string(self.millis)
    }
}

impl<A: IntoParameter, B: IntoParameter> IntoParameter for (A, B) {
    open spec fn spec_parameter(self) -> Seq<char> {
        self.0.spec_parameter() + seq![' '] + self.1.spec_parameter()
    }

    fn into_parameter(self) -> (s: String)
        ensures
            s@ == self.spec_parameter(),
    {
        let (a, b) = self;
        let ghost gself = (a, b);
        let first = a.into_parameter();
        let second = b.into_parameter();
        let s = first.concat(" ").concat(second.as_str());
        proof {
            reveal_strlit(" ");
            assert(s@ =~= gself.spec_parameter());
        }
        s
    }
}

impl<A: IntoParameter, B: IntoParameter, C: IntoParameter> IntoParameter for (A, B, C) {
    open spec fn spec_parameter(self) -> Seq<char> {
        self.0.spec_parameter() + seq![' '] + self.1.spec_parameter() + seq![' ']
            + self.2.spec_parameter()
    }

    fn into_parameter(self) -> (s: String)
        ensures
            s@ == self.spec_parameter(),
    {
        let (a, b, c) = self;
        let ghost gself = (a, b, c);
        let first = a.into_parameter();
        let second = b.into_parameter();
        let third = c.into_parameter();
        let s = first.concat(" ").concat(second.as_str()).concat(" ").concat(third.as_str());
        proof {
            reveal_strlit(" ");
            assert(s@ =~= gself.spec_parameter());
        }
        s
    }
}

} // verus!
