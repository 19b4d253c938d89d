//! Plain decimal rendering of wrappers over 64-bit unsigned integers.
//!
//! The plain textual form of a wrapper is the textual form of its bare
//! representation value — the unit marker leaves no trace. Rendering is
//! stated against [`spec_decimal`], the usual decimal notation without
//! leading zeroes, so a wrapper and its unwrapped value always render to the
//! same text.

use crate::amount::Amount;
use crate::id::Id;
use crate::instant::Instant;
use vstd::prelude::*;
use vstd::string::StringExecFns;

verus! {

/// The character for one decimal digit.
pub open spec fn spec_digit(d: int) -> char
    recommends
        0 <= d < 10,
{
    if d == 0 {
        '0'
    } else if d == 1 {
        '1'
    } else if d == 2 {
        '2'
    } else if d == 3 {
        '3'
    } else if d == 4 {
        '4'
    } else if d == 5 {
        '5'
    } else if d == 6 {
        '6'
    } else if d == 7 {
        '7'
    } else if d == 8 {
        '8'
    } else {
        '9'
    }
}

/// The decimal notation of a nonnegative number: no sign, no leading zeroes,
/// a single `'0'` for zero.
pub open spec fn spec_decimal(v: int) -> Seq<char>
    recommends
        v >= 0,
    decreases v,
{
    if v < 10 {
        seq![spec_digit(v)]
    } else {
        spec_decimal(v / 10) + seq![spec_digit(v % 10)]
    }
}

/// The one-character string for one decimal digit.
fn digit_str(d: u64) -> (r: &'static str)
    requires
        d < 10,
    ensures
        r@ == seq![spec_digit(d as int)],
{
    if d == 0 {
        proof {
            reveal_strlit("0");
            assert(("0")@ =~= seq![spec_digit(0)]);
        }
        "0"
    } else if d == 1 {
        proof {
            reveal_strlit("1");
            assert(("1")@ =~= seq![spec_digit(1)]);
        }
        "1"
    } else if d == 2 {
        proof {
            reveal_strlit("2");
            assert(("2")@ =~= seq![spec_digit(2)]);
        }
        "2"
    } else if d == 3 {
        proof {
            reveal_strlit("3");
            assert(("3")@ =~= seq![spec_digit(3)]);
        }
        "3"
    } else if d == 4 {
        proof {
            reveal_strlit("4");
            assert(("4")@ =~= seq![spec_digit(4)]);
        }
        "4"
    } else if d == 5 {
        proof {
            reveal_strlit("5");
            assert(("5")@ =~= seq![spec_digit(5)]);
        }
        "5"
    } else if d == 6 {
        proof {
            reveal_strlit("6");
            assert(("6")@ =~= seq![spec_digit(6)]);
        }
        "6"
    } else if d == 7 {
        proof {
            reveal_strlit("7");
            assert(("7")@ =~= seq![spec_digit(7)]);
        }
        "7"
    } else if d == 8 {
        proof {
            reveal_strlit("8");
            assert(("8")@ =~= seq![spec_digit(8)]);
        }
        "8"
    } else {
        proof {
            reveal_strlit("9");
            assert(("9")@ =~= seq![spec_digit(9)]);
        }
        "9"
    }
}

/// Renders a bare 64-bit unsigned value in decimal notation.
pub fn u64_to_decimal(v: u64) -> (r: String)
    ensures
        r@ == spec_decimal(v as int),
    decreases v,
{
    if v < 10 {
        String::from_str(digit_str(v))
    } else {
        let mut s = u64_to_decimal(v / 10);
        s.append(digit_str(v % 10));
        s
    }
}

impl<const IS_COPY: bool, const HAS_DEFAULT: bool, Unit> Amount<IS_COPY, HAS_DEFAULT, Unit, u64> {
    /// Renders the amount exactly as its bare representation value renders:
    /// plain decimal, with no trace of the unit.
    pub fn to_decimal(&self) -> (r: String)
        ensures
            r@ == spec_decimal(self@ as int),
    {
        u64_to_decimal(self.get())
    }
}

impl<const IS_COPY: bool, const HAS_DEFAULT: bool, Unit> Id<IS_COPY, HAS_DEFAULT, Unit, u64> {
    /// Renders the identifier exactly as its bare representation value
    /// renders: plain decimal, with no trace of the unit.
    pub fn to_decimal(&self) -> (r: String)
        ensures
            r@ == spec_decimal(self@ as int),
    {
        u64_to_decimal(self.get())
    }
}

impl<const IS_COPY: bool, const HAS_DEFAULT: bool, Unit> Instant<IS_COPY, HAS_DEFAULT, Unit, u64> {
    /// Renders the instant exactly as its bare representation value renders:
    /// plain decimal, with no trace of the unit.
    pub fn to_decimal(&self) -> (r: String)
        ensures
            r@ == spec_decimal(self@ as int),
    {
        u64_to_decimal(self.get())
    }
}

} // verus!
