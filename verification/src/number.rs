//! Numbers by their bit patterns, and readings taken from a page.

use vstd::arithmetic::power2::*;
use vstd::prelude::*;

verus! {

/// A number, held as the bit pattern of an IEEE 754 double.
#[derive(Debug, Clone, Copy, PartialEq, Eq, Structural)]
pub struct Number {
    pub bits: u64,
}

/// The bit pattern of positive infinity; a magnitude above it is not a number.
pub const INFINITY_BITS: u64 = 0x7ff0_0000_0000_0000;

/// The bit that holds the sign.
pub const SIGN_BIT: u64 = 0x8000_0000_0000_0000;

/// The bit pattern of the distance between one and the next larger double, two to the power of
/// minus 52.
pub const EPSILON_BITS: u64 = 0x3cb0_0000_0000_0000;

impl Number {
    /// The bit pattern without the sign.
    pub open spec fn magnitude(self) -> int {
        if self.bits < SIGN_BIT {
            self.bits as int
        } else {
            self.bits - SIGN_BIT
        }
    }

    /// The pattern stands for no number.
    pub open spec fn not_a_number(self) -> bool {
        self.magnitude() > INFINITY_BITS
    }

    /// The integer by which numbers are ordered: the magnitude, with the sign. Both zeros have 0.
    pub open spec fn rank(self) -> int {
        if self.bits < SIGN_BIT {
            self.magnitude()
        } else {
            -self.magnitude()
        }
    }

    /// This number is below the other.
    pub open spec fn below(self, other: Number) -> bool {
        !self.not_a_number() && !other.not_a_number() && self.rank() < other.rank()
    }

    /// This number is at most the other.
    pub open spec fn at_most(self, other: Number) -> bool {
        !self.not_a_number() && !other.not_a_number() && self.rank() <= other.rank()
    }

    /// The two numbers have the same value.
    pub open spec fn same(self, other: Number) -> bool {
        self.at_most(other) && other.at_most(self)
    }

    /// One of the two numbers is below the other.
    pub open spec fn differs(self, other: Number) -> bool {
        self.below(other) || other.below(self)
    }

    fn is_nan(self) -> (b: bool)
        ensures
            b == self.not_a_number(),
    {
        if self.bits < SIGN_BIT {
            self.bits > INFINITY_BITS
        } else {
            self.bits - SIGN_BIT > INFINITY_BITS
        }
    }

    fn signed_rank(self) -> (r: i64)
        ensures
            r == self.rank(),
    {
        if self.bits < SIGN_BIT {
            self.bits as i64
        } else {
            -((self.bits - SIGN_BIT) as i64)
        }
    }

    /// Whether this number is less than the other.
    pub fn lt(self, other: Number) -> (b: bool)
        ensures
            b == self.below(other),
    {
        !self.is_nan() && !other.is_nan() && self.signed_rank() < other.signed_rank()
    }

    /// Whether this number is less than the other or equal to it.
    pub fn le(self, other: Number) -> (b: bool)
        ensures
            b == self.at_most(other),
    {
        !self.is_nan() && !other.is_nan() && self.signed_rank() <= other.signed_rank()
    }

    /// The value of a finite number, in units of the smallest positive double: with the exponent
    /// field `e` and the fraction field `f`, that is `f` where `e` is 0, else
    /// `(2^52 + f) * 2^(e - 1)`.
    pub open spec fn units(self) -> int {
        if self.bits < SIGN_BIT {
            magnitude_units(self.magnitude())
        } else {
            -magnitude_units(self.magnitude())
        }
    }

    /// The pattern stands for a finite number.
    pub open spec fn finite(self) -> bool {
        self.magnitude() < INFINITY_BITS
    }
}

/// The value of a finite magnitude, in units of the smallest positive double.
pub open spec fn magnitude_units(m: int) -> int {
    let e = m / 0x10_0000_0000_0000;
    let f = m % 0x10_0000_0000_0000;
    if e == 0 {
        f
    } else {
        (0x10_0000_0000_0000 + f) * pow2((e - 1) as nat)
    }
}

/// A larger magnitude is a larger value.
proof fn lemma_units_grow(m: int, n: int)
    requires
        0 <= m < n,
    ensures
        magnitude_units(m) < magnitude_units(n),
        0 <= magnitude_units(m),
{
    let one = 0x10_0000_0000_0000int;
    let em = m / one;
    let frac_m = m % one;
    let en = n / one;
    let frac_n = n % one;
    lemma_pow2(0);
    lemma2_to64();
    if em == en {
        if em > 0 {
            let p = pow2((em - 1) as nat) as int;
            lemma_pow2_pos((em - 1) as nat);
            assert((one + frac_m) * p < (one + frac_n) * p) by (nonlinear_arith)
                requires
                    frac_m < frac_n,
                    p > 0,
            ;
            assert(0 <= (one + frac_m) * p) by (nonlinear_arith)
                requires
                    0 <= frac_m,
                    one > 0,
                    p > 0,
            ;
        }
    } else {
        assert(em < en);
        let pn = pow2((en - 1) as nat) as int;
        lemma_pow2_pos((en - 1) as nat);
        assert((one + frac_n) * pn >= one * pn) by (nonlinear_arith)
            requires
                frac_n >= 0,
                pn > 0,
        ;
        if em == 0 {
            assert(one * pn >= one) by (nonlinear_arith)
                requires
                    pn >= 1,
                    one > 0,
            ;
        } else {
            let pm = pow2((em - 1) as nat) as int;
            lemma_pow2_pos((em - 1) as nat);
            lemma_pow2_unfold(em as nat);
            assert(pow2(em as nat) == 2 * pm);
            if em < en - 1 {
                lemma_pow2_strictly_increases(em as nat, (en - 1) as nat);
            }
            assert(2 * pm <= pn);
            assert((one + frac_m) * pm < one * pn) by (nonlinear_arith)
                requires
                    0 <= frac_m < one,
                    2 * pm <= pn,
                    pm > 0,
                    one > 0,
            ;
            assert(0 <= (one + frac_m) * pm) by (nonlinear_arith)
                requires
                    0 <= frac_m,
                    one > 0,
                    pm > 0,
            ;
        }
    }
}

/// On finite numbers, `below` is the order of the values, and two numbers of one rank have one
/// value.
pub proof fn law_rank_is_numeric_order(a: Number, b: Number)
    requires
        a.finite(),
        b.finite(),
    ensures
        a.below(b) <==> a.units() < b.units(),
        a.at_most(b) <==> a.units() <= b.units(),
{
    let m = a.magnitude();
    let n = b.magnitude();
    assert(magnitude_units(0) == 0);
    if m > 0 {
        lemma_units_grow(0, m);
    }
    if n > 0 {
        lemma_units_grow(0, n);
    }
    if m < n {
        lemma_units_grow(m, n);
    }
    if n < m {
        lemma_units_grow(n, m);
    }
}

/// The bit pattern 0 stands for zero, and the one of the epsilon for two to the power of minus 52:
/// that is 2^1022 units, a unit being 2^-1074.
pub proof fn law_constants()
    ensures
        (Number { bits: 0 }).units() == 0,
        (Number { bits: EPSILON_BITS }).units() == pow2(1022),
        (Number { bits: EPSILON_BITS }).finite(),
{
    lemma2_to64_rest();
    lemma_pow2_adds(52, 970);
    assert(EPSILON_BITS as int / 0x10_0000_0000_0000 == 971);
    assert(EPSILON_BITS as int % 0x10_0000_0000_0000 == 0);
}

/// A number taken from a page or from a configuration, with the text that shows it.
#[derive(Debug, Clone)]
pub struct Reading {
    pub number: Number,
    pub shown: String,
}

/// The reading of the previous check, and how the present value differs from it.
#[derive(Debug, Clone)]
pub struct Previous {
    pub reading: Reading,
    /// The absolute difference between the two values.
    pub distance: Number,
    /// The drop in percent of the previous value, shown with one decimal.
    pub drop_pct: Reading,
    /// The rise in percent of the previous value, shown with one decimal.
    pub rise_pct: Reading,
}

/// The figures of one price check.
#[derive(Debug, Clone)]
pub struct Figures {
    /// The present value.
    pub value: Reading,
    /// What the text that shows the present value reads as, when it is read like a captured one.
    pub reread: Option<Number>,
    /// The previous reading, where there is one.
    pub previous: Option<Previous>,
    /// The text that shows the threshold.
    pub threshold_shown: String,
}

} // verus!
