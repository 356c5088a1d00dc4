//! Exact rational lengths.
//!
//! A `Rat` is a fraction of two `i128` values with a positive denominator.
//! Results of the arithmetic operations are not reduced to lowest terms, so
//! each operation mirrors its mathematical definition exactly; `same_value`
//! compares two fractions as rational numbers.

use vstd::prelude::*;

verus! {

/// Mathematical model of a rational number: an integer numerator over an
/// integer denominator. Meaningful when the denominator is positive.
pub struct RatV {
    pub num: int,
    pub den: int,
}

impl RatV {
    /// The model is well formed when its denominator is positive.
    pub open spec fn wf(self) -> bool {
        self.den > 0
    }
}

/// The rational `n` as a model value.
pub open spec fn ratv_int(n: int) -> RatV {
    RatV { num: n, den: 1 }
}

/// `a <= b` as rational numbers, by cross multiplication.
/// Meaningful when both denominators are positive.
pub open spec fn ratv_le(a: RatV, b: RatV) -> bool {
    a.num * b.den <= b.num * a.den
}

/// `a < b` as rational numbers, by cross multiplication.
pub open spec fn ratv_lt(a: RatV, b: RatV) -> bool {
    a.num * b.den < b.num * a.den
}

/// `a == b` as rational numbers, by cross multiplication.
pub open spec fn ratv_eq(a: RatV, b: RatV) -> bool {
    a.num * b.den == b.num * a.den
}

/// The product `a * b`.
pub open spec fn ratv_mul(a: RatV, b: RatV) -> RatV {
    RatV { num: a.num * b.num, den: a.den * b.den }
}

/// The difference `a - b`, over the common denominator.
pub open spec fn ratv_sub(a: RatV, b: RatV) -> RatV {
    RatV { num: a.num * b.den - b.num * a.den, den: a.den * b.den }
}

/// The sum `a + b`, over the common denominator.
pub open spec fn ratv_add(a: RatV, b: RatV) -> RatV {
    RatV { num: a.num * b.den + b.num * a.den, den: a.den * b.den }
}

/// The quotient `a / b`. Well formed when `b.num > 0`.
pub open spec fn ratv_div(a: RatV, b: RatV) -> RatV {
    RatV { num: a.num * b.den, den: a.den * b.num }
}

/// Half of `a`.
pub open spec fn ratv_half(a: RatV) -> RatV {
    RatV { num: a.num, den: a.den * 2 }
}

/// True when `x` fits in an `i128`.
pub open spec fn in_i128(x: int) -> bool {
    i128::MIN <= x <= i128::MAX
}

/// An exact rational number: `num / den` with `den > 0`.
#[derive(Debug, Clone, Copy, PartialEq, Eq, Structural)]
pub struct Rat {
    pub num: i128,
    pub den: i128,
}

impl View for Rat {
    type V = RatV;

    open spec fn view(&self) -> RatV {
        RatV { num: self.num as int, den: self.den as int }
    }
}

impl Rat {
    /// A `Rat` is well formed when its denominator is positive.
    pub open spec fn wf(&self) -> bool {
        self.den > 0
    }

    /// The fraction `num / den`.
    pub fn new(num: i128, den: i128) -> (r: Rat)
        requires
            den > 0,
        ensures
            r@ == (RatV { num: num as int, den: den as int }),
            r.wf(),
    {
        Rat { num, den }
    }

    /// The product of two rationals.
    pub fn mul(&self, rhs: &Rat) -> (r: Rat)
        requires
            self.wf(),
            rhs.wf(),
            in_i128(self@.num * rhs@.num),
            in_i128(self@.den * rhs@.den),
        ensures
            r@ == ratv_mul(self@, rhs@),
            r.wf(),
    {
        proof {
            assert(self.den * rhs.den > 0) by (nonlinear_arith)
                requires
                    self.den > 0,
                    rhs.den > 0,
            ;
        }
        Rat { num: self.num * rhs.num, den: self.den * rhs.den }
    }

    /// The difference of two rationals, over the common denominator.
    pub fn sub(&self, rhs: &Rat) -> (r: Rat)
        requires
            self.wf(),
            rhs.wf(),
            in_i128(self@.num * rhs@.den),
            in_i128(rhs@.num * self@.den),
            in_i128(self@.num * rhs@.den - rhs@.num * self@.den),
            in_i128(self@.den * rhs@.den),
        ensures
            r@ == ratv_sub(self@, rhs@),
            r.wf(),
    {
        proof {
            assert(self.den * rhs.den > 0) by (nonlinear_arith)
                requires
                    self.den > 0,
                    rhs.den > 0,
            ;
        }
        Rat { num: self.num * rhs.den - rhs.num * self.den, den: self.den * rhs.den }
    }

    /// The quotient of two rationals. The divisor must be positive.
    pub fn div(&self, rhs: &Rat) -> (r: Rat)
        requires
            self.wf(),
            rhs.wf(),
            rhs@.num > 0,
            in_i128(self@.num * rhs@.den),
            in_i128(self@.den * rhs@.num),
        ensures
            r@ == ratv_div(self@, rhs@),
            r.wf(),
    {
        proof {
            assert(self.den * rhs.num > 0) by (nonlinear_arith)
                requires
                    self.den > 0,
                    rhs.num > 0,
            ;
        }
        Rat { num: self.num * rhs.den, den: self.den * rhs.num }
    }

    /// Half of this rational.
    pub fn half(&self) -> (r: Rat)
        requires
            self.wf(),
            in_i128(self@.den * 2),
        ensures
            r@ == ratv_half(self@),
            r.wf(),
    {
        Rat { num: self.num, den: self.den * 2 }
    }

    /// Whether this rational is strictly greater than zero.
    pub fn is_positive(&self) -> (r: bool)
        requires
            self.wf(),
        ensures
            r == ratv_lt(ratv_int(0), self@),
    {
        self.num > 0
    }

    /// Whether `self < rhs` as rational numbers.
    pub fn lt(&self, rhs: &Rat) -> (r: bool)
        requires
            self.wf(),
            rhs.wf(),
            in_i128(self@.num * rhs@.den),
            in_i128(rhs@.num * self@.den),
        ensures
            r == ratv_lt(self@, rhs@),
    {
        self.num * rhs.den < rhs.num * self.den
    }

    /// Whether `self` and `rhs` denote the same rational number, even
    /// when their fractions are written with different denominators.
    pub fn same_value(&self, rhs: &Rat) -> (r: bool)
        requires
            self.wf(),
            rhs.wf(),
            in_i128(self@.num * rhs@.den),
            in_i128(rhs@.num * self@.den),
        ensures
            r == ratv_eq(self@, rhs@),
    {
        self.num * rhs.den == rhs.num * self.den
    }
}

} // verus!
