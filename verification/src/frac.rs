//! Exact fractional values.
//!
//! Percentages, alpha values and HSL components are fractions of small
//! integers (a decimal literal such as `0.25`, a percentage such as `37.5%`,
//! or a byte scaled by 255). [`Frac`] keeps such a value exactly as a
//! numerator and a positive denominator, so all arithmetic on it is exact.

use vstd::prelude::*;

verus! {

/// The largest denominator a [`Frac`] may carry.
///
/// Parsing keeps at most nine fraction digits and a factor of 100 for
/// percentages, so every denominator fits well under this bound; the bound in
/// turn keeps all arithmetic on fractions inside 128-bit integers.
pub const FRAC_DEN_MAX: u64 = 100_000_000_000;

/// The largest magnitude a [`Frac`] numerator may carry.
pub const FRAC_NUM_MAX: i64 = 1_000_000_000_000_000_000;

/// An exact fraction: `num / den`.
///
/// The value is not kept in lowest terms; `5/10` and `1/2` are different
/// representations of the same value, and [`Frac::same_value`] compares the
/// values themselves.
#[derive(Debug, Clone, Copy, PartialEq, Eq, Structural, Hash)]
pub struct Frac {
    /// The numerator; it may be negative or exceed the denominator.
    pub num: i64,
    /// The denominator; always at least 1.
    pub den: u64,
}

/// A product of a numerator and a denominator stays far inside `i128`.
proof fn lemma_num_den_mul_bound(a: int, b: int)
    by (nonlinear_arith)
    requires
        -1_000_000_000_000_000_000 <= a <= 1_000_000_000_000_000_000,
        0 <= b <= 100_000_000_000,
    ensures
        -100_000_000_000_000_000_000_000_000_000 <= a * b
            <= 100_000_000_000_000_000_000_000_000_000,
{
}

impl Frac {
    /// A well-formed fraction: the denominator is positive and both parts are
    /// small enough that products of two fractions fit in 128-bit arithmetic.
    pub open spec fn wf(self) -> bool {
        1 <= self.den <= FRAC_DEN_MAX && -FRAC_NUM_MAX <= self.num <= FRAC_NUM_MAX
    }

    /// The fraction lies in the closed interval [0, 1].
    pub open spec fn in_unit(self) -> bool {
        0 <= self.num <= self.den
    }

    /// Creates the fraction `num / den`.
    pub fn new(num: i64, den: u64) -> (r: Self)
        requires
            1 <= den <= FRAC_DEN_MAX,
            -FRAC_NUM_MAX <= num <= FRAC_NUM_MAX,
        ensures
            r == (Frac { num, den }),
            r.wf(),
    {
        Frac { num, den }
    }

    /// The fraction zero.
    pub fn zero() -> (r: Self)
        ensures
            r == (Frac { num: 0, den: 1 }),
            r.wf(),
            r.in_unit(),
    {
        Frac { num: 0, den: 1 }
    }

    /// The fraction one.
    pub fn one() -> (r: Self)
        ensures
            r == (Frac { num: 1, den: 1 }),
            r.wf(),
            r.in_unit(),
    {
        Frac { num: 1, den: 1 }
    }

    /// Whether two fractions denote the same value, by cross-multiplication.
    pub fn same_value(&self, other: &Frac) -> (r: bool)
        requires
            self.wf(),
            other.wf(),
        ensures
            r == (self.num * other.den == other.num * self.den),
    {
        proof {
            lemma_num_den_mul_bound(self.num as int, other.den as int);
            lemma_num_den_mul_bound(other.num as int, self.den as int);
        }
        (self.num as i128) * (other.den as i128) == (other.num as i128) * (self.den as i128)
    }

    /// Whether the value is at most zero.
    pub fn le_zero(&self) -> (r: bool)
        requires
            self.wf(),
        ensures
            r == (self.num <= 0),
    {
        self.num <= 0
    }

    /// Whether the value is at least one.
    pub fn ge_one(&self) -> (r: bool)
        requires
            self.wf(),
        ensures
            r == (self.num >= self.den),
    {
        self.num >= 0 && self.num as u64 >= self.den
    }

    /// Clamps the value into [0, 1]: negative values become 0 and values
    /// above 1 become 1; values already in the interval are unchanged.
    pub fn clamp_unit(self) -> (r: Self)
        requires
            self.wf(),
        ensures
            r.wf(),
            r.in_unit(),
            r.den == self.den,
            self.num < 0 ==> r.num == 0,
            self.num > self.den ==> r.num == r.den,
            0 <= self.num <= self.den ==> r.num == self.num,
    {
        if self.num < 0 {
            Frac { num: 0, den: self.den }
        } else if self.num as u64 > self.den {
            Frac { num: self.den as i64, den: self.den }
        } else {
            self
        }
    }
}

} // verus!
