//! The numeric collaborator of the derivation engine.
//!
//! The engine needs, per precision, a handful of arithmetic operations, a few
//! constants, the transcendental functions of the cookbook formulas, and two
//! comparisons. [`Real`] names them. Each executable operation is paired with
//! an abstract spec function that names its value, so that contracts can pin
//! down exactly which expression a derivation builds out of the primitives.
//!
//! An implementor must make every operation a pure function of its arguments:
//! two calls on equal arguments return equal results. Nothing further is
//! assumed — in particular no algebraic law (commutativity, `x/x == 1`, ...)
//! is available to proofs, which keeps the contracts honest for rounded
//! floating-point instances.

use vstd::prelude::*;

verus! {

/// Arithmetic, constants, transcendentals and comparisons of one numeric
/// precision. Every executable method returns the value named by its spec
/// counterpart, and nothing else is promised of the values.
pub trait Real: Sized + Copy {
    /// The value of [`Real::zero`].
    spec fn zero_spec() -> Self;

    /// The additive identity (`0`).
    fn zero() -> (r: Self)
        ensures
            r == Self::zero_spec(),
    ;

    /// The value of [`Real::one`].
    spec fn one_spec() -> Self;

    /// The multiplicative identity (`1`).
    fn one() -> (r: Self)
        ensures
            r == Self::one_spec(),
    ;

    /// The value of [`Real::two`].
    spec fn two_spec() -> Self;

    /// The constant `2`.
    fn two() -> (r: Self)
        ensures
            r == Self::two_spec(),
    ;

    /// The value of [`Real::half`].
    spec fn half_spec() -> Self;

    /// The constant `1/2`.
    fn half() -> (r: Self)
        ensures
            r == Self::half_spec(),
    ;

    /// The value of [`Real::ten`].
    spec fn ten_spec() -> Self;

    /// The constant `10`.
    fn ten() -> (r: Self)
        ensures
            r == Self::ten_spec(),
    ;

    /// The value of [`Real::forty`].
    spec fn forty_spec() -> Self;

    /// The constant `40`.
    fn forty() -> (r: Self)
        ensures
            r == Self::forty_spec(),
    ;

    /// The value of [`Real::pi`].
    spec fn pi_spec() -> Self;

    /// The circle constant of this precision.
    fn pi() -> (r: Self)
        ensures
            r == Self::pi_spec(),
    ;

    /// The value of [`Real::plus`].
    spec fn plus_spec(self, rhs: Self) -> Self;

    /// Addition.
    fn plus(self, rhs: Self) -> (r: Self)
        ensures
            r == self.plus_spec(rhs),
    ;

    /// The value of [`Real::minus`].
    spec fn minus_spec(self, rhs: Self) -> Self;

    /// Subtraction.
    fn minus(self, rhs: Self) -> (r: Self)
        ensures
            r == self.minus_spec(rhs),
    ;

    /// The value of [`Real::times`].
    spec fn times_spec(self, rhs: Self) -> Self;

    /// Multiplication.
    fn times(self, rhs: Self) -> (r: Self)
        ensures
            r == self.times_spec(rhs),
    ;

    /// The value of [`Real::over`].
    spec fn over_spec(self, rhs: Self) -> Self;

    /// Division.
    fn over(self, rhs: Self) -> (r: Self)
        ensures
            r == self.over_spec(rhs),
    ;

    /// The value of [`Real::neg`].
    spec fn neg_spec(self) -> Self;

    /// Sign change.
    fn neg(self) -> (r: Self)
        ensures
            r == self.neg_spec(),
    ;

    /// The value of [`Real::sine`].
    spec fn sine_spec(self) -> Self;

    /// The sine of an angle in radians.
    fn sine(self) -> (r: Self)
        ensures
            r == self.sine_spec(),
    ;

    /// The value of [`Real::cosine`].
    spec fn cosine_spec(self) -> Self;

    /// The cosine of an angle in radians.
    fn cosine(self) -> (r: Self)
        ensures
            r == self.cosine_spec(),
    ;

    /// The value of [`Real::tangent`].
    spec fn tangent_spec(self) -> Self;

    /// The tangent of an angle in radians.
    fn tangent(self) -> (r: Self)
        ensures
            r == self.tangent_spec(),
    ;

    /// The value of [`Real::square_root`].
    spec fn square_root_spec(self) -> Self;

    /// The square root.
    fn square_root(self) -> (r: Self)
        ensures
            r == self.square_root_spec(),
    ;

    /// The value of [`Real::power`].
    spec fn power_spec(self, exponent: Self) -> Self;

    /// `self` raised to a real exponent.
    fn power(self, exponent: Self) -> (r: Self)
        ensures
            r == self.power_spec(exponent),
    ;

    /// The value of [`Real::lt`].
    spec fn lt_spec(self, rhs: Self) -> bool;

    /// Strictly-less comparison.
    fn lt(self, rhs: Self) -> (r: bool)
        ensures
            r == self.lt_spec(rhs),
    ;

    /// The value of [`Real::gt`].
    spec fn gt_spec(self, rhs: Self) -> bool;

    /// Strictly-greater comparison.
    fn gt(self, rhs: Self) -> (r: bool)
        ensures
            r == self.gt_spec(rhs),
    ;
}

} // verus!
