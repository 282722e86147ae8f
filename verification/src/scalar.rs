//! The arithmetic that a camera model asks of its scalar type.

use vstd::prelude::*;

verus! {

/// A real-number scalar: the four field operations, square root, integer
/// powers and conversion from small integers.
///
/// Each operation is a function of its operands alone: calling it twice on
/// equal operands gives equal results. Nothing is said here about rounding
/// or range, which are the scalar type's own business. A division by zero or
/// the root of a negative number returns whatever the scalar type uses for
/// such results; no operation fails.
///
/// Beyond that an implementor promises three facts about zero, each of which
/// holds of exact arithmetic and of IEEE 754 arithmetic alike: a finite
/// scalar minus itself is zero, zero divided by a finite non-zero scalar is
/// zero, and zero times a finite scalar is zero.
///
/// A scalar type written in ordinary Rust gives each `_spec` function the
/// body of the operation it describes, and each of the three facts an empty
/// body or a run-time assertion of what it states.
pub trait RealScalar: Sized {
    /// The scalar that stands for the integer `n`.
    spec fn from_small_spec(n: u8) -> Self;

    /// The sum of two scalars.
    spec fn add_spec(self, rhs: Self) -> Self;

    /// The difference of two scalars.
    spec fn sub_spec(self, rhs: Self) -> Self;

    /// The product of two scalars.
    spec fn mul_spec(self, rhs: Self) -> Self;

    /// The quotient of two scalars.
    spec fn div_spec(self, rhs: Self) -> Self;

    /// The square root of a scalar.
    spec fn sqrt_spec(self) -> Self;

    /// A scalar raised to the integer power `n`.
    spec fn powi_spec(self, n: i32) -> Self;

    /// Whether the scalar is a zero. A type with a signed zero counts both.
    spec fn is_zero(self) -> bool;

    /// Whether the scalar is an ordinary number, neither infinite nor the
    /// mark of an invalid result.
    spec fn is_finite(self) -> bool;

    /// A finite scalar minus itself is zero.
    proof fn sub_self_is_zero(a: Self)
        requires
            a.is_finite(),
        ensures
            a.sub_spec(a).is_zero(),
    ;

    /// Zero divided by a finite scalar other than zero is zero.
    proof fn zero_div_is_zero(z: Self, d: Self)
        requires
            z.is_zero(),
            d.is_finite(),
            !d.is_zero(),
        ensures
            z.div_spec(d).is_zero(),
    ;

    /// Zero times a finite scalar is zero.
    proof fn zero_mul_is_zero(z: Self, s: Self)
        requires
            z.is_zero(),
            s.is_finite(),
        ensures
            z.mul_spec(s).is_zero(),
    ;

    fn from_small(n: u8) -> (r: Self)
        ensures
            r == Self::from_small_spec(n),
    ;

    fn add(&self, rhs: &Self) -> (r: Self)
        ensures
            r == self.add_spec(*rhs),
    ;

    fn sub(&self, rhs: &Self) -> (r: Self)
        ensures
            r == self.sub_spec(*rhs),
    ;

    fn mul(&self, rhs: &Self) -> (r: Self)
        ensures
            r == self.mul_spec(*rhs),
    ;

    fn div(&self, rhs: &Self) -> (r: Self)
        ensures
            r == self.div_spec(*rhs),
    ;

    fn sqrt(&self) -> (r: Self)
        ensures
            r == self.sqrt_spec(),
    ;

    fn powi(&self, n: i32) -> (r: Self)
        ensures
            r == self.powi_spec(n),
    ;
}

} // verus!
