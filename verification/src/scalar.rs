//! The number type the renderer computes with.

use vstd::prelude::*;

verus! {

/// A number type with the arithmetic and comparisons the renderer needs.
///
/// Each operation is a total function: dividing by zero or taking the root of
/// a negative number yields some value of the type rather than a failure. The
/// `_spec` functions are the mathematical model of the operations; the
/// executable methods compute exactly what their models say.
///
/// The comparisons form a strict partial order with its companion `le`.
/// Values that compare with nothing (such as a not-a-number) are allowed: no
/// law demands that two values be comparable.
///
/// [`crate::fixed::Fixed`] is the implementation that is verified here. An
/// implementation elsewhere owes the same: each method returns what its
/// model says, and the laws hold of its comparisons.
pub trait Scalar: Sized + Copy {
    /// The scalar nearest to the integer `i`.
    spec fn from_int_spec(i: i64) -> Self;

    spec fn add_spec(self, rhs: Self) -> Self;

    spec fn sub_spec(self, rhs: Self) -> Self;

    spec fn mul_spec(self, rhs: Self) -> Self;

    spec fn div_spec(self, rhs: Self) -> Self;

    spec fn neg_spec(self) -> Self;

    spec fn abs_spec(self) -> Self;

    spec fn sqrt_spec(self) -> Self;

    /// Strictly less than.
    spec fn lt_spec(self, rhs: Self) -> bool;

    /// Less than or equal.
    spec fn le_spec(self, rhs: Self) -> bool;

    /// The integer part of the value, held to `0..=255`.
    spec fn to_byte_spec(self) -> u8;

    fn from_int(i: i64) -> (r: Self)
        ensures
            r == Self::from_int_spec(i),
    ;

    fn add(self, rhs: Self) -> (r: Self)
        ensures
            r == self.add_spec(rhs),
    ;

    fn sub(self, rhs: Self) -> (r: Self)
        ensures
            r == self.sub_spec(rhs),
    ;

    fn mul(self, rhs: Self) -> (r: Self)
        ensures
            r == self.mul_spec(rhs),
    ;

    fn div(self, rhs: Self) -> (r: Self)
        ensures
            r == self.div_spec(rhs),
    ;

    fn neg(self) -> (r: Self)
        ensures
            r == self.neg_spec(),
    ;

    fn abs(self) -> (r: Self)
        ensures
            r == self.abs_spec(),
    ;

    fn sqrt(self) -> (r: Self)
        ensures
            r == self.sqrt_spec(),
    ;

    fn lt(self, rhs: Self) -> (r: bool)
        ensures
            r == self.lt_spec(rhs),
    ;

    fn le(self, rhs: Self) -> (r: bool)
        ensures
            r == self.le_spec(rhs),
    ;

    fn to_byte(self) -> (r: u8)
        ensures
            r == self.to_byte_spec(),
    ;

    /// Nothing is less than itself.
    proof fn law_lt_irreflexive(a: Self)
        ensures
            !a.lt_spec(a),
    ;

    /// `lt` is transitive.
    proof fn law_lt_transitive(a: Self, b: Self, c: Self)
        requires
            a.lt_spec(b),
            b.lt_spec(c),
        ensures
            a.lt_spec(c),
    ;

    /// What is strictly less is also less or equal.
    proof fn law_lt_implies_le(a: Self, b: Self)
        requires
            a.lt_spec(b),
        ensures
            a.le_spec(b),
    ;

    /// `a < b` and `b <= a` never hold together.
    proof fn law_lt_excludes_ge(a: Self, b: Self)
        requires
            a.lt_spec(b),
        ensures
            !b.le_spec(a),
    ;

    /// `a < b <= c` gives `a < c`.
    proof fn law_lt_le_transitive(a: Self, b: Self, c: Self)
        requires
            a.lt_spec(b),
            b.le_spec(c),
        ensures
            a.lt_spec(c),
    ;

    /// `le` is transitive.
    proof fn law_le_transitive(a: Self, b: Self, c: Self)
        requires
            a.le_spec(b),
            b.le_spec(c),
        ensures
            a.le_spec(c),
    ;

    /// Converting integers keeps their order: a larger integer never gives a
    /// strictly smaller scalar.
    proof fn law_from_int_monotone(i: i64, j: i64)
        requires
            i <= j,
        ensures
            !Self::from_int_spec(j).lt_spec(Self::from_int_spec(i)),
    ;
}

} // verus!
