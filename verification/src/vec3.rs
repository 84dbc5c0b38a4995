//! Three-component vectors, points and their algebra.

use crate::scalar::Scalar;
use vstd::prelude::*;

verus! {

/// A vector of three scalars. Operations return new values.
#[derive(Clone, Copy)]
pub struct Vec3<S: Scalar> {
    pub x: S,
    pub y: S,
    pub z: S,
}

/// A position in space.
pub type Point3<S> = Vec3<S>;

/// The bound below which a component counts as zero: one hundred-millionth.
pub open spec fn near_zero_bound<S: Scalar>() -> S {
    S::from_int_spec(1).div_spec(S::from_int_spec(100_000_000))
}

impl<S: Scalar> Vec3<S> {
    /// The vector with all three components equal to `e`.
    pub open spec fn diag(e: S) -> Self {
        Vec3 { x: e, y: e, z: e }
    }

    /// The zero vector.
    pub open spec fn zero() -> Self {
        Self::diag(S::from_int_spec(0))
    }

    /// Component-wise sum.
    pub open spec fn plus(self, other: Self) -> Self {
        Vec3 {
            x: self.x.add_spec(other.x),
            y: self.y.add_spec(other.y),
            z: self.z.add_spec(other.z),
        }
    }

    /// Component-wise difference.
    pub open spec fn minus(self, other: Self) -> Self {
        Vec3 {
            x: self.x.sub_spec(other.x),
            y: self.y.sub_spec(other.y),
            z: self.z.sub_spec(other.z),
        }
    }

    /// Every component multiplied by `k`.
    pub open spec fn scaled(self, k: S) -> Self {
        Vec3 { x: self.x.mul_spec(k), y: self.y.mul_spec(k), z: self.z.mul_spec(k) }
    }

    /// Component-wise product.
    pub open spec fn times(self, other: Self) -> Self {
        Vec3 {
            x: self.x.mul_spec(other.x),
            y: self.y.mul_spec(other.y),
            z: self.z.mul_spec(other.z),
        }
    }

    /// Every component divided by `k`.
    pub open spec fn divided(self, k: S) -> Self {
        Vec3 { x: self.x.div_spec(k), y: self.y.div_spec(k), z: self.z.div_spec(k) }
    }

    /// Every component negated.
    pub open spec fn negated(self) -> Self {
        Vec3 { x: self.x.neg_spec(), y: self.y.neg_spec(), z: self.z.neg_spec() }
    }

    /// The dot product, summed from the first component to the last.
    pub open spec fn dot_spec(self, other: Self) -> S {
        self.x.mul_spec(other.x).add_spec(self.y.mul_spec(other.y)).add_spec(
            self.z.mul_spec(other.z),
        )
    }

    pub open spec fn length_squared_spec(self) -> S {
        self.dot_spec(self)
    }

    pub open spec fn length_spec(self) -> S {
        self.length_squared_spec().sqrt_spec()
    }

    pub open spec fn cross_spec(self, other: Self) -> Self {
        Vec3 {
            x: self.y.mul_spec(other.z).sub_spec(self.z.mul_spec(other.y)),
            y: self.z.mul_spec(other.x).sub_spec(self.x.mul_spec(other.z)),
            z: self.x.mul_spec(other.y).sub_spec(self.y.mul_spec(other.x)),
        }
    }

    /// The vector divided by its own length.
    pub open spec fn normalized_spec(self) -> Self {
        self.divided(self.length_spec())
    }

    /// All three components are below [`near_zero_bound`] in magnitude.
    pub open spec fn is_near_zero_spec(self) -> bool {
        &&& self.x.abs_spec().lt_spec(near_zero_bound())
        &&& self.y.abs_spec().lt_spec(near_zero_bound())
        &&& self.z.abs_spec().lt_spec(near_zero_bound())
    }

    /// The mirror image of the vector about the normal `n`: `v - (2 (v . n)) n`.
    pub open spec fn reflect_spec(self, n: Self) -> Self {
        self.minus(n.scaled(S::from_int_spec(2).mul_spec(self.dot_spec(n))))
    }

    /// The unit vector of a sample of the cube, turned into the hemisphere
    /// around `self`: it is flipped unless its dot product with `self` is
    /// strictly positive.
    pub open spec fn on_hemisphere_spec(self, cube: Self) -> Self {
        let unit = cube.normalized_spec();
        if S::from_int_spec(0).lt_spec(unit.dot_spec(self)) {
            unit
        } else {
            unit.scaled(S::from_int_spec(-1i64))
        }
    }

    pub fn new(e0: S, e1: S, e2: S) -> (r: Self)
        ensures
            r == (Vec3 { x: e0, y: e1, z: e2 }),
    {
        Vec3 { x: e0, y: e1, z: e2 }
    }

    pub fn new_diag(e: S) -> (r: Self)
        ensures
            r == Self::diag(e),
    {
        Vec3 { x: e, y: e, z: e }
    }

    pub fn new_zero() -> (r: Self)
        ensures
            r == Self::zero(),
    {
        Self::new_diag(S::from_int(0))
    }

    /// A unit vector from `cube`, a sample drawn component by component from
    /// the cube `[-1, 1]^3`.
    pub fn new_rand_normalized(cube: Self) -> (r: Self)
        ensures
            r == cube.normalized_spec(),
    {
        cube.normalized()
    }

    /// A unit vector from the cube sample `cube`, on the side of the plane
    /// that `self` points to.
    pub fn new_rand_normalized_on_hemisphere(&self, cube: Self) -> (r: Self)
        ensures
            r == self.on_hemisphere_spec(cube),
    {
        let rand_normalized = Self::new_rand_normalized(cube);
        if S::from_int(0).lt(rand_normalized.dot(self)) {
            rand_normalized
        } else {
            rand_normalized * S::from_int(-1)
        }
    }

    pub fn x(&self) -> (r: S)
        ensures
            r == self.x,
    {
        self.x
    }

    pub fn y(&self) -> (r: S)
        ensures
            r == self.y,
    {
        self.y
    }

    pub fn z(&self) -> (r: S)
        ensures
            r == self.z,
    {
        self.z
    }

    pub fn dot(&self, other: &Self) -> (r: S)
        ensures
            r == self.dot_spec(*other),
    {
        self.x.mul(other.x).add(self.y.mul(other.y)).add(self.z.mul(other.z))
    }

    pub fn length_squared(&self) -> (r: S)
        ensures
            r == self.length_squared_spec(),
    {
        self.dot(self)
    }

    pub fn length(&self) -> (r: S)
        ensures
            r == self.length_spec(),
    {
        self.length_squared().sqrt()
    }

    pub fn cross(&self, other: &Self) -> (r: Self)
        ensures
            r == self.cross_spec(*other),
    {
        Vec3 {
            x: self.y.mul(other.z).sub(self.z.mul(other.y)),
            y: self.z.mul(other.x).sub(self.x.mul(other.z)),
            z: self.x.mul(other.y).sub(self.y.mul(other.x)),
        }
    }

    pub fn normalized(&self) -> (r: Self)
        ensures
            r == self.normalized_spec(),
    {
        *self / self.length()
    }

    pub fn is_near_zero(&self) -> (r: bool)
        ensures
            r == self.is_near_zero_spec(),
    {
        let bound = S::from_int(1).div(S::from_int(100_000_000));
        self.x.abs().lt(bound) && self.y.abs().lt(bound) && self.z.abs().lt(bound)
    }

    pub fn reflect(&self, n: &Self) -> (r: Self)
        ensures
            r == self.reflect_spec(*n),
    {
        *self - *n * S::from_int(2).mul(self.dot(n))
    }
}

impl<S: Scalar> core::ops::Add for Vec3<S> {
    type Output = Vec3<S>;

    fn add(self, other: Self) -> (r: Self::Output) {
        Vec3 { x: self.x.add(other.x), y: self.y.add(other.y), z: self.z.add(other.z) }
    }
}

impl<S: Scalar> vstd::std_specs::ops::AddSpecImpl for Vec3<S> {
    open spec fn obeys_add_spec() -> bool {
        true
    }

    open spec fn add_req(self, other: Self) -> bool {
        true
    }

    open spec fn add_spec(self, other: Self) -> Self::Output {
        self.plus(other)
    }
}

impl<S: Scalar> core::ops::Sub for Vec3<S> {
    type Output = Vec3<S>;

    fn sub(self, other: Self) -> (r: Self::Output) {
        Vec3 { x: self.x.sub(other.x), y: self.y.sub(other.y), z: self.z.sub(other.z) }
    }
}

impl<S: Scalar> vstd::std_specs::ops::SubSpecImpl for Vec3<S> {
    open spec fn obeys_sub_spec() -> bool {
        true
    }

    open spec fn sub_req(self, other: Self) -> bool {
        true
    }

    open spec fn sub_spec(self, other: Self) -> Self::Output {
        self.minus(other)
    }
}

impl<S: Scalar> core::ops::Mul<S> for Vec3<S> {
    type Output = Vec3<S>;

    fn mul(self, other: S) -> (r: Self::Output) {
        Vec3 { x: self.x.mul(other), y: self.y.mul(other), z: self.z.mul(other) }
    }
}

impl<S: Scalar> vstd::std_specs::ops::MulSpecImpl<S> for Vec3<S> {
    open spec fn obeys_mul_spec() -> bool {
        true
    }

    open spec fn mul_req(self, other: S) -> bool {
        true
    }

    open spec fn mul_spec(self, other: S) -> Self::Output {
        self.scaled(other)
    }
}

impl<S: Scalar> core::ops::Mul<Vec3<S>> for Vec3<S> {
    type Output = Vec3<S>;

    fn mul(self, other: Vec3<S>) -> (r: Self::Output) {
        Vec3 { x: self.x.mul(other.x), y: self.y.mul(other.y), z: self.z.mul(other.z) }
    }
}

impl<S: Scalar> vstd::std_specs::ops::MulSpecImpl<Vec3<S>> for Vec3<S> {
    open spec fn obeys_mul_spec() -> bool {
        true
    }

    open spec fn mul_req(self, other: Vec3<S>) -> bool {
        true
    }

    open spec fn mul_spec(self, other: Vec3<S>) -> Self::Output {
        self.times(other)
    }
}

impl<S: Scalar> core::ops::Div<S> for Vec3<S> {
    type Output = Vec3<S>;

    fn div(self, other: S) -> (r: Self::Output) {
        Vec3 { x: self.x.div(other), y: self.y.div(other), z: self.z.div(other) }
    }
}

impl<S: Scalar> vstd::std_specs::ops::DivSpecImpl<S> for Vec3<S> {
    open spec fn obeys_div_spec() -> bool {
        true
    }

    open spec fn div_req(self, other: S) -> bool {
        true
    }

    open spec fn div_spec(self, other: S) -> Self::Output {
        self.divided(other)
    }
}

impl<S: Scalar> core::ops::Neg for Vec3<S> {
    type Output = Vec3<S>;

    fn neg(self) -> (r: Self::Output) {
        Vec3 { x: self.x.neg(), y: self.y.neg(), z: self.z.neg() }
    }
}

impl<S: Scalar> vstd::std_specs::ops::NegSpecImpl for Vec3<S> {
    open spec fn obeys_neg_spec() -> bool {
        true
    }

    open spec fn neg_req(self) -> bool {
        true
    }

    open spec fn neg_spec(self) -> Self::Output {
        self.negated()
    }
}

impl<S: Scalar> core::ops::AddAssign for Vec3<S> {
    fn add_assign(&mut self, other: Self)
        ensures
            *final(self) == old(self).plus(other),
    {
        *self = Vec3 { x: self.x.add(other.x), y: self.y.add(other.y), z: self.z.add(other.z) }
    }
}

impl<S: Scalar> core::ops::SubAssign for Vec3<S> {
    fn sub_assign(&mut self, other: Self)
        ensures
            *final(self) == old(self).minus(other),
    {
        *self = Vec3 { x: self.x.sub(other.x), y: self.y.sub(other.y), z: self.z.sub(other.z) }
    }
}

impl<S: Scalar> core::ops::MulAssign<S> for Vec3<S> {
    fn mul_assign(&mut self, other: S)
        ensures
            *final(self) == old(self).scaled(other),
    {
        *self = Vec3 { x: self.x.mul(other), y: self.y.mul(other), z: self.z.mul(other) }
    }
}

impl<S: Scalar> core::ops::DivAssign<S> for Vec3<S> {
    fn div_assign(&mut self, other: S)
        ensures
            *final(self) == old(self).divided(other),
    {
        *self = Vec3 { x: self.x.div(other), y: self.y.div(other), z: self.z.div(other) }
    }
}

} // verus!
