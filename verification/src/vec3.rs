//! Vectors of three numbers: their arithmetic, and the integer vectors that
//! they stand for.

use crate::number::{quotient, Number};
use core::ops::{Add, AddAssign, Div, DivAssign, Mul, MulAssign, Sub, SubAssign};
use vstd::prelude::*;
use vstd::std_specs::ops::{AddSpec, DivSpec, MulSpec, SubSpec};

verus! {

/// A vector of three mathematical integers: what a `Vec3` stands for.
pub struct IntVector {
    pub x: int,
    pub y: int,
    pub z: int,
}

impl IntVector {
    /// The vector whose components are all 0.
    pub open spec fn zero() -> IntVector {
        IntVector { x: 0, y: 0, z: 0 }
    }

    /// The sum, component by component.
    pub open spec fn plus(self, v: IntVector) -> IntVector {
        IntVector { x: self.x + v.x, y: self.y + v.y, z: self.z + v.z }
    }

    /// The difference, component by component.
    pub open spec fn minus(self, v: IntVector) -> IntVector {
        IntVector { x: self.x - v.x, y: self.y - v.y, z: self.z - v.z }
    }

    /// The vector that points the other way.
    pub open spec fn negate(self) -> IntVector {
        IntVector { x: -self.x, y: -self.y, z: -self.z }
    }

    /// Every component multiplied by `k`.
    pub open spec fn scale(self, k: int) -> IntVector {
        IntVector { x: self.x * k, y: self.y * k, z: self.z * k }
    }

    /// Every component divided by `k`, rounding toward zero.
    pub open spec fn over(self, k: int) -> IntVector {
        IntVector { x: quotient(self.x, k), y: quotient(self.y, k), z: quotient(self.z, k) }
    }

    /// The dot product.
    pub open spec fn dot(self, v: IntVector) -> int {
        self.x * v.x + self.y * v.y + self.z * v.z
    }

    /// The right-handed cross product.
    pub open spec fn cross(self, v: IntVector) -> IntVector {
        IntVector {
            x: self.y * v.z - self.z * v.y,
            y: self.z * v.x - self.x * v.z,
            z: self.x * v.y - self.y * v.x,
        }
    }

    /// The square of the length: the dot product of the vector with itself.
    pub open spec fn len_squared(self) -> int {
        self.dot(self)
    }

    /// Whether a `Vec3<T>` can hold the vector.
    pub open spec fn fits<T: Number>(self) -> bool {
        T::fits(self.x) && T::fits(self.y) && T::fits(self.z)
    }
}

/// A vector of three numbers of one type.
#[derive(PartialEq, PartialOrd, Eq, Ord, Debug, Copy)]
pub struct Vec3<T> where T: Number {
    pub x: T,
    pub y: T,
    pub z: T,
}

/// A colour: red, green and blue, each from 0 to 255.
pub type Color = Vec3<u8>;

impl<T: Number> View for Vec3<T> {
    type V = IntVector;

    open spec fn view(&self) -> IntVector {
        IntVector { x: self.x.value(), y: self.y.value(), z: self.z.value() }
    }
}

impl<T: Number> Clone for Vec3<T> {
    fn clone(&self) -> (r: Self)
        ensures
            r == *self,
    {
        *self
    }
}

impl<T: Number> Vec3<T> {
    /// Whether `cross(u, v)` can be computed in `T`: the six products and the
    /// three differences all fit.
    pub open spec fn cross_in_range(u: IntVector, v: IntVector) -> bool {
        &&& T::fits(u.y * v.z) && T::fits(u.z * v.y)
        &&& T::fits(u.z * v.x) && T::fits(u.x * v.z)
        &&& T::fits(u.x * v.y) && T::fits(u.y * v.x)
        &&& u.cross(v).fits::<T>()
    }

    /// Whether `dot(u, v)` can be computed in `T`: the three products, the
    /// sum of the first two and the sum of all three fit.
    pub open spec fn dot_in_range(u: IntVector, v: IntVector) -> bool {
        &&& T::fits(u.x * v.x) && T::fits(u.y * v.y) && T::fits(u.z * v.z)
        &&& T::fits(u.x * v.x + u.y * v.y)
        &&& T::fits(u.dot(v))
    }

    /// The vector with the given components.
    pub fn new(x: T, y: T, z: T) -> (r: Vec3<T>)
        ensures
            r == (Vec3 { x, y, z }),
    {
        Vec3 { x, y, z }
    }

    /// The vector whose components are all zero.
    pub fn zero() -> (r: Vec3<T>)
        ensures
            r@ == IntVector::zero(),
    {
        Vec3 { x: T::zero(), y: T::zero(), z: T::zero() }
    }

    /// The dot product of `u` and `v`.
    pub fn dot(u: &Self, v: &Self) -> (r: T)
        requires
            Self::dot_in_range(u@, v@),
        ensures
            r.value() == u@.dot(v@),
    {
        proof {
            T::lemma_operators(u.x, v.x);
            T::lemma_operators(u.y, v.y);
            T::lemma_operators(u.z, v.z);
            T::lemma_operators(u.x.mul_spec(v.x), u.y.mul_spec(v.y));
            T::lemma_operators(u.x.mul_spec(v.x).add_spec(u.y.mul_spec(v.y)), u.z.mul_spec(v.z));
        }
        (u.x * v.x) + (u.y * v.y) + (u.z * v.z)
    }

    /// The square of the vector's length.
    pub fn len_squared(&self) -> (r: T)
        requires
            Self::dot_in_range(self@, self@),
        ensures
            r.value() == self@.len_squared(),
    {
        proof {
            T::lemma_operators(self.x, self.x);
            T::lemma_operators(self.y, self.y);
            T::lemma_operators(self.z, self.z);
            T::lemma_operators(self.x.mul_spec(self.x), self.y.mul_spec(self.y));
            T::lemma_operators(
                self.x.mul_spec(self.x).add_spec(self.y.mul_spec(self.y)),
                self.z.mul_spec(self.z),
            );
        }
        self.x * self.x + self.y * self.y + self.z * self.z
    }

    /// The right-handed cross product of `u` and `v`.
    pub fn cross(u: &Self, v: &Self) -> (r: Self)
        requires
            Self::cross_in_range(u@, v@),
        ensures
            r@ == u@.cross(v@),
    {
        proof {
            T::lemma_operators(u.y, v.z);
            T::lemma_operators(u.z, v.y);
            T::lemma_operators(u.z, v.x);
            T::lemma_operators(u.x, v.z);
            T::lemma_operators(u.x, v.y);
            T::lemma_operators(u.y, v.x);
            T::lemma_operators(u.y.mul_spec(v.z), u.z.mul_spec(v.y));
            T::lemma_operators(u.z.mul_spec(v.x), u.x.mul_spec(v.z));
            T::lemma_operators(u.x.mul_spec(v.y), u.y.mul_spec(v.x));
        }
        Vec3 {
            x: u.y * v.z - u.z * v.y,
            y: u.z * v.x - u.x * v.z,
            z: u.x * v.y - u.y * v.x,
        }
    }
}

impl<T: Number> vstd::std_specs::ops::AddSpecImpl for Vec3<T> {
    open spec fn obeys_add_spec() -> bool {
        true
    }

    open spec fn add_req(self, rhs: Self) -> bool {
        self@.plus(rhs@).fits::<T>()
    }

    open spec fn add_spec(self, rhs: Self) -> Self {
        Vec3 { x: self.x.add_spec(rhs.x), y: self.y.add_spec(rhs.y), z: self.z.add_spec(rhs.z) }
    }
}

impl<T: Number> Add for Vec3<T> {
    type Output = Self;

    /// The sum of two vectors, where every component of it fits.
    fn add(self, other: Self) -> (r: Self)
        ensures
            r@ == self@.plus(other@),
    {
        proof {
            T::lemma_operators(self.x, other.x);
            T::lemma_operators(self.y, other.y);
            T::lemma_operators(self.z, other.z);
        }
        Vec3 { x: self.x + other.x, y: self.y + other.y, z: self.z + other.z }
    }
}

impl<T: Number> AddAssign for Vec3<T> {
    /// Adds `other` to the vector in place.
    fn add_assign(&mut self, other: Self)
        requires
            old(self).add_req(other),
        ensures
            *final(self) == old(self).add_spec(other),
            final(self)@ == old(self)@.plus(other@),
    {
        proof {
            T::lemma_operators(self.x, other.x);
            T::lemma_operators(self.y, other.y);
            T::lemma_operators(self.z, other.z);
        }
        self.x = self.x + other.x;
        self.y = self.y + other.y;
        self.z = self.z + other.z;
    }
}

impl<T: Number> vstd::std_specs::ops::SubSpecImpl for Vec3<T> {
    open spec fn obeys_sub_spec() -> bool {
        true
    }

    open spec fn sub_req(self, rhs: Self) -> bool {
        self@.minus(rhs@).fits::<T>()
    }

    open spec fn sub_spec(self, rhs: Self) -> Self {
        Vec3 { x: self.x.sub_spec(rhs.x), y: self.y.sub_spec(rhs.y), z: self.z.sub_spec(rhs.z) }
    }
}

impl<T: Number> Sub for Vec3<T> {
    type Output = Self;

    /// The difference of two vectors, where every component of it fits.
    fn sub(self, other: Self) -> (r: Self)
        ensures
            r@ == self@.minus(other@),
    {
        proof {
            T::lemma_operators(self.x, other.x);
            T::lemma_operators(self.y, other.y);
            T::lemma_operators(self.z, other.z);
        }
        Vec3 { x: self.x - other.x, y: self.y - other.y, z: self.z - other.z }
    }
}

impl<T: Number> SubAssign for Vec3<T> {
    /// Subtracts `other` from the vector in place.
    fn sub_assign(&mut self, other: Self)
        requires
            old(self).sub_req(other),
        ensures
            *final(self) == old(self).sub_spec(other),
            final(self)@ == old(self)@.minus(other@),
    {
        proof {
            T::lemma_operators(self.x, other.x);
            T::lemma_operators(self.y, other.y);
            T::lemma_operators(self.z, other.z);
        }
        self.x = self.x - other.x;
        self.y = self.y - other.y;
        self.z = self.z - other.z;
    }
}

impl<T: Number> vstd::std_specs::ops::MulSpecImpl<T> for Vec3<T> {
    open spec fn obeys_mul_spec() -> bool {
        true
    }

    open spec fn mul_req(self, rhs: T) -> bool {
        self@.scale(rhs.value()).fits::<T>()
    }

    open spec fn mul_spec(self, rhs: T) -> Self {
        Vec3 { x: self.x.mul_spec(rhs), y: self.y.mul_spec(rhs), z: self.z.mul_spec(rhs) }
    }
}

impl<T: Number> Mul<T> for Vec3<T> {
    type Output = Self;

    /// The vector scaled by `scalar`, where every component of it fits.
    fn mul(self, scalar: T) -> (r: Self)
        ensures
            r@ == self@.scale(scalar.value()),
    {
        proof {
            T::lemma_operators(self.x, scalar);
            T::lemma_operators(self.y, scalar);
            T::lemma_operators(self.z, scalar);
        }
        Vec3 { x: self.x * scalar, y: self.y * scalar, z: self.z * scalar }
    }
}

impl<T: Number> MulAssign<T> for Vec3<T> {
    /// Scales the vector by `scalar` in place.
    fn mul_assign(&mut self, scalar: T)
        requires
            old(self).mul_req(scalar),
        ensures
            *final(self) == old(self).mul_spec(scalar),
            final(self)@ == old(self)@.scale(scalar.value()),
    {
        proof {
            T::lemma_operators(self.x, scalar);
            T::lemma_operators(self.y, scalar);
            T::lemma_operators(self.z, scalar);
        }
        self.x = self.x * scalar;
        self.y = self.y * scalar;
        self.z = self.z * scalar;
    }
}

impl<T: Number> vstd::std_specs::ops::DivSpecImpl<T> for Vec3<T> {
    open spec fn obeys_div_spec() -> bool {
        true
    }

    open spec fn div_req(self, rhs: T) -> bool {
        rhs.value() != 0 && self@.over(rhs.value()).fits::<T>()
    }

    open spec fn div_spec(self, rhs: T) -> Self {
        Vec3 { x: self.x.div_spec(rhs), y: self.y.div_spec(rhs), z: self.z.div_spec(rhs) }
    }
}

impl<T: Number> Div<T> for Vec3<T> {
    type Output = Self;

    /// The vector divided by `scalar`, every quotient rounded toward zero.
    /// Division by zero is not guarded against: the caller passes a scalar
    /// that is not zero, and one by which every quotient fits.
    fn div(self, scalar: T) -> (r: Self)
        ensures
            r@ == self@.over(scalar.value()),
    {
        proof {
            T::lemma_operators(self.x, scalar);
            T::lemma_operators(self.y, scalar);
            T::lemma_operators(self.z, scalar);
        }
        Vec3 { x: self.x / scalar, y: self.y / scalar, z: self.z / scalar }
    }
}

impl<T: Number> DivAssign<T> for Vec3<T> {
    /// Divides the vector by `scalar` in place; as for `/`, the caller passes
    /// a scalar that is not zero.
    fn div_assign(&mut self, scalar: T)
        requires
            old(self).div_req(scalar),
        ensures
            *final(self) == old(self).div_spec(scalar),
            final(self)@ == old(self)@.over(scalar.value()),
    {
        proof {
            T::lemma_operators(self.x, scalar);
            T::lemma_operators(self.y, scalar);
            T::lemma_operators(self.z, scalar);
        }
        self.x = self.x / scalar;
        self.y = self.y / scalar;
        self.z = self.z / scalar;
    }
}

/// Two vectors that stand for the same integer vector are the same vector.
pub proof fn lemma_view_unique<T: Number>(u: Vec3<T>, v: Vec3<T>)
    requires
        u@ == v@,
    ensures
        u == v,
{
    T::lemma_value(u.x, v.x);
    T::lemma_value(u.y, v.y);
    T::lemma_value(u.z, v.z);
}

/// Where the vector operators may be applied, what they return stands for
/// the exact sum, difference, multiple and quotient.
pub proof fn lemma_exact<T: Number>(u: Vec3<T>, v: Vec3<T>, k: T)
    ensures
        u.add_req(v) ==> u.add_spec(v)@ == u@.plus(v@),
        u.sub_req(v) ==> u.sub_spec(v)@ == u@.minus(v@),
        u.mul_req(k) ==> u.mul_spec(k)@ == u@.scale(k.value()),
        u.div_req(k) ==> u.div_spec(k)@ == u@.over(k.value()),
{
    T::lemma_operators(u.x, v.x);
    T::lemma_operators(u.y, v.y);
    T::lemma_operators(u.z, v.z);
    T::lemma_operators(u.x, k);
    T::lemma_operators(u.y, k);
    T::lemma_operators(u.z, k);
}

/// Addition of vectors is commutative: `u + v` can be computed exactly
/// where `v + u` can, and they are the same vector.
pub proof fn lemma_add_commutative<T: Number>(u: Vec3<T>, v: Vec3<T>)
    ensures
        u@.plus(v@) == v@.plus(u@),
        u.add_req(v) == v.add_req(u),
        u.add_req(v) ==> u.add_spec(v) == v.add_spec(u),
{
    if u.add_req(v) {
        lemma_exact(u, v, u.x);
        lemma_exact(v, u, u.x);
        lemma_view_unique(u.add_spec(v), v.add_spec(u));
    }
}

/// Addition of vectors is associative: the exact sums agree, and so do the
/// computed ones wherever both ways of adding stay in range.
pub proof fn lemma_add_associative<T: Number>(u: Vec3<T>, v: Vec3<T>, w: Vec3<T>)
    ensures
        u@.plus(v@.plus(w@)) == u@.plus(v@).plus(w@),
        v.add_req(w) && u.add_req(v.add_spec(w)) && u.add_req(v) && u.add_spec(v).add_req(w)
            ==> u.add_spec(v.add_spec(w)) == u.add_spec(v).add_spec(w),
{
    if v.add_req(w) && u.add_req(v.add_spec(w)) && u.add_req(v) && u.add_spec(v).add_req(w) {
        lemma_exact(v, w, u.x);
        lemma_exact(u, v.add_spec(w), u.x);
        lemma_exact(u, v, u.x);
        lemma_exact(u.add_spec(v), w, u.x);
        lemma_view_unique(u.add_spec(v.add_spec(w)), u.add_spec(v).add_spec(w));
    }
}

/// Adding the zero vector can always be computed and changes nothing.
pub proof fn lemma_add_zero<T: Number>(u: Vec3<T>, zero: Vec3<T>)
    requires
        zero@ == IntVector::zero(),
    ensures
        u@.plus(zero@) == u@,
        u.add_req(zero),
        u.add_spec(zero) == u,
{
    T::lemma_value(u.x, u.x);
    T::lemma_value(u.y, u.y);
    T::lemma_value(u.z, u.z);
    lemma_exact(u, zero, u.x);
    lemma_view_unique(u.add_spec(zero), u);
}

/// A vector minus itself can always be computed and is the zero vector.
pub proof fn lemma_sub_self<T: Number>(u: Vec3<T>, zero: Vec3<T>)
    requires
        zero@ == IntVector::zero(),
    ensures
        u@.minus(u@) == zero@,
        u.sub_req(u),
        u.sub_spec(u) == zero,
{
    T::lemma_value(zero.x, zero.x);
    lemma_exact(u, u, u.x);
    lemma_view_unique(u.sub_spec(u), zero);
}

/// The dot product is commutative: `dot(u, v)` can be computed exactly where
/// `dot(v, u)` can, and they stand for the same integer.
pub proof fn lemma_dot_commutative<T: Number>(u: Vec3<T>, v: Vec3<T>)
    ensures
        u@.dot(v@) == v@.dot(u@),
        Vec3::<T>::dot_in_range(u@, v@) == Vec3::<T>::dot_in_range(v@, u@),
{
    assert(u@.x * v@.x == v@.x * u@.x) by (nonlinear_arith);
    assert(u@.y * v@.y == v@.y * u@.y) by (nonlinear_arith);
    assert(u@.z * v@.z == v@.z * u@.z) by (nonlinear_arith);
}

/// The cross product is anticommutative: swapping the arguments negates it.
pub proof fn lemma_cross_anticommutative<T: Number>(u: Vec3<T>, v: Vec3<T>)
    ensures
        u@.cross(v@) == v@.cross(u@).negate(),
{
}

} // verus!
