use vstd::prelude::*;
use crate::vec3::{Vec3, divided, fits_i64, scaled, sum_of};

verus! {

/// A three-component vector with public fields and only the linear
/// operations.
#[derive(Debug)]
pub struct V3<T> {
    pub x: T,
    pub y: T,
    pub z: T,
}

impl View for V3<i64> {
    type V = Vec3<int>;

    open spec fn view(&self) -> Vec3<int> {
        Vec3 { x: self.x as int, y: self.y as int, z: self.z as int }
    }
}

impl V3<i64> {
    fn to_vec3(&self) -> (r: Vec3<i64>)
        ensures
            r@ == self@,
    {
        Vec3 { x: self.x, y: self.y, z: self.z }
    }

    fn from_vec3(v: Vec3<i64>) -> (r: V3<i64>)
        ensures
            r@ == v@,
    {
        V3 { x: v.x, y: v.y, z: v.z }
    }

    /// Component-wise sum.
    pub fn add(self, other: V3<i64>) -> (r: V3<i64>)
        requires
            fits_i64(sum_of(self@, other@)),
        ensures
            r@ == sum_of(self@, other@),
    {
        V3::from_vec3(self.to_vec3().add(other.to_vec3()))
    }

    /// Adds `other` in place.
    pub fn add_assign(&mut self, other: V3<i64>)
        requires
            fits_i64(sum_of(old(self)@, other@)),
        ensures
            final(self)@ == sum_of(old(self)@, other@),
    {
        *self = V3::from_vec3(self.to_vec3().add(other.to_vec3()));
    }

    /// Multiplication by a scalar.
    pub fn mul(self, c: i64) -> (r: V3<i64>)
        requires
            fits_i64(scaled(self@, c as int)),
        ensures
            r@ == scaled(self@, c as int),
    {
        V3::from_vec3(self.to_vec3().mul(c))
    }

    /// Multiplies by a scalar in place.
    pub fn mul_assign(&mut self, c: i64)
        requires
            fits_i64(scaled(old(self)@, c as int)),
        ensures
            final(self)@ == scaled(old(self)@, c as int),
    {
        *self = V3::from_vec3(self.to_vec3().mul(c));
    }

    /// Division by a scalar, rounded toward zero; the zero vector when `d` is
    /// zero.
    pub fn div(self, d: i64) -> (r: V3<i64>)
        requires
            fits_i64(divided(self@, d as int)),
        ensures
            r@ == divided(self@, d as int),
    {
        V3::from_vec3(self.to_vec3().div(d))
    }

    /// Divides by a scalar in place, as `div` does.
    pub fn div_assign(&mut self, d: i64)
        requires
            fits_i64(divided(old(self)@, d as int)),
        ensures
            final(self)@ == divided(old(self)@, d as int),
    {
        *self = V3::from_vec3(self.to_vec3().div(d));
    }

    /// The component at `index`: 0 is `x`, 1 is `y`, 2 is `z`.
    pub fn index(&self, index: u8) -> (r: i64)
        requires
            index < 3,
        ensures
            index == 0 ==> r == self.x,
            index == 1 ==> r == self.y,
            index == 2 ==> r == self.z,
    {
        self.to_vec3().index(index)
    }
}

} // verus!
