use vstd::prelude::*;

verus! {

/// Largest coordinate magnitude for which `dot`, `cross` and `len_squared`
/// stay within `i64`: each product is at most 2^60 and three of them sum to
/// less than 2^63.
pub const DOT_LIMIT: i64 = 0x4000_0000;

/// Largest coordinate magnitude for which `reflect` stays within `i64`: the
/// dot product is below 2^40, and twice its product with a coordinate of the
/// normal below 2^62.
pub const REFLECT_LIMIT: i64 = 0x8_0000;

/// A three-component vector.
#[derive(Debug, Clone, Copy)]
pub struct Vec3<T> {
    pub x: T,
    pub y: T,
    pub z: T,
}

/// Every component lies in `[-b, b]`.
pub open spec fn bounded(v: Vec3<int>, b: int) -> bool {
    -b <= v.x <= b && -b <= v.y <= b && -b <= v.z <= b
}

/// Every component is a value of `i64`.
pub open spec fn fits_i64(v: Vec3<int>) -> bool {
    i64::MIN <= v.x <= i64::MAX && i64::MIN <= v.y <= i64::MAX && i64::MIN <= v.z <= i64::MAX
}

pub open spec fn abs(a: int) -> int {
    if a < 0 {
        -a
    } else {
        a
    }
}

/// Integer quotient rounded toward zero, as Rust's `/` computes it.
pub open spec fn quot(a: int, d: int) -> int {
    if a >= 0 && d > 0 {
        a / d
    } else if a < 0 && d < 0 {
        (-a) / (-d)
    } else if a >= 0 {
        -(a / (-d))
    } else {
        -((-a) / d)
    }
}

/// Each component divided by `d`, rounded toward zero; the zero vector when
/// `d` is zero.
pub open spec fn divided(a: Vec3<int>, d: int) -> Vec3<int> {
    if d == 0 {
        Vec3 { x: 0, y: 0, z: 0 }
    } else {
        Vec3 { x: quot(a.x, d), y: quot(a.y, d), z: quot(a.z, d) }
    }
}

pub open spec fn sum_of(a: Vec3<int>, b: Vec3<int>) -> Vec3<int> {
    Vec3 { x: a.x + b.x, y: a.y + b.y, z: a.z + b.z }
}

pub open spec fn diff_of(a: Vec3<int>, b: Vec3<int>) -> Vec3<int> {
    Vec3 { x: a.x - b.x, y: a.y - b.y, z: a.z - b.z }
}

pub open spec fn neg_of(a: Vec3<int>) -> Vec3<int> {
    Vec3 { x: -a.x, y: -a.y, z: -a.z }
}

pub open spec fn scaled(a: Vec3<int>, c: int) -> Vec3<int> {
    Vec3 { x: c * a.x, y: c * a.y, z: c * a.z }
}

pub open spec fn dot_of(a: Vec3<int>, b: Vec3<int>) -> int {
    a.x * b.x + a.y * b.y + a.z * b.z
}

/// Right-handed cross product.
pub open spec fn cross_of(a: Vec3<int>, b: Vec3<int>) -> Vec3<int> {
    Vec3 {
        x: a.y * b.z - a.z * b.y,
        y: a.z * b.x - a.x * b.z,
        z: a.x * b.y - a.y * b.x,
    }
}

/// Mirror image of `v` about the plane with normal `n`: `v - 2 (v . n) n`.
pub open spec fn reflect_of(v: Vec3<int>, n: Vec3<int>) -> Vec3<int> {
    diff_of(v, scaled(n, 2 * dot_of(v, n)))
}

impl View for Vec3<i64> {
    type V = Vec3<int>;

    open spec fn view(&self) -> Vec3<int> {
        Vec3 { x: self.x as int, y: self.y as int, z: self.z as int }
    }
}

impl<T: Copy> Vec3<T> {
    /// New vector.
    pub fn new(x: T, y: T, z: T) -> (r: Vec3<T>)
        ensures
            r.x == x,
            r.y == y,
            r.z == z,
    {
        Vec3 { x, y, z }
    }

    pub fn x(&self) -> (r: T)
        ensures
            r == self.x,
    {
        self.x
    }

    pub fn y(&self) -> (r: T)
        ensures
            r == self.y,
    {
        self.y
    }

    pub fn z(&self) -> (r: T)
        ensures
            r == self.z,
    {
        self.z
    }

    /// The component at `index`: 0 is `x`, 1 is `y`, 2 is `z`.
    pub fn index(&self, index: u8) -> (r: T)
        requires
            index < 3,
        ensures
            index == 0 ==> r == self.x,
            index == 1 ==> r == self.y,
            index == 2 ==> r == self.z,
    {
        if index == 0 {
            self.x
        } else if index == 1 {
            self.y
        } else {
            self.z
        }
    }

    /// Iterates over `x`, `y`, `z` in that order.
    pub fn into_iter(self) -> (r: Vec3IntoIter<T>)
        ensures
            r.vec3 == self,
            r.index == 0,
    {
        Vec3IntoIter { vec3: self, index: 0 }
    }
}

impl Vec3<i64> {
    /// Vector dot product.
    pub fn dot(&self, other: &Vec3<i64>) -> (r: i64)
        requires
            bounded(self@, DOT_LIMIT as int),
            bounded(other@, DOT_LIMIT as int),
        ensures
            r == dot_of(self@, other@),
    {
        proof {
            lemma_dot_bound(self@, other@, DOT_LIMIT as int);
        }
        self.x * other.x + self.y * other.y + self.z * other.z
    }

    /// Vector cross product (right-handed).
    pub fn cross(&self, other: &Vec3<i64>) -> (r: Vec3<i64>)
        requires
            bounded(self@, DOT_LIMIT as int),
            bounded(other@, DOT_LIMIT as int),
        ensures
            r@ == cross_of(self@, other@),
    {
        proof {
            lemma_product_bound(self.y as int, other.z as int, DOT_LIMIT as int);
            lemma_product_bound(self.z as int, other.y as int, DOT_LIMIT as int);
            lemma_product_bound(self.z as int, other.x as int, DOT_LIMIT as int);
            lemma_product_bound(self.x as int, other.z as int, DOT_LIMIT as int);
            lemma_product_bound(self.x as int, other.y as int, DOT_LIMIT as int);
            lemma_product_bound(self.y as int, other.x as int, DOT_LIMIT as int);
        }
        Vec3 {
            x: self.y * other.z - self.z * other.y,
            y: self.z * other.x - self.x * other.z,
            z: self.x * other.y - self.y * other.x,
        }
    }

    /// Squared length: the dot product of the vector with itself.
    pub fn len_squared(&self) -> (r: i64)
        requires
            bounded(self@, DOT_LIMIT as int),
        ensures
            r == dot_of(self@, self@),
            r >= 0,
    {
        proof {
            lemma_square_nonneg(self.x as int);
            lemma_square_nonneg(self.y as int);
            lemma_square_nonneg(self.z as int);
        }
        self.dot(self)
    }

    /// Whether the vector is degenerate as a direction. On the integer
    /// lattice the only vector shorter than one unit is the zero vector.
    pub fn near_zero(&self) -> (r: bool)
        ensures
            r == (self.x == 0 && self.y == 0 && self.z == 0),
    {
        self.x == 0 && self.y == 0 && self.z == 0
    }

    /// Mirror image about the plane with normal `normal`:
    /// `self - 2 (self . normal) normal`.
    pub fn reflect(&self, normal: &Vec3<i64>) -> (r: Vec3<i64>)
        requires
            bounded(self@, REFLECT_LIMIT as int),
            bounded(normal@, REFLECT_LIMIT as int),
        ensures
            r@ == reflect_of(self@, normal@),
    {
        let d = self.dot(normal);
        proof {
            lemma_dot_bound(self@, normal@, REFLECT_LIMIT as int);
            let bd = 3 * (REFLECT_LIMIT as int) * (REFLECT_LIMIT as int);
            lemma_product_bound2(normal.x as int, d as int, REFLECT_LIMIT as int, bd);
            lemma_product_bound2(normal.y as int, d as int, REFLECT_LIMIT as int, bd);
            lemma_product_bound2(normal.z as int, d as int, REFLECT_LIMIT as int, bd);
        }
        let twice = normal.mul(d).mul(2);
        proof {
            lemma_twice_scaled(normal@, d as int);
        }
        self.sub(twice)
    }

    /// Component-wise sum.
    pub fn add(self, other: Vec3<i64>) -> (r: Vec3<i64>)
        requires
            fits_i64(sum_of(self@, other@)),
        ensures
            r@ == sum_of(self@, other@),
    {
        Vec3 { x: self.x + other.x, y: self.y + other.y, z: self.z + other.z }
    }

    /// Adds `other` in place.
    pub fn add_assign(&mut self, other: Vec3<i64>)
        requires
            fits_i64(sum_of(old(self)@, other@)),
        ensures
            final(self)@ == sum_of(old(self)@, other@),
    {
        *self = Vec3 { x: self.x + other.x, y: self.y + other.y, z: self.z + other.z };
    }

    /// Component-wise difference.
    pub fn sub(self, other: Vec3<i64>) -> (r: Vec3<i64>)
        requires
            fits_i64(diff_of(self@, other@)),
        ensures
            r@ == diff_of(self@, other@),
    {
        Vec3 { x: self.x - other.x, y: self.y - other.y, z: self.z - other.z }
    }

    /// Negation.
    pub fn neg(self) -> (r: Vec3<i64>)
        requires
            fits_i64(neg_of(self@)),
        ensures
            r@ == neg_of(self@),
    {
        Vec3 { x: -self.x, y: -self.y, z: -self.z }
    }

    /// Multiplication by a scalar.
    pub fn mul(self, c: i64) -> (r: Vec3<i64>)
        requires
            fits_i64(scaled(self@, c as int)),
        ensures
            r@ == scaled(self@, c as int),
    {
        Vec3 { x: c * self.x, y: c * self.y, z: c * self.z }
    }

    /// Multiplies by a scalar in place.
    pub fn mul_assign(&mut self, c: i64)
        requires
            fits_i64(scaled(old(self)@, c as int)),
        ensures
            final(self)@ == scaled(old(self)@, c as int),
    {
        *self = Vec3 { x: c * self.x, y: c * self.y, z: c * self.z };
    }

    /// Division by a scalar, rounded toward zero. Division by zero gives the
    /// zero vector.
    pub fn div(self, d: i64) -> (r: Vec3<i64>)
        requires
            fits_i64(divided(self@, d as int)),
        ensures
            r@ == divided(self@, d as int),
    {
        if d == 0 {
            Vec3 { x: 0, y: 0, z: 0 }
        } else {
            assert(quot(i64::MIN as int, -1) > i64::MAX);
            Vec3 { x: quot_i64(self.x, d), y: quot_i64(self.y, d), z: quot_i64(self.z, d) }
        }
    }

    /// Divides by a scalar in place, as `div` does.
    pub fn div_assign(&mut self, d: i64)
        requires
            fits_i64(divided(old(self)@, d as int)),
        ensures
            final(self)@ == divided(old(self)@, d as int),
    {
        *self = self.div(d);
    }
}

/// `a / d` rounded toward zero.
fn quot_i64(a: i64, d: i64) -> (r: i64)
    requires
        d != 0,
        !(a == i64::MIN && d == -1),
    ensures
        r == quot(a as int, d as int),
{
    if d > 0 {
        a / d
    } else if d == i64::MIN {
        if a == i64::MIN {
            1
        } else {
            0
        }
    } else {
        let e: i64 = -d;
        proof {
            if e >= 2 {
                lemma_div_shrinks(abs(a as int), e as int);
            }
        }
        let q = a / e;
        -q
    }
}

proof fn lemma_div_shrinks(a: int, e: int)
    requires
        a >= 0,
        e >= 2,
    ensures
        a / e < a || a == 0,
{
    assert(a / e < a || a == 0) by (nonlinear_arith)
        requires
            a >= 0,
            e >= 2,
    ;
}

/// Walks the components of a vector in the order `x`, `y`, `z`.
pub struct Vec3IntoIter<T> {
    pub vec3: Vec3<T>,
    pub index: usize,
}

impl<T: Copy> Vec3IntoIter<T> {
    /// The next component, or `None` once all three have been handed out.
    pub fn next(&mut self) -> (r: Option<T>)
        ensures
            old(self).index == 0 ==> r == Some(old(self).vec3.x),
            old(self).index == 1 ==> r == Some(old(self).vec3.y),
            old(self).index == 2 ==> r == Some(old(self).vec3.z),
            old(self).index >= 3 ==> r.is_none(),
            final(self).vec3 == old(self).vec3,
            final(self).index == if old(self).index < 3 {
                old(self).index + 1
            } else {
                old(self).index as int
            },
    {
        let r = if self.index == 0 {
            Some(self.vec3.x)
        } else if self.index == 1 {
            Some(self.vec3.y)
        } else if self.index == 2 {
            Some(self.vec3.z)
        } else {
            None
        };
        if self.index < 3 {
            self.index = self.index + 1;
        }
        r
    }
}

/// Reflecting about a unit normal negates the component along the normal:
/// `reflect(v, n) . n == -(v . n)` whenever `n . n == 1`.
pub proof fn lemma_reflect_negates_normal_component(v: Vec3<int>, n: Vec3<int>)
    requires
        dot_of(n, n) == 1,
    ensures
        dot_of(reflect_of(v, n), n) == -dot_of(v, n),
{
    let k = 2 * dot_of(v, n);
    lemma_dot_sub_scaled(v, n, k);
}

/// `(v - k n) . n == v . n - k (n . n)`.
proof fn lemma_dot_sub_scaled(v: Vec3<int>, n: Vec3<int>, k: int)
    ensures
        dot_of(diff_of(v, scaled(n, k)), n) == dot_of(v, n) - k * dot_of(n, n),
{
    let (vx, vy, vz, nx, ny, nz) = (v.x, v.y, v.z, n.x, n.y, n.z);
    assert((vx - k * nx) * nx + (vy - k * ny) * ny + (vz - k * nz) * nz == (vx * nx + vy * ny
        + vz * nz) - k * (nx * nx + ny * ny + nz * nz)) by (nonlinear_arith);
}

proof fn lemma_square_nonneg(a: int)
    ensures
        a * a >= 0,
{
    assert(a * a >= 0) by (nonlinear_arith);
}

proof fn lemma_product_bound(a: int, b: int, lim: int)
    requires
        -lim <= a <= lim,
        -lim <= b <= lim,
    ensures
        -(lim * lim) <= a * b <= lim * lim,
{
    assert(-(lim * lim) <= a * b <= lim * lim) by (nonlinear_arith)
        requires
            -lim <= a <= lim,
            -lim <= b <= lim,
    ;
}

proof fn lemma_product_bound2(a: int, b: int, la: int, lb: int)
    requires
        -la <= a <= la,
        -lb <= b <= lb,
    ensures
        -(la * lb) <= a * b <= la * lb,
{
    assert(-(la * lb) <= a * b <= la * lb) by (nonlinear_arith)
        requires
            -la <= a <= la,
            -lb <= b <= lb,
    ;
}

proof fn lemma_dot_bound(a: Vec3<int>, b: Vec3<int>, lim: int)
    requires
        bounded(a, lim),
        bounded(b, lim),
    ensures
        -(lim * lim) <= a.x * b.x <= lim * lim,
        -(lim * lim) <= a.y * b.y <= lim * lim,
        -(lim * lim) <= a.z * b.z <= lim * lim,
        -3 * (lim * lim) <= dot_of(a, b) <= 3 * (lim * lim),
{
    lemma_product_bound(a.x, b.x, lim);
    lemma_product_bound(a.y, b.y, lim);
    lemma_product_bound(a.z, b.z, lim);
}

proof fn lemma_twice_scaled(n: Vec3<int>, d: int)
    ensures
        scaled(scaled(n, d), 2) == scaled(n, 2 * d),
{
    assert(2 * (d * n.x) == (2 * d) * n.x) by (nonlinear_arith);
    assert(2 * (d * n.y) == (2 * d) * n.y) by (nonlinear_arith);
    assert(2 * (d * n.z) == (2 * d) * n.z) by (nonlinear_arith);
}

} // verus!
