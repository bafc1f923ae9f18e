//! The quaternion type, its mathematical model, and its arithmetic.

use vstd::prelude::*;

verus! {

/// Mathematical model of a quaternion: four unbounded integer components.
/// `x` is the real part; `y`, `z`, `w` are the coefficients of the basis
/// elements `i`, `j`, `k`.
pub ghost struct Quat {
    pub x: int,
    pub y: int,
    pub z: int,
    pub w: int,
}

impl Quat {
    /// The zero quaternion.
    pub open spec fn zero() -> Quat {
        Quat { x: 0, y: 0, z: 0, w: 0 }
    }

    /// The multiplicative identity.
    pub open spec fn one() -> Quat {
        Quat { x: 1, y: 0, z: 0, w: 0 }
    }

    /// The squared Euclidean norm: the sum of the squares of the four
    /// components.  Despite the name this is not the square root.
    pub open spec fn norm(self) -> int {
        self.x * self.x + self.y * self.y + self.z * self.z + self.w * self.w
    }

    /// Component-wise negation.
    pub open spec fn neg(self) -> Quat {
        Quat { x: -self.x, y: -self.y, z: -self.z, w: -self.w }
    }

    /// Component-wise sum.
    pub open spec fn add(self, rhs: Quat) -> Quat {
        Quat {
            x: self.x + rhs.x,
            y: self.y + rhs.y,
            z: self.z + rhs.z,
            w: self.w + rhs.w,
        }
    }

    /// Component-wise difference, `self` minus `rhs`.
    pub open spec fn sub(self, rhs: Quat) -> Quat {
        Quat {
            x: self.x - rhs.x,
            y: self.y - rhs.y,
            z: self.z - rhs.z,
            w: self.w - rhs.w,
        }
    }

    /// The Hamilton product.  The exact term ordering and sign pattern
    /// matter: quaternion multiplication is non-commutative.
    pub open spec fn mul(self, rhs: Quat) -> Quat {
        Quat {
            x: self.x * rhs.x - self.y * rhs.y - self.z * rhs.z - self.w * rhs.w,
            y: self.x * rhs.y + rhs.x * self.y + self.z * rhs.w - self.w * rhs.z,
            z: self.x * rhs.z - self.y * rhs.w + rhs.x * self.z + self.w * rhs.y,
            w: self.x * rhs.w + self.y * rhs.z - self.z * rhs.y + rhs.x * self.w,
        }
    }

    /// Division as implemented by [`Quaternion::div`]: each component of
    /// the Hamilton product `self * rhs` is divided by the square of the
    /// squared norm of `rhs`, with the quotient truncated toward zero.
    /// Note that the divisor's squared norm enters twice and no conjugate
    /// is taken, so this is not the usual quaternion quotient
    /// `self * conjugate(rhs) / norm(rhs)`.
    pub open spec fn div(self, rhs: Quat) -> Quat {
        let p = self.mul(rhs);
        let d = rhs.norm() * rhs.norm();
        Quat { x: quot(p.x, d), y: quot(p.y, d), z: quot(p.z, d), w: quot(p.w, d) }
    }

    /// Whether every component fits in a 32-bit signed integer.
    pub open spec fn fits(self) -> bool {
        &&& i32::MIN <= self.x <= i32::MAX
        &&& i32::MIN <= self.y <= i32::MAX
        &&& i32::MIN <= self.z <= i32::MAX
        &&& i32::MIN <= self.w <= i32::MAX
    }
}

/// Integer division with the quotient truncated toward zero, the rounding
/// of the `/` operator on Rust's signed integer types.
pub open spec fn quot(a: int, b: int) -> int
    recommends
        b != 0,
{
    if a >= 0 {
        a / b
    } else {
        -((-a) / b)
    }
}

/// The square of an integer is never negative.
proof fn lemma_square_nonneg(a: int)
    ensures
        a * a >= 0,
{
    assert(a * a >= 0) by (nonlinear_arith);
}

/// The square of a nonzero integer is at least one.
proof fn lemma_square_pos(a: int)
    requires
        a != 0,
    ensures
        a * a >= 1,
{
    assert(a * a >= 1) by (nonlinear_arith)
        requires
            a != 0,
    ;
}

/// A product of two factors from the 32-bit signed range stays within
/// the 62-bit range.
proof fn lemma_product_bounds(a: int, b: int)
    requires
        -0x8000_0000 <= a <= 0x7fff_ffff,
        -0x8000_0000 <= b <= 0x7fff_ffff,
    ensures
        -0x4000_0000_0000_0000 <= a * b <= 0x4000_0000_0000_0000,
        -0x4000_0000_0000_0000 <= b * a <= 0x4000_0000_0000_0000,
{
    assert(-0x4000_0000_0000_0000 <= a * b <= 0x4000_0000_0000_0000 && a * b == b * a)
        by (nonlinear_arith)
        requires
            -0x8000_0000 <= a <= 0x7fff_ffff,
            -0x8000_0000 <= b <= 0x7fff_ffff,
    ;
}

/// A quotient truncated toward zero lies between zero and the dividend.
proof fn lemma_quot_bounds(a: int, b: int)
    requires
        b >= 1,
    ensures
        a >= 0 ==> 0 <= quot(a, b) <= a,
        a < 0 ==> a <= quot(a, b) <= 0,
{
    if a >= 0 {
        vstd::arithmetic::div_mod::lemma_div_pos_is_pos(a, b);
        vstd::arithmetic::div_mod::lemma_div_nonincreasing(a, b);
    } else {
        vstd::arithmetic::div_mod::lemma_div_pos_is_pos(-a, b);
        vstd::arithmetic::div_mod::lemma_div_nonincreasing(-a, b);
    }
}

/// A quaternion with 32-bit signed integer components.  `x` is the real
/// part; `y`, `z`, `w` are the coefficients of `i`, `j`, `k`.
#[derive(PartialEq, Eq, Structural, Debug)]
pub struct Quaternion {
    pub x: i32,
    pub y: i32,
    pub z: i32,
    pub w: i32,
}

impl View for Quaternion {
    type V = Quat;

    open spec fn view(&self) -> Quat {
        Quat { x: self.x as int, y: self.y as int, z: self.z as int, w: self.w as int }
    }
}

impl Clone for Quaternion {
    /// An independent copy with the same four components.
    fn clone(&self) -> (r: Self)
        ensures
            r == *self,
    {
        Quaternion { x: self.x, y: self.y, z: self.z, w: self.w }
    }
}

impl Quaternion {
    /// Builds a quaternion from its four components; never fails.
    pub fn new(x: i32, y: i32, z: i32, w: i32) -> (q: Quaternion)
        ensures
            q@ == (Quat { x: x as int, y: y as int, z: z as int, w: w as int }),
    {
        Quaternion { x, y, z, w }
    }

    /// The four components in order.
    pub fn to_tuple(&self) -> (t: (i32, i32, i32, i32))
        ensures
            t.0 == self@.x && t.1 == self@.y && t.2 == self@.z && t.3 == self@.w,
    {
        (self.x, self.y, self.z, self.w)
    }

    /// The squared Euclidean norm `x*x + y*y + z*z + w*w`.  Despite the
    /// name this is the sum of squares, not its square root.
    pub fn norm(&self) -> (n: i32)
        requires
            self@.norm() <= i32::MAX,
        ensures
            n == self@.norm(),
    {
        proof {
            lemma_square_nonneg(self@.x);
            lemma_square_nonneg(self@.y);
            lemma_square_nonneg(self@.z);
            lemma_square_nonneg(self@.w);
            lemma_product_bounds(self@.x, self@.x);
            lemma_product_bounds(self@.y, self@.y);
            lemma_product_bounds(self@.z, self@.z);
            lemma_product_bounds(self@.w, self@.w);
        }
        let xx: i64 = (self.x as i64) * (self.x as i64);
        let yy: i64 = (self.y as i64) * (self.y as i64);
        let zz: i64 = (self.z as i64) * (self.z as i64);
        let ww: i64 = (self.w as i64) * (self.w as i64);
        let s: i64 = xx + yy + zz + ww;
        s as i32
    }

    /// Component-wise negation.
    pub fn neg(&self) -> (r: Quaternion)
        requires
            self@.neg().fits(),
        ensures
            r@ == self@.neg(),
    {
        Quaternion { x: -self.x, y: -self.y, z: -self.z, w: -self.w }
    }

    /// Component-wise sum.
    pub fn add(&self, rhs: &Quaternion) -> (r: Quaternion)
        requires
            self@.add(rhs@).fits(),
        ensures
            r@ == self@.add(rhs@),
    {
        Quaternion {
            x: self.x + rhs.x,
            y: self.y + rhs.y,
            z: self.z + rhs.z,
            w: self.w + rhs.w,
        }
    }

    /// Component-wise difference, `self` minus `rhs`.
    pub fn sub(&self, rhs: &Quaternion) -> (r: Quaternion)
        requires
            self@.sub(rhs@).fits(),
        ensures
            r@ == self@.sub(rhs@),
    {
        Quaternion {
            x: self.x - rhs.x,
            y: self.y - rhs.y,
            z: self.z - rhs.z,
            w: self.w - rhs.w,
        }
    }

    /// The Hamilton product of `self` and `rhs`.
    pub fn mul(&self, rhs: &Quaternion) -> (r: Quaternion)
        requires
            self@.mul(rhs@).fits(),
        ensures
            r@ == self@.mul(rhs@),
    {
        proof {
            lemma_all_product_bounds(self@, rhs@);
        }
        let x1: i128 = self.x as i128;
        let y1: i128 = self.y as i128;
        let z1: i128 = self.z as i128;
        let w1: i128 = self.w as i128;
        let x2: i128 = rhs.x as i128;
        let y2: i128 = rhs.y as i128;
        let z2: i128 = rhs.z as i128;
        let w2: i128 = rhs.w as i128;
        let rx: i128 = x1 * x2 - y1 * y2 - z1 * z2 - w1 * w2;
        let ry: i128 = x1 * y2 + x2 * y1 + z1 * w2 - w1 * z2;
        let rz: i128 = x1 * z2 - y1 * w2 + x2 * z1 + w1 * y2;
        let rw: i128 = x1 * w2 + y1 * z2 - z1 * y2 + x2 * w1;
        Quaternion { x: rx as i32, y: ry as i32, z: rz as i32, w: rw as i32 }
    }

    /// Divides each component of the Hamilton product `self * rhs` by the
    /// square of the squared norm of `rhs`, truncating toward zero.  The
    /// divisor's squared norm enters twice and no conjugate is taken; see
    /// [`Quat::div`].
    pub fn div(&self, rhs: &Quaternion) -> (r: Quaternion)
        requires
            rhs@.norm() != 0,
            rhs@.norm() * rhs@.norm() <= i128::MAX,
            self@.div(rhs@).fits(),
        ensures
            r@ == self@.div(rhs@),
    {
        proof {
            lemma_all_product_bounds(self@, rhs@);
            lemma_square_nonneg(rhs@.x);
            lemma_square_nonneg(rhs@.y);
            lemma_square_nonneg(rhs@.z);
            lemma_square_nonneg(rhs@.w);
            lemma_product_bounds(rhs@.x, rhs@.x);
            lemma_product_bounds(rhs@.y, rhs@.y);
            lemma_product_bounds(rhs@.z, rhs@.z);
            lemma_product_bounds(rhs@.w, rhs@.w);
            lemma_square_pos(rhs@.norm());
        }
        let x1: i128 = self.x as i128;
        let y1: i128 = self.y as i128;
        let z1: i128 = self.z as i128;
        let w1: i128 = self.w as i128;
        let x2: i128 = rhs.x as i128;
        let y2: i128 = rhs.y as i128;
        let z2: i128 = rhs.z as i128;
        let w2: i128 = rhs.w as i128;
        let nx: i128 = x1 * x2 - y1 * y2 - z1 * z2 - w1 * w2;
        let ny: i128 = x1 * y2 + x2 * y1 + z1 * w2 - w1 * z2;
        let nz: i128 = x1 * z2 - y1 * w2 + x2 * z1 + w1 * y2;
        let nw: i128 = x1 * w2 + y1 * z2 - z1 * y2 + x2 * w1;
        let n: i128 = x2 * x2 + y2 * y2 + z2 * z2 + w2 * w2;
        let d: i128 = n * n;
        proof {
            lemma_quot_bounds(nx as int, d as int);
            lemma_quot_bounds(ny as int, d as int);
            lemma_quot_bounds(nz as int, d as int);
            lemma_quot_bounds(nw as int, d as int);
        }
        let rx: i128 = nx / d;
        let ry: i128 = ny / d;
        let rz: i128 = nz / d;
        let rw: i128 = nw / d;
        Quaternion { x: rx as i32, y: ry as i32, z: rz as i32, w: rw as i32 }
    }
}

/// Addition of quaternions commutes: for all quaternions `a` and `b`,
/// `a + b` equals `b + a`.
pub proof fn lemma_add_commutes(a: Quat, b: Quat)
    ensures
        a.add(b) == b.add(a),
{
}

/// Adding a quaternion to its negation gives the zero quaternion,
/// component by component.
pub proof fn lemma_add_neg_is_zero(a: Quat)
    ensures
        a.add(a.neg()) == Quat::zero(),
{
}

/// The squared norm is never negative, and it is exactly the sum of the
/// squares of the four components (which is its definition).
pub proof fn lemma_norm_nonneg(a: Quat)
    ensures
        a.norm() >= 0,
{
    lemma_square_nonneg(a.x);
    lemma_square_nonneg(a.y);
    lemma_square_nonneg(a.z);
    lemma_square_nonneg(a.w);
}

/// The quaternion `1` is a left identity of the Hamilton product:
/// `(1, 0, 0, 0) * q` equals `q` for every quaternion `q`.
pub proof fn lemma_one_mul(q: Quat)
    ensures
        Quat::one().mul(q) == q,
{
    assert(Quat::one().mul(q).x == q.x) by (nonlinear_arith);
    assert(Quat::one().mul(q).y == q.y) by (nonlinear_arith);
    assert(Quat::one().mul(q).z == q.z) by (nonlinear_arith);
    assert(Quat::one().mul(q).w == q.w) by (nonlinear_arith);
}

/// The Hamilton product is not commutative: there are quaternions `a`
/// and `b` with `a * b != b * a` (for instance `i * j == k` while
/// `j * i == -k`).
pub proof fn lemma_mul_not_commutative()
    ensures
        exists|a: Quat, b: Quat| #[trigger] a.mul(b) != #[trigger] b.mul(a),
{
    let a = Quat { x: 0, y: 1, z: 0, w: 0 };
    let b = Quat { x: 0, y: 0, z: 1, w: 0 };
    assert(a.mul(b).w == 1);
    assert(b.mul(a).w == -1);
    assert(a.mul(b) != b.mul(a));
}

/// Bounds on all sixteen pairwise products of the components of two
/// quaternions whose components fit in 32 bits.
proof fn lemma_all_product_bounds(a: Quat, b: Quat)
    requires
        a.fits(),
        b.fits(),
    ensures
        -0x4000_0000_0000_0000 <= a.x * b.x <= 0x4000_0000_0000_0000,
        -0x4000_0000_0000_0000 <= a.x * b.y <= 0x4000_0000_0000_0000,
        -0x4000_0000_0000_0000 <= a.x * b.z <= 0x4000_0000_0000_0000,
        -0x4000_0000_0000_0000 <= a.x * b.w <= 0x4000_0000_0000_0000,
        -0x4000_0000_0000_0000 <= a.y * b.x <= 0x4000_0000_0000_0000,
        -0x4000_0000_0000_0000 <= a.y * b.y <= 0x4000_0000_0000_0000,
        -0x4000_0000_0000_0000 <= a.y * b.z <= 0x4000_0000_0000_0000,
        -0x4000_0000_0000_0000 <= a.y * b.w <= 0x4000_0000_0000_0000,
        -0x4000_0000_0000_0000 <= a.z * b.x <= 0x4000_0000_0000_0000,
        -0x4000_0000_0000_0000 <= a.z * b.y <= 0x4000_0000_0000_0000,
        -0x4000_0000_0000_0000 <= a.z * b.z <= 0x4000_0000_0000_0000,
        -0x4000_0000_0000_0000 <= a.z * b.w <= 0x4000_0000_0000_0000,
        -0x4000_0000_0000_0000 <= a.w * b.x <= 0x4000_0000_0000_0000,
        -0x4000_0000_0000_0000 <= a.w * b.y <= 0x4000_0000_0000_0000,
        -0x4000_0000_0000_0000 <= a.w * b.z <= 0x4000_0000_0000_0000,
        -0x4000_0000_0000_0000 <= a.w * b.w <= 0x4000_0000_0000_0000,
        -0x4000_0000_0000_0000 <= b.x * a.y <= 0x4000_0000_0000_0000,
        -0x4000_0000_0000_0000 <= b.x * a.z <= 0x4000_0000_0000_0000,
        -0x4000_0000_0000_0000 <= b.x * a.w <= 0x4000_0000_0000_0000,
{
    lemma_product_bounds(a.x, b.x);
    lemma_product_bounds(a.x, b.y);
    lemma_product_bounds(a.x, b.z);
    lemma_product_bounds(a.x, b.w);
    lemma_product_bounds(a.y, b.x);
    lemma_product_bounds(a.y, b.y);
    lemma_product_bounds(a.y, b.z);
    lemma_product_bounds(a.y, b.w);
    lemma_product_bounds(a.z, b.x);
    lemma_product_bounds(a.z, b.y);
    lemma_product_bounds(a.z, b.z);
    lemma_product_bounds(a.z, b.w);
    lemma_product_bounds(a.w, b.x);
    lemma_product_bounds(a.w, b.y);
    lemma_product_bounds(a.w, b.z);
    lemma_product_bounds(a.w, b.w);
}

} // verus!
