//! Fixed-point vectors and matrices for the solver.
//!
//! `Vec3` is a 3-vector of fixed-point scalars, `Mat3` a row-major 3x3
//! matrix (used for the square-root inverse world inertia tensor), and
//! `DeltaVel` the per-body velocity-delta accumulator of the PGS passes.
//! Every executable operation is pinned to a spec function over the same
//! fixed-point representation.

use vstd::prelude::*;

use crate::fx::fadd;
use crate::fx::fdiv;
use crate::fx::fmul;
use crate::fx::fneg;
use crate::fx::fsub;
use crate::fx::fx_add;
use crate::fx::fx_div;
use crate::fx::fx_mul;
use crate::fx::fx_neg;
use crate::fx::fx_sub;
use crate::fx::is_sqrt_floor;
use crate::fx::isqrt128;
use crate::fx::sat64;
use crate::fx::sqrt_floor;

verus! {

/// A 3-vector of fixed-point scalars.
#[derive(Clone, Copy, Debug, PartialEq, Eq, Structural)]
pub struct Vec3 {
    pub x: i64,
    pub y: i64,
    pub z: i64,
}

/// A row-major 3x3 matrix of fixed-point scalars.
#[derive(Clone, Copy, Debug, PartialEq, Eq, Structural)]
pub struct Mat3 {
    pub xx: i64,
    pub xy: i64,
    pub xz: i64,
    pub yx: i64,
    pub yy: i64,
    pub yz: i64,
    pub zx: i64,
    pub zy: i64,
    pub zz: i64,
}

/// Linear and angular velocity change accumulated for one body.
#[derive(Clone, Copy, Debug, PartialEq, Eq, Structural)]
pub struct DeltaVel {
    pub linear: Vec3,
    pub angular: Vec3,
}

pub open spec fn v_zero() -> Vec3 {
    Vec3 { x: 0, y: 0, z: 0 }
}

pub open spec fn v_add(a: Vec3, b: Vec3) -> Vec3 {
    Vec3 { x: fx_add(a.x, b.x), y: fx_add(a.y, b.y), z: fx_add(a.z, b.z) }
}

pub open spec fn v_sub(a: Vec3, b: Vec3) -> Vec3 {
    Vec3 { x: fx_sub(a.x, b.x), y: fx_sub(a.y, b.y), z: fx_sub(a.z, b.z) }
}

pub open spec fn v_neg(a: Vec3) -> Vec3 {
    Vec3 { x: fx_neg(a.x), y: fx_neg(a.y), z: fx_neg(a.z) }
}

/// Scale of a vector by a scalar, component by component.
pub open spec fn v_scale(a: Vec3, s: i64) -> Vec3 {
    Vec3 { x: fx_mul(a.x, s), y: fx_mul(a.y, s), z: fx_mul(a.z, s) }
}

/// Dot product, summed left to right: `(x*x' + y*y') + z*z'`.
pub open spec fn v_dot(a: Vec3, b: Vec3) -> i64 {
    fx_add(fx_add(fx_mul(a.x, b.x), fx_mul(a.y, b.y)), fx_mul(a.z, b.z))
}

/// Cross product.
pub open spec fn v_cross(a: Vec3, b: Vec3) -> Vec3 {
    Vec3 {
        x: fx_sub(fx_mul(a.y, b.z), fx_mul(a.z, b.y)),
        y: fx_sub(fx_mul(a.z, b.x), fx_mul(a.x, b.z)),
        z: fx_sub(fx_mul(a.x, b.y), fx_mul(a.y, b.x)),
    }
}

/// Matrix-vector product, each component a left-to-right dot of one row.
pub open spec fn m_mul_v(m: Mat3, v: Vec3) -> Vec3 {
    Vec3 {
        x: fx_add(fx_add(fx_mul(m.xx, v.x), fx_mul(m.xy, v.y)), fx_mul(m.xz, v.z)),
        y: fx_add(fx_add(fx_mul(m.yx, v.x), fx_mul(m.yy, v.y)), fx_mul(m.yz, v.z)),
        z: fx_add(fx_add(fx_mul(m.zx, v.x), fx_mul(m.zy, v.y)), fx_mul(m.zz, v.z)),
    }
}

/// Euclidean norm of a vector in the fixed-point representation: the floor
/// square root of the sum of the squared raw components, saturated.
pub open spec fn v_norm(a: Vec3) -> i64 {
    sat64(
        sqrt_floor(
            (a.x as int) * (a.x as int) + (a.y as int) * (a.y as int) + (a.z as int) * (
            a.z as int),
        ),
    ) as i64
}

/// The vector scaled to unit norm (component-wise fixed-point division by
/// the norm); the zero vector stays zero.
pub open spec fn v_normalize(a: Vec3) -> Vec3 {
    let n = v_norm(a);
    if n > 0 {
        Vec3 { x: fx_div(a.x, n), y: fx_div(a.y, n), z: fx_div(a.z, n) }
    } else {
        a
    }
}

pub open spec fn dv_zero() -> DeltaVel {
    DeltaVel { linear: v_zero(), angular: v_zero() }
}

pub open spec fn dv_add(a: DeltaVel, b: DeltaVel) -> DeltaVel {
    DeltaVel { linear: v_add(a.linear, b.linear), angular: v_add(a.angular, b.angular) }
}

impl Vec3 {
    /// The zero vector.
    pub fn zero() -> (r: Vec3)
        ensures
            r == v_zero(),
    {
        Vec3 { x: 0, y: 0, z: 0 }
    }

    /// Component-wise saturating addition.
    pub fn add(&self, o: &Vec3) -> (r: Vec3)
        ensures
            r == v_add(*self, *o),
    {
        Vec3 { x: fadd(self.x, o.x), y: fadd(self.y, o.y), z: fadd(self.z, o.z) }
    }

    /// Component-wise saturating subtraction.
    pub fn sub(&self, o: &Vec3) -> (r: Vec3)
        ensures
            r == v_sub(*self, *o),
    {
        Vec3 { x: fsub(self.x, o.x), y: fsub(self.y, o.y), z: fsub(self.z, o.z) }
    }

    /// Component-wise saturating negation.
    pub fn neg(&self) -> (r: Vec3)
        ensures
            r == v_neg(*self),
    {
        Vec3 { x: fneg(self.x), y: fneg(self.y), z: fneg(self.z) }
    }

    /// Scale by a scalar.
    pub fn scale(&self, s: i64) -> (r: Vec3)
        ensures
            r == v_scale(*self, s),
    {
        Vec3 { x: fmul(self.x, s), y: fmul(self.y, s), z: fmul(self.z, s) }
    }

    /// Dot product.
    pub fn dot(&self, o: &Vec3) -> (r: i64)
        ensures
            r == v_dot(*self, *o),
    {
        fadd(fadd(fmul(self.x, o.x), fmul(self.y, o.y)), fmul(self.z, o.z))
    }

    /// Cross product.
    pub fn cross(&self, o: &Vec3) -> (r: Vec3)
        ensures
            r == v_cross(*self, *o),
    {
        Vec3 {
            x: fsub(fmul(self.y, o.z), fmul(self.z, o.y)),
            y: fsub(fmul(self.z, o.x), fmul(self.x, o.z)),
            z: fsub(fmul(self.x, o.y), fmul(self.y, o.x)),
        }
    }

    /// Euclidean norm of the raw representation.
    pub fn norm(&self) -> (r: i64)
        ensures
            r as int == sat64(
                sqrt_floor(
                    (self.x as int) * (self.x as int) + (self.y as int) * (self.y as int) + (
                    self.z as int) * (self.z as int),
                ),
            ),
            r == v_norm(*self),
            r >= 0,
    {
        proof {
            assert((self.x as int) * (self.x as int) <= 0x40000000000000000000000000000000
                && (self.x as int) * (self.x as int) >= 0) by (nonlinear_arith)
                requires
                    (i64::MIN as int) <= (self.x as int) <= (i64::MAX as int),
            ;
            assert((self.y as int) * (self.y as int) <= 0x40000000000000000000000000000000
                && (self.y as int) * (self.y as int) >= 0) by (nonlinear_arith)
                requires
                    (i64::MIN as int) <= (self.y as int) <= (i64::MAX as int),
            ;
            assert((self.z as int) * (self.z as int) <= 0x40000000000000000000000000000000
                && (self.z as int) * (self.z as int) >= 0) by (nonlinear_arith)
                requires
                    (i64::MIN as int) <= (self.z as int) <= (i64::MAX as int),
            ;
        }
        let sx: u128 = ((self.x as i128) * (self.x as i128)) as u128;
        let sy: u128 = ((self.y as i128) * (self.y as i128)) as u128;
        let sz: u128 = ((self.z as i128) * (self.z as i128)) as u128;
        let n: u64 = isqrt128(sx + sy + sz);
        if n > i64::MAX as u64 {
            i64::MAX
        } else {
            proof {
                let s = (self.x as int) * (self.x as int) + (self.y as int) * (self.y as int)
                    + (self.z as int) * (self.z as int);
                assert(is_sqrt_floor(s, n as int));
            }
            n as i64
        }
    }

    /// The vector scaled to unit norm; the zero vector stays zero.
    pub fn normalize(&self) -> (r: Vec3)
        ensures
            r == v_normalize(*self),
    {
        let n: i64 = self.norm();
        if n > 0 {
            Vec3 { x: fdiv(self.x, n), y: fdiv(self.y, n), z: fdiv(self.z, n) }
        } else {
            *self
        }
    }
}

impl Mat3 {
    /// The zero matrix.
    pub fn zero() -> (r: Mat3)
        ensures
            r == (Mat3 { xx: 0, xy: 0, xz: 0, yx: 0, yy: 0, yz: 0, zx: 0, zy: 0, zz: 0 }),
    {
        Mat3 { xx: 0, xy: 0, xz: 0, yx: 0, yy: 0, yz: 0, zx: 0, zy: 0, zz: 0 }
    }

    /// A diagonal matrix.
    pub fn diagonal(d: i64) -> (r: Mat3)
        ensures
            r == (Mat3 { xx: d, xy: 0, xz: 0, yx: 0, yy: d, yz: 0, zx: 0, zy: 0, zz: d }),
    {
        Mat3 { xx: d, xy: 0, xz: 0, yx: 0, yy: d, yz: 0, zx: 0, zy: 0, zz: d }
    }

    /// Matrix-vector product.
    pub fn transform(&self, v: &Vec3) -> (r: Vec3)
        ensures
            r == m_mul_v(*self, *v),
    {
        Vec3 {
            x: fadd(fadd(fmul(self.xx, v.x), fmul(self.xy, v.y)), fmul(self.xz, v.z)),
            y: fadd(fadd(fmul(self.yx, v.x), fmul(self.yy, v.y)), fmul(self.yz, v.z)),
            z: fadd(fadd(fmul(self.zx, v.x), fmul(self.zy, v.y)), fmul(self.zz, v.z)),
        }
    }
}

impl DeltaVel {
    /// A zero velocity delta.
    pub fn zero() -> (r: DeltaVel)
        ensures
            r == dv_zero(),
    {
        DeltaVel { linear: Vec3::zero(), angular: Vec3::zero() }
    }

    /// Component-wise addition of two deltas.
    pub fn add(&self, o: &DeltaVel) -> (r: DeltaVel)
        ensures
            r == dv_add(*self, *o),
    {
        DeltaVel { linear: self.linear.add(&o.linear), angular: self.angular.add(&o.angular) }
    }
}

} // verus!
