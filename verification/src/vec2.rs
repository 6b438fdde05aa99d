//! 2D fixed-point vectors and points.
//!
//! One type serves both roles: a `Vec2` holds either an absolute position
//! or a displacement / velocity / acceleration, component-wise in
//! fixed-point scalars. Every operation saturates through
//! [`crate::fixed::clamped`], so a vector built by the library always
//! satisfies [`Vec2::wf`].

use vstd::prelude::*;

use crate::fixed::SCALE;
use crate::fixed::clamp_i128;
use crate::fixed::clamped;
use crate::fixed::fmul;
use crate::fixed::in_range;
use crate::fixed::isqrt;
use crate::fixed::isqrt64;
use crate::fixed::lemma_isqrt_bounds;
use crate::fixed::mul_fx;
use crate::fixed::tdiv;
use crate::fixed::tdiv_i128;

verus! {

/// A 2D vector or point, components in fixed-point scalars.
#[derive(Clone, Copy, PartialEq, Eq, Structural, Debug)]
pub struct Vec2 {
    pub x: i64,
    pub y: i64,
}

/// The vector with both components saturated into range.
pub open spec fn v_new(x: int, y: int) -> Vec2 {
    Vec2 { x: clamped(x) as i64, y: clamped(y) as i64 }
}

/// The zero vector.
pub open spec fn v_zero() -> Vec2 {
    Vec2 { x: 0, y: 0 }
}

/// Component-wise sum, saturated.
pub open spec fn v_add(a: Vec2, b: Vec2) -> Vec2 {
    v_new(a.x + b.x, a.y + b.y)
}

/// Component-wise difference, saturated.
pub open spec fn v_sub(a: Vec2, b: Vec2) -> Vec2 {
    v_new(a.x - b.x, a.y - b.y)
}

/// Component-wise negation, saturated.
pub open spec fn v_neg(a: Vec2) -> Vec2 {
    v_new(-a.x, -a.y)
}

/// Scaling by a fixed-point scalar, saturated.
pub open spec fn v_scale(a: Vec2, s: int) -> Vec2 {
    Vec2 { x: fmul(a.x as int, s) as i64, y: fmul(a.y as int, s) as i64 }
}

/// Fixed-point dot product, saturated.
pub open spec fn v_dot(a: Vec2, b: Vec2) -> int {
    clamped(tdiv(a.x * b.x + a.y * b.y, SCALE as int))
}

impl Vec2 {
    /// Both components lie within the saturation bound.
    pub open spec fn wf(self) -> bool {
        in_range(self.x as int) && in_range(self.y as int)
    }

    /// Squared Euclidean norm, in squared fixed-point scalars.
    pub open spec fn norm_sq(self) -> int {
        self.x * self.x + self.y * self.y
    }

    /// Euclidean norm: the integer square root of the squared norm,
    /// a fixed-point scalar.
    pub open spec fn norm(self) -> int {
        isqrt(self.norm_sq() as nat) as int
    }

    /// Builds a vector, saturating each component.
    pub fn new(x: i64, y: i64) -> (r: Vec2)
        ensures
            r == v_new(x as int, y as int),
            r.wf(),
    {
        Vec2 { x: clamp_i128(x as i128), y: clamp_i128(y as i128) }
    }

    /// The zero vector.
    pub fn zero() -> (r: Vec2)
        ensures
            r == v_zero(),
            r.wf(),
    {
        Vec2 { x: 0, y: 0 }
    }

    /// Component-wise sum, saturated.
    pub fn add(self, other: Vec2) -> (r: Vec2)
        ensures
            r == v_add(self, other),
            r.wf(),
    {
        Vec2 {
            x: clamp_i128(self.x as i128 + other.x as i128),
            y: clamp_i128(self.y as i128 + other.y as i128),
        }
    }

    /// Component-wise difference, saturated.
    pub fn sub(self, other: Vec2) -> (r: Vec2)
        ensures
            r == v_sub(self, other),
            r.wf(),
    {
        Vec2 {
            x: clamp_i128(self.x as i128 - other.x as i128),
            y: clamp_i128(self.y as i128 - other.y as i128),
        }
    }

    /// Component-wise negation, saturated.
    pub fn neg(self) -> (r: Vec2)
        ensures
            r == v_neg(self),
            r.wf(),
    {
        Vec2 { x: clamp_i128(-(self.x as i128)), y: clamp_i128(-(self.y as i128)) }
    }

    /// Scales by a fixed-point scalar, saturated.
    pub fn scale(self, s: i64) -> (r: Vec2)
        ensures
            r == v_scale(self, s as int),
            r.wf(),
    {
        Vec2 { x: mul_fx(self.x, s), y: mul_fx(self.y, s) }
    }

    /// Fixed-point dot product of in-range vectors, saturated.
    pub fn dot(self, other: Vec2) -> (r: i64)
        requires
            self.wf(),
            other.wf(),
        ensures
            r as int == v_dot(self, other),
    {
        assert(-2_000_000_000_000_000_000
            <= self.x as int * other.x as int + self.y as int * other.y as int
            <= 2_000_000_000_000_000_000
            && -1_000_000_000_000_000_000 <= self.x as int * other.x as int
                <= 1_000_000_000_000_000_000
            && -1_000_000_000_000_000_000 <= self.y as int * other.y as int
                <= 1_000_000_000_000_000_000) by (nonlinear_arith)
            requires
                -1_000_000_000 <= self.x as int <= 1_000_000_000,
                -1_000_000_000 <= other.x as int <= 1_000_000_000,
                -1_000_000_000 <= self.y as int <= 1_000_000_000,
                -1_000_000_000 <= other.y as int <= 1_000_000_000,
        ;
        let p: i128 = (self.x as i128) * (other.x as i128) + (self.y as i128) * (other.y as i128);
        clamp_i128(tdiv_i128(p, SCALE as i128))
    }

    /// Euclidean norm of an in-range vector.
    pub fn norm_fx(self) -> (r: i64)
        requires
            self.wf(),
        ensures
            r as int == self.norm(),
            0 <= r <= 1_500_000_000,
    {
        assert(0 <= self.x as int * self.x as int <= 1_000_000_000_000_000_000
            && 0 <= self.y as int * self.y as int <= 1_000_000_000_000_000_000)
            by (nonlinear_arith)
            requires
                -1_000_000_000 <= self.x as int <= 1_000_000_000,
                -1_000_000_000 <= self.y as int <= 1_000_000_000,
        ;
        let nx: i128 = (self.x as i128) * (self.x as i128);
        let ny: i128 = (self.y as i128) * (self.y as i128);
        let n: u64 = (nx + ny) as u64;
        isqrt64(n) as i64
    }

    /// Direction of `self` as a unit vector (norm `SCALE`), or `None` for
    /// the zero vector, whose direction is undefined.
    pub fn normalized(self) -> (r: Option<Vec2>)
        requires
            self.wf(),
        ensures
            r == v_normalized(self),
            r matches Some(u) ==> u.wf(),
    {
        let n: i64 = self.norm_fx();
        if n == 0 {
            assert(v_normalized(self) is None);
            None
        } else {
            proof {
                lemma_component_le_norm(self);
                lemma_scaled_div_bounded(self.x as int, n as int);
                lemma_scaled_div_bounded(self.y as int, n as int);
            }
            let ux: i128 = tdiv_i128((self.x as i128) * (SCALE as i128), n as i128);
            let uy: i128 = tdiv_i128((self.y as i128) * (SCALE as i128), n as i128);
            Some(Vec2 { x: ux as i64, y: uy as i64 })
        }
    }
}

/// Direction of `a` as a unit vector, or `None` for the zero vector.
pub open spec fn v_normalized(a: Vec2) -> Option<Vec2> {
    if a.norm() == 0 {
        None
    } else {
        Some(
            Vec2 {
                x: tdiv(a.x * SCALE, a.norm()) as i64,
                y: tdiv(a.y * SCALE, a.norm()) as i64,
            },
        )
    }
}

/// No component of an in-range vector exceeds the vector's norm.
pub proof fn lemma_component_le_norm(a: Vec2)
    requires
        a.wf(),
    ensures
        -a.norm() <= a.x as int <= a.norm(),
        -a.norm() <= a.y as int <= a.norm(),
{
    let ns = a.norm_sq();
    assert(ns >= 0) by (nonlinear_arith)
        requires
            ns == a.x as int * a.x as int + a.y as int * a.y as int,
    ;
    lemma_isqrt_bounds(ns as nat);
    let r = a.norm();
    assert(-r <= a.x as int <= r && -r <= a.y as int <= r) by (nonlinear_arith)
        requires
            ns == a.x as int * a.x as int + a.y as int * a.y as int,
            r >= 0,
            ns < (r + 1) * (r + 1),
    ;
}

/// Rescaling a component no larger than the norm yields at most one unit.
proof fn lemma_scaled_div_bounded(c: int, n: int)
    requires
        0 < n,
        -n <= c <= n,
    ensures
        -(SCALE as int) <= tdiv(c * SCALE, n) <= SCALE as int,
{
    vstd::arithmetic::div_mod::lemma_div_multiples_vanish(SCALE as int, n);
    assert((n * (SCALE as int)) / n == SCALE as int);
    if c >= 0 {
        assert(0 <= c * SCALE <= n * SCALE) by (nonlinear_arith)
            requires
                0 <= c <= n,
        ;
        vstd::arithmetic::div_mod::lemma_div_is_ordered(0, c * SCALE, n);
        vstd::arithmetic::div_mod::lemma_div_is_ordered(c * SCALE, n * SCALE, n);
    } else {
        assert(0 <= (-c) * SCALE <= n * SCALE && -(c * SCALE) == (-c) * SCALE)
            by (nonlinear_arith)
            requires
                -n <= c < 0,
        ;
        vstd::arithmetic::div_mod::lemma_div_is_ordered(0, (-c) * SCALE, n);
        vstd::arithmetic::div_mod::lemma_div_is_ordered((-c) * SCALE, n * SCALE, n);
    }
}

} // verus!
