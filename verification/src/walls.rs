//! Wall-collision detection and response.
//!
//! Pure queries against the four boundary walls of the rectangular arena:
//! one for a circular body of finite radius, one for a zero-radius point
//! (the hook tip). Walls are checked in a fixed priority order — left,
//! right, top, bottom — and at most one reports, which resolves corner
//! cases by the first match. The response is a pure, energy-preserving
//! reflection of the velocity about the reported wall normal.

use vstd::prelude::*;

use crate::config::Config;
use crate::fixed::SCALE;
use crate::fixed::clamp_i128;
use crate::fixed::clamped;
use crate::vec2::Vec2;

verus! {

/// The outward unit normal of the wall `x = 0`.
pub open spec fn normal_right() -> Vec2 {
    Vec2 { x: SCALE, y: 0 }
}

/// The outward unit normal of the wall `x = width`.
pub open spec fn normal_left() -> Vec2 {
    Vec2 { x: (-(SCALE as int)) as i64, y: 0 }
}

/// The outward unit normal of the wall `y = 0`.
pub open spec fn normal_down() -> Vec2 {
    Vec2 { x: 0, y: SCALE }
}

/// The outward unit normal of the wall `y = height`.
pub open spec fn normal_up() -> Vec2 {
    Vec2 { x: 0, y: (-(SCALE as int)) as i64 }
}

/// Whether `n` is one of the four outward wall normals.
pub open spec fn is_wall_normal(n: Vec2) -> bool {
    n == normal_right() || n == normal_left() || n == normal_down() || n == normal_up()
}

/// Whether `c` lies on one of the four boundary edges of the arena.
pub open spec fn on_boundary(c: Vec2, cfg: Config) -> bool {
    c.x == 0 || c.x == cfg.width || c.y == 0 || c.y == cfg.height
}

/// What `body_vs_walls` reports: the nearest wall's contact point and its
/// outward unit normal, for the first wall in priority order the body
/// overlaps.
pub open spec fn body_hit(center: Vec2, radius: int, cfg: Config) -> Option<(Vec2, Vec2)> {
    if center.x < radius {
        Some((Vec2 { x: 0, y: center.y }, normal_right()))
    } else if center.x > cfg.width - radius {
        Some((Vec2 { x: cfg.width, y: center.y }, normal_left()))
    } else if center.y < radius {
        Some((Vec2 { x: center.x, y: 0 }, normal_down()))
    } else if center.y > cfg.height - radius {
        Some((Vec2 { x: center.x, y: cfg.height }, normal_up()))
    } else {
        None
    }
}

/// What `point_vs_walls` reports: the point clamped onto the boundary
/// along the first violated wall in priority order.
pub open spec fn point_hit(p: Vec2, cfg: Config) -> Option<Vec2> {
    if p.x < 0 {
        Some(Vec2 { x: 0, y: p.y })
    } else if p.x > cfg.width {
        Some(Vec2 { x: cfg.width, y: p.y })
    } else if p.y < 0 {
        Some(Vec2 { x: p.x, y: 0 })
    } else if p.y > cfg.height {
        Some(Vec2 { x: p.x, y: cfg.height })
    } else {
        None
    }
}

/// The velocity `v` reflected about the wall normal `n`: the component
/// along `n` is reversed, the tangential component kept.
pub open spec fn reflected(v: Vec2, n: Vec2) -> Vec2 {
    if n.x != 0 {
        Vec2 { x: clamped(-v.x) as i64, y: v.y }
    } else {
        Vec2 { x: v.x, y: clamped(-v.y) as i64 }
    }
}

/// Tests a circular body against the four arena walls.
///
/// Reports no collision exactly when the whole disc lies inside
/// `[0, width] x [0, height]`; otherwise the first overlapping wall in
/// priority order, with its contact point and outward unit normal.
pub fn body_vs_walls(center: Vec2, radius: i64, cfg: &Config) -> (r: Option<(Vec2, Vec2)>)
    requires
        center.wf(),
        cfg.wf(),
        0 <= radius <= crate::fixed::CAP,
    ensures
        r == body_hit(center, radius as int, *cfg),
        r is None <==> radius <= center.x <= cfg.width - radius && radius <= center.y
            <= cfg.height - radius,
        r matches Some((c, n)) ==> c.wf() && is_wall_normal(n),
{
    if center.x < radius {
        Some((Vec2 { x: 0, y: center.y }, Vec2 { x: SCALE, y: 0 }))
    } else if center.x > cfg.width - radius {
        Some((Vec2 { x: cfg.width, y: center.y }, Vec2 { x: -SCALE, y: 0 }))
    } else if center.y < radius {
        Some((Vec2 { x: center.x, y: 0 }, Vec2 { x: 0, y: SCALE }))
    } else if center.y > cfg.height - radius {
        Some((Vec2 { x: center.x, y: cfg.height }, Vec2 { x: 0, y: -SCALE }))
    } else {
        None
    }
}

/// Tests a point (the hook tip) against the four arena walls.
///
/// Reports no collision exactly when the point lies inside
/// `[0, width] x [0, height]`; otherwise the contact point on the first
/// violated wall in priority order, which lies on the boundary.
pub fn point_vs_walls(p: Vec2, cfg: &Config) -> (r: Option<Vec2>)
    requires
        p.wf(),
        cfg.wf(),
    ensures
        r == point_hit(p, *cfg),
        r is None <==> 0 <= p.x <= cfg.width && 0 <= p.y <= cfg.height,
        r matches Some(c) ==> c.wf() && on_boundary(c, *cfg),
{
    if p.x < 0 {
        Some(Vec2 { x: 0, y: p.y })
    } else if p.x > cfg.width {
        Some(Vec2 { x: cfg.width, y: p.y })
    } else if p.y < 0 {
        Some(Vec2 { x: p.x, y: 0 })
    } else if p.y > cfg.height {
        Some(Vec2 { x: p.x, y: cfg.height })
    } else {
        None
    }
}

/// Mirrors the velocity `v` in the plane defined by the wall normal `n`:
/// `v - 2 * dot(v, n) * n`, which for the four axis-aligned wall normals
/// reverses exactly the component along `n` and keeps the other.
pub fn reflect(v: Vec2, n: Vec2) -> (r: Vec2)
    requires
        v.wf(),
        is_wall_normal(n),
    ensures
        r == reflected(v, n),
        r.wf(),
{
    if n.x != 0 {
        Vec2 { x: clamp_i128(-(v.x as i128)), y: v.y }
    } else {
        Vec2 { x: v.x, y: clamp_i128(-(v.y as i128)) }
    }
}

/// Pure reflection preserves speed: the reflected velocity of an in-range
/// vector has exactly the squared norm, and so the norm, of the original.
pub proof fn lemma_reflection_preserves_speed(v: Vec2, n: Vec2)
    requires
        v.wf(),
        is_wall_normal(n),
    ensures
        reflected(v, n).norm_sq() == v.norm_sq(),
        reflected(v, n).norm() == v.norm(),
{
    let r = reflected(v, n);
    assert(r.norm_sq() == v.norm_sq()) by (nonlinear_arith)
        requires
            r.x as int == v.x as int || r.x as int == -(v.x as int),
            r.y as int == v.y as int || r.y as int == -(v.y as int),
            r.norm_sq() == r.x as int * r.x as int + r.y as int * r.y as int,
            v.norm_sq() == v.x as int * v.x as int + v.y as int * v.y as int,
    ;
}

} // verus!
