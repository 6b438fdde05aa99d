//! The blob and its per-tick physics.
//!
//! A blob is a circular point mass with a position, a velocity, a unit aim
//! vector, and a hook. Each tick combines spring force (only while the
//! hook is anchored), gravity, and linear damping into one acceleration,
//! integrates with semi-implicit Euler — velocity first, then position
//! from the *new* velocity — reflects the velocity off any wall the body
//! now overlaps, re-aims at the latest pointer sample, and advances the
//! hook. The position is not pushed back out of a wall on reflection; the
//! body may sit inside a wall for a tick when the reflected velocity
//! cannot carry it out against a continuing force.

use vstd::prelude::*;

use crate::config::Config;
use crate::fixed::clamped;
use crate::fixed::tdiv;
use crate::fixed::clamp_i128;
use crate::fixed::tdiv_i128;
use crate::hook::HookState;
use crate::vec2::Vec2;
use crate::vec2::v_add;
use crate::vec2::v_normalized;
use crate::vec2::v_scale;
use crate::vec2::v_sub;
use crate::vec2::v_zero;
use crate::walls::body_hit;
use crate::walls::body_vs_walls;
use crate::walls::reflect;
use crate::walls::reflected;

verus! {

/// A circular point mass with an optional hook attachment.
#[derive(Clone, Copy, PartialEq, Eq, Structural, Debug)]
pub struct Blob {
    /// Position of the body's centroid.
    pub center: Vec2,
    /// Linear velocity.
    pub vel: Vec2,
    /// Last known aim direction, a unit vector; consumed by hook launches.
    pub aim_vec: Vec2,
    /// The blob's hook.
    pub hook: HookState,
}

/// One spring-acceleration component: `k * (len - eq) / len^2` of the
/// displacement component `di`, truncated toward zero and saturated.
pub open spec fn spring_component(k: int, len: int, eq: int, di: int) -> int {
    clamped(tdiv(k * (len - eq) * di, len * len))
}

/// Spring acceleration on a blob at `center`: zero unless the hook is
/// anchored, and zero while the spring is at most its equilibrium length
/// (it only pulls, never pushes); otherwise Hooke's law along the
/// displacement toward the anchor, with magnitude `k * (len - eq) / len`.
/// A degenerate zero-length displacement exerts no force.
pub open spec fn spring_accel_of(hook: HookState, center: Vec2, cfg: Config) -> Vec2 {
    match hook {
        HookState::Anchored(p) => {
            let d = v_sub(p, center);
            let len = d.norm();
            if len < cfg.eq_len || len == 0 {
                v_zero()
            } else {
                Vec2 {
                    x: spring_component(cfg.k as int, len, cfg.eq_len as int, d.x as int) as i64,
                    y: spring_component(cfg.k as int, len, cfg.eq_len as int, d.y as int) as i64,
                }
            }
        },
        _ => v_zero(),
    }
}

/// Constant gravitational acceleration, straight down the screen.
pub open spec fn gravity_accel(cfg: Config) -> Vec2 {
    Vec2 { x: 0, y: cfg.g }
}

/// Linear drag opposing motion: `-damp * vel`.
pub open spec fn damping_accel(vel: Vec2, cfg: Config) -> Vec2 {
    v_scale(vel, -(cfg.damp as int))
}

/// Net acceleration of one tick: spring plus gravity plus damping.
pub open spec fn tick_accel(b: Blob, cfg: Config) -> Vec2 {
    v_add(v_add(spring_accel_of(b.hook, b.center, cfg), gravity_accel(cfg)), damping_accel(b.vel, cfg))
}

/// The velocity after this tick's integration, before any collision
/// response: `vel + accel * dt`.
pub open spec fn integrated_vel(b: Blob, cfg: Config) -> Vec2 {
    v_add(b.vel, v_scale(tick_accel(b, cfg), cfg.dt as int))
}

/// The position after this tick's integration: `center + vel' * dt`,
/// displaced by the *new* velocity (semi-implicit Euler).
pub open spec fn integrated_center(b: Blob, cfg: Config) -> Vec2 {
    v_add(b.center, v_scale(integrated_vel(b, cfg), cfg.dt as int))
}

/// The whole per-tick step of one blob: integrate, reflect off any wall
/// the body now overlaps (the position itself is not corrected), re-aim
/// at `pointer` (keeping the old aim when the pointer sits exactly on the
/// new center), and advance the hook.
pub open spec fn blob_stepped(b: Blob, pointer: Vec2, cfg: Config) -> Blob {
    let vel2 = integrated_vel(b, cfg);
    let center2 = integrated_center(b, cfg);
    let vel3 = match body_hit(center2, cfg.radius as int, cfg) {
        Some((contact, normal)) => reflected(vel2, normal),
        None => vel2,
    };
    let aim2 = match v_normalized(v_sub(pointer, center2)) {
        Some(u) => u,
        None => b.aim_vec,
    };
    Blob { center: center2, vel: vel3, aim_vec: aim2, hook: b.hook.stepped(cfg) }
}

impl Blob {
    /// Every stored vector and the hook are in range.
    pub open spec fn wf(self) -> bool {
        self.center.wf() && self.vel.wf() && self.aim_vec.wf() && self.hook.wf()
    }

    /// Spring acceleration currently acting on this blob
    /// (see [`spring_accel_of`]).
    pub fn spring_accel(&self, cfg: &Config) -> (r: Vec2)
        requires
            self.wf(),
            cfg.wf(),
        ensures
            r == spring_accel_of(self.hook, self.center, *cfg),
            r.wf(),
    {
        match self.hook {
            HookState::Anchored(p) => {
                let d = p.sub(self.center);
                let len: i64 = d.norm_fx();
                if len < cfg.eq_len || len == 0 {
                    Vec2::zero()
                } else {
                    assert(0 < len as int * len as int <= 2_250_000_000_000_000_000)
                        by (nonlinear_arith)
                        requires
                            1 <= len as int <= 1_500_000_000,
                    ;
                    let den: i128 = (len as i128) * (len as i128);
                    assert(0 <= cfg.k as int * (len - cfg.eq_len) as int
                        <= 1_500_000_000_000_000_000_000_000_000) by (nonlinear_arith)
                        requires
                            0 <= cfg.k as int <= 1_000_000_000,
                            0 <= (len - cfg.eq_len) as int <= 1_500_000_000,
                    ;
                    let stretch: i128 = (cfg.k as i128) * ((len - cfg.eq_len) as i128);
                    assert(-1_500_000_000_000_000_000_000_000_000_000_000_000
                        <= stretch as int * d.x as int
                        <= 1_500_000_000_000_000_000_000_000_000_000_000_000
                        && -1_500_000_000_000_000_000_000_000_000_000_000_000
                        <= stretch as int * d.y as int
                        <= 1_500_000_000_000_000_000_000_000_000_000_000_000)
                        by (nonlinear_arith)
                        requires
                            0 <= stretch as int <= 1_500_000_000_000_000_000_000_000_000,
                            -1_000_000_000 <= d.x as int <= 1_000_000_000,
                            -1_000_000_000 <= d.y as int <= 1_000_000_000,
                    ;
                    let nx: i128 = stretch * (d.x as i128);
                    let ny: i128 = stretch * (d.y as i128);
                    let ax: i64 = clamp_i128(tdiv_i128(nx, den));
                    let ay: i64 = clamp_i128(tdiv_i128(ny, den));
                    assert(nx as int == cfg.k as int * (len as int - cfg.eq_len as int)
                        * d.x as int && ny as int == cfg.k as int
                        * (len as int - cfg.eq_len as int) * d.y as int) by (nonlinear_arith)
                        requires
                            stretch as int == cfg.k as int * (len as int - cfg.eq_len as int),
                            nx as int == stretch as int * d.x as int,
                            ny as int == stretch as int * d.y as int,
                    ;
                    Vec2 { x: ax, y: ay }
                }
            },
            _ => Vec2::zero(),
        }
    }

    /// Advances this blob by one tick (see [`blob_stepped`]): velocity
    /// first, then position from the new velocity, then wall reflection,
    /// aim, and hook.
    pub fn update(&mut self, pointer: Vec2, cfg: &Config)
        requires
            old(self).wf(),
            pointer.wf(),
            cfg.wf(),
        ensures
            *final(self) == blob_stepped(*old(self), pointer, *cfg),
            final(self).wf(),
    {
        let acc_spring = self.spring_accel(cfg);
        let acc_gravity = Vec2 { x: 0, y: cfg.g };
        let acc_damping = self.vel.scale(-cfg.damp);
        let acc_tot = acc_spring.add(acc_gravity).add(acc_damping);

        self.vel = self.vel.add(acc_tot.scale(cfg.dt));
        self.center = self.center.add(self.vel.scale(cfg.dt));
        if let Some((_contact, normal)) = body_vs_walls(self.center, cfg.radius, cfg) {
            self.vel = reflect(self.vel, normal);
        }

        if let Some(u) = pointer.sub(self.center).normalized() {
            self.aim_vec = u;
        }

        self.hook = self.hook.step(cfg);
    }

    /// Applies one discrete input event to this blob
    /// (see [`blob_applied`]).
    pub fn apply_input(&mut self, event: InputEvent, cfg: &Config)
        requires
            old(self).wf(),
            event.wf(),
            cfg.wf(),
        ensures
            *final(self) == blob_applied(*old(self), event, *cfg),
            final(self).wf(),
    {
        match event {
            InputEvent::Aim(pos) => {
                if let Some(u) = pos.sub(self.center).normalized() {
                    self.aim_vec = u;
                }
            },
            InputEvent::Launch => {
                self.hook = HookState::launch(self.center, self.aim_vec, cfg);
            },
            InputEvent::Release => {
                self.hook = HookState::Detached;
            },
        }
    }
}

/// A discrete input event addressed to one blob.
#[derive(Clone, Copy, PartialEq, Eq, Structural, Debug)]
pub enum InputEvent {
    /// A new pointer position sample, in arena coordinates, to aim at.
    Aim(Vec2),
    /// Launch the hook along the current aim direction.
    Launch,
    /// Let go of the hook, whatever state it is in.
    Release,
}

impl InputEvent {
    /// Any carried point is in range.
    pub open spec fn wf(self) -> bool {
        match self {
            InputEvent::Aim(pos) => pos.wf(),
            _ => true,
        }
    }
}

/// What one input event does to a blob. Aiming re-derives the unit aim
/// vector from the pointer position (an aim placed exactly on the center
/// is rejected and the previous aim kept); a launch overwrites the hook
/// with a fresh traveling one; a release detaches it. Center and velocity
/// are never touched by input.
pub open spec fn blob_applied(b: Blob, event: InputEvent, cfg: Config) -> Blob {
    match event {
        InputEvent::Aim(pos) => match v_normalized(v_sub(pos, b.center)) {
            Some(u) => Blob { aim_vec: u, ..b },
            None => b,
        },
        InputEvent::Launch => Blob {
            hook: HookState::launched(b.center, b.aim_vec, cfg),
            ..b
        },
        InputEvent::Release => Blob { hook: HookState::Detached, ..b },
    }
}

/// With the hook detached or still in flight, the spring exerts exactly
/// zero acceleration.
pub proof fn lemma_no_spring_unless_anchored(hook: HookState, center: Vec2, cfg: Config)
    requires
        !(hook is Anchored),
    ensures
        spring_accel_of(hook, center, cfg) == v_zero(),
{
}

/// A spring at most its equilibrium length exerts exactly zero
/// acceleration: it only pulls, never pushes.
pub proof fn lemma_spring_slack_no_force(p: Vec2, center: Vec2, cfg: Config)
    requires
        v_sub(p, center).norm() <= cfg.eq_len,
    ensures
        spring_accel_of(HookState::Anchored(p), center, cfg) == v_zero(),
{
    let d = v_sub(p, center);
    let len = d.norm();
    if len >= cfg.eq_len && len != 0 {
        assert(len == cfg.eq_len);
        assert(cfg.k as int * (len - cfg.eq_len) * d.x as int == 0
            && cfg.k as int * (len - cfg.eq_len) * d.y as int == 0) by (nonlinear_arith)
            requires
                len == cfg.eq_len as int,
        ;
        assert(len * len >= 1) by (nonlinear_arith)
            requires
                len >= 1,
        ;
        vstd::arithmetic::div_mod::lemma_div_basics(len * len);
    }
}

/// Within one step, the velocity update strictly precedes the position
/// update: the new center is displaced by the tick's *new* velocity
/// (semi-implicit Euler), not by the velocity the tick began with.
pub proof fn lemma_velocity_update_precedes_position(b: Blob, pointer: Vec2, cfg: Config)
    ensures
        blob_stepped(b, pointer, cfg).center == v_add(
            b.center,
            v_scale(integrated_vel(b, cfg), cfg.dt as int),
        ),
{
}

/// On any tick whose integrated position overlaps a wall, the collision
/// response is a pure reflection: the velocity the tick ends with has
/// exactly the speed the integration produced. No damping or restitution
/// is applied within the collision check itself.
pub proof fn lemma_wall_bounce_keeps_speed(b: Blob, pointer: Vec2, cfg: Config)
    requires
        b.wf(),
        cfg.wf(),
    ensures
        body_hit(integrated_center(b, cfg), cfg.radius as int, cfg) is Some ==> blob_stepped(
            b,
            pointer,
            cfg,
        ).vel.norm() == integrated_vel(b, cfg).norm(),
{
    let vel2 = integrated_vel(b, cfg);
    let center2 = integrated_center(b, cfg);
    if let Some((_contact, normal)) = body_hit(center2, cfg.radius as int, cfg) {
        crate::walls::lemma_reflection_preserves_speed(vel2, normal);
    }
}

/// Launching the hook and then immediately releasing it returns the blob
/// to a detached hook, with no residual spring force on the release tick
/// and the blob's motion state untouched.
pub proof fn lemma_launch_release_round_trip(b: Blob, cfg: Config)
    ensures
        ({
            let after = blob_applied(blob_applied(b, InputEvent::Launch, cfg), InputEvent::Release, cfg);
            &&& after.hook is Detached
            &&& spring_accel_of(after.hook, after.center, cfg) == v_zero()
            &&& after.center == b.center
            &&& after.vel == b.vel
            &&& after.aim_vec == b.aim_vec
        }),
{
}

} // verus!
