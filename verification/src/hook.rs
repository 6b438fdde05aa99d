//! The grappling hook's state machine.
//!
//! A hook is detached, traveling toward a target in a straight line at
//! constant speed, or anchored at a fixed point. Launch and release are
//! explicit input events; a traveling hook transitions to anchored by
//! itself, exactly on the tick its tip would leave the arena, at the
//! contact point on the boundary. A launch while already traveling or
//! anchored silently overwrites the hook, as a release may follow at any
//! time.

use vstd::prelude::*;

use crate::config::Config;
use crate::vec2::Vec2;
use crate::vec2::v_add;
use crate::vec2::v_scale;
use crate::walls::point_hit;
use crate::walls::point_vs_walls;

verus! {

/// The state of one blob's hook.
#[derive(Clone, Copy, PartialEq, Eq, Structural, Debug)]
pub enum HookState {
    /// No hook is out; no spring force acts.
    Detached,
    /// The tip is in flight at the point, moving with the constant
    /// velocity; no spring force acts.
    Traveling(Vec2, Vec2),
    /// The hook is fixed at the point; the spring pulls the blob toward
    /// it.
    Anchored(Vec2),
}

impl HookState {
    /// Every stored point and velocity is in range.
    pub open spec fn wf(self) -> bool {
        match self {
            HookState::Detached => true,
            HookState::Traveling(tip, vel) => tip.wf() && vel.wf(),
            HookState::Anchored(p) => p.wf(),
        }
    }

    /// One tick of the hook itself: a traveling tip advances by
    /// `vel * dt` and anchors at the contact point the moment it would
    /// leave the arena; the other states persist.
    pub open spec fn stepped(self, cfg: Config) -> HookState {
        match self {
            HookState::Traveling(tip, vel) => {
                let moved = v_add(tip, v_scale(vel, cfg.dt as int));
                match point_hit(moved, cfg) {
                    Some(contact) => HookState::Anchored(contact),
                    None => HookState::Traveling(moved, vel),
                }
            },
            _ => self,
        }
    }

    /// The state a launch event puts the hook in: the tip starts one aim
    /// vector ahead of the blob's center and flies at `hook_speed` along
    /// the aim direction.
    pub open spec fn launched(center: Vec2, aim: Vec2, cfg: Config) -> HookState {
        HookState::Traveling(v_add(center, aim), v_scale(aim, cfg.hook_speed as int))
    }

    /// Advances the hook by one tick (see [`HookState::stepped`]).
    pub fn step(self, cfg: &Config) -> (r: HookState)
        requires
            self.wf(),
            cfg.wf(),
        ensures
            r == self.stepped(*cfg),
            r.wf(),
    {
        match self {
            HookState::Traveling(tip, vel) => {
                let moved = tip.add(vel.scale(cfg.dt));
                match point_vs_walls(moved, cfg) {
                    Some(contact) => HookState::Anchored(contact),
                    None => HookState::Traveling(moved, vel),
                }
            },
            _ => self,
        }
    }

    /// Launches the hook from `center` along the unit aim vector `aim`
    /// (see [`HookState::launched`]). Overwrites whatever state the hook
    /// was in.
    pub fn launch(center: Vec2, aim: Vec2, cfg: &Config) -> (r: HookState)
        ensures
            r == HookState::launched(center, aim, *cfg),
            r.wf(),
    {
        HookState::Traveling(center.add(aim), aim.scale(cfg.hook_speed))
    }
}

/// While it reports `Traveling`, a stepped hook has moved in a straight
/// line at constant speed: the new tip is the old tip displaced by exactly
/// `vel * dt` and the velocity is unchanged. The moment the displaced tip
/// would leave the arena the hook instead anchors, at a contact point
/// exactly on one of the four boundary edges. A step never detaches a
/// hook, and never moves an anchor.
pub proof fn lemma_hook_travel(h: HookState, cfg: Config)
    requires
        h.wf(),
        cfg.wf(),
    ensures
        h matches HookState::Traveling(tip, vel) ==> {
            let moved = v_add(tip, v_scale(vel, cfg.dt as int));
            match h.stepped(cfg) {
                HookState::Traveling(tip2, vel2) => tip2 == moved && vel2 == vel && 0 <= moved.x
                    <= cfg.width && 0 <= moved.y <= cfg.height,
                HookState::Anchored(contact) => crate::walls::on_boundary(contact, cfg)
                    && !(0 <= moved.x <= cfg.width && 0 <= moved.y <= cfg.height),
                HookState::Detached => false,
            }
        },
        h is Anchored ==> h.stepped(cfg) == h,
        h is Detached ==> h.stepped(cfg) == h,
{
}

} // verus!
