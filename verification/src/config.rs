//! Simulation parameters.
//!
//! All constants of the physics are gathered in one immutable value passed
//! to the simulation at construction, so the core stays testable with
//! varied parameters and arena bounds stay decoupled from any presentation
//! surface. Every field is a fixed-point scalar (see [`crate::fixed`]).

use vstd::prelude::*;

use crate::fixed::CAP;

verus! {

/// The physical constants of one simulation.
#[derive(Clone, Copy, PartialEq, Eq, Structural, Debug)]
pub struct Config {
    /// Spring constant divided by blob mass.
    pub k: i64,
    /// Spring equilibrium length: below this hook-to-blob distance the
    /// spring exerts no force.
    pub eq_len: i64,
    /// Linear drag coefficient opposing motion.
    pub damp: i64,
    /// Gravitational acceleration, along positive `y` ("down").
    pub g: i64,
    /// Speed of a traveling hook tip.
    pub hook_speed: i64,
    /// Collision radius of a blob.
    pub radius: i64,
    /// Arena width: bodies collide with the walls `x = 0` and `x = width`.
    pub width: i64,
    /// Arena height: bodies collide with the walls `y = 0` and `y = height`.
    pub height: i64,
    /// Fixed timestep one tick advances simulated time by.
    pub dt: i64,
}

impl Config {
    /// Every parameter is non-negative and within the saturation bound.
    pub open spec fn wf(self) -> bool {
        &&& 0 <= self.k <= CAP
        &&& 0 <= self.eq_len <= CAP
        &&& 0 <= self.damp <= CAP
        &&& 0 <= self.g <= CAP
        &&& 0 <= self.hook_speed <= CAP
        &&& 0 <= self.radius <= CAP
        &&& 0 <= self.width <= CAP
        &&& 0 <= self.height <= CAP
        &&& 0 <= self.dt <= CAP
    }

    /// The default parameters: a square arena of a thousand units, a tenth
    /// of a unit of simulated time per tick.
    pub fn standard() -> (r: Config)
        ensures
            r.k == 20_000,
            r.eq_len == 40_000,
            r.damp == 10,
            r.g == 10_000,
            r.hook_speed == 150_000,
            r.radius == 40_000,
            r.width == 1_000_000,
            r.height == 1_000_000,
            r.dt == 100,
            r.wf(),
    {
        Config {
            k: 20_000,
            eq_len: 40_000,
            damp: 10,
            g: 10_000,
            hook_speed: 150_000,
            radius: 40_000,
            width: 1_000_000,
            height: 1_000_000,
            dt: 100,
        }
    }
}

} // verus!
