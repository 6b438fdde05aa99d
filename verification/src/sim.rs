//! The multi-blob simulation container.
//!
//! Owns every blob, keyed by a stable identifier whose ordering is
//! irrelevant (keys are unique; none are added or removed during a run).
//! One `tick` gives every blob the same physics update; input events are
//! routed to the blob they name, and an unknown identifier is a silent
//! no-op. Exactly one identifier, [`LOCAL_ID`], designates the locally
//! controlled blob that input defaults to.

use vstd::prelude::*;

use crate::blob::Blob;
use crate::blob::InputEvent;
use crate::blob::blob_applied;
use crate::blob::blob_stepped;
use crate::config::Config;
use crate::hook::HookState;
use crate::vec2::Vec2;

verus! {

/// Identifier of the locally controlled blob.
pub const LOCAL_ID: u64 = 0;

/// The initial state of the locally controlled blob: resting near the
/// upper-left of the arena, hooked to an anchor up and to its right.
pub open spec fn initial_local_blob() -> Blob {
    Blob {
        center: Vec2 { x: 100_000, y: 100_000 },
        vel: Vec2 { x: 0, y: 0 },
        aim_vec: Vec2 { x: 1000, y: 0 },
        hook: HookState::Anchored(Vec2 { x: 400_000, y: 0 }),
    }
}

/// The initial state of the second blob: drifting, hooked to the arena's
/// upper-left corner.
pub open spec fn initial_drifter_blob() -> Blob {
    Blob {
        center: Vec2 { x: 200_000, y: 100_000 },
        vel: Vec2 { x: 10_000, y: 10_000 },
        aim_vec: Vec2 { x: 1000, y: 0 },
        hook: HookState::Anchored(Vec2 { x: 0, y: 0 }),
    }
}

/// A whole simulation: its parameters and every blob, keyed by identity.
pub struct Simulation {
    /// The physical constants this simulation was built with.
    pub cfg: Config,
    /// The blobs, as unique-key pairs; insertion order carries no meaning.
    pub blobs: Vec<(u64, Blob)>,
}

impl Simulation {
    /// The parameters are well-formed, every blob is in range, and no two
    /// entries share an identifier.
    pub open spec fn wf(self) -> bool {
        &&& self.cfg.wf()
        &&& forall|i: int|
            0 <= i < self.blobs@.len() ==> (#[trigger] self.blobs@[i]).1.wf()
        &&& forall|i: int, j: int|
            0 <= i < j < self.blobs@.len() ==> self.blobs@[i].0 != self.blobs@[j].0
    }

    /// Builds the standard scene: the locally controlled blob under
    /// identifier [`LOCAL_ID`] and one more blob, both hooked.
    pub fn new(cfg: Config) -> (r: Simulation)
        requires
            cfg.wf(),
        ensures
            r.wf(),
            r.cfg == cfg,
            r.blobs@.len() == 2,
            r.blobs@[0] == (LOCAL_ID, initial_local_blob()),
            r.blobs@[1] == (10u64, initial_drifter_blob()),
    {
        let mut blobs: Vec<(u64, Blob)> = Vec::new();
        blobs.push(
            (
                LOCAL_ID,
                Blob {
                    center: Vec2 { x: 100_000, y: 100_000 },
                    vel: Vec2 { x: 0, y: 0 },
                    aim_vec: Vec2 { x: 1000, y: 0 },
                    hook: HookState::Anchored(Vec2 { x: 400_000, y: 0 }),
                },
            ),
        );
        blobs.push(
            (
                10,
                Blob {
                    center: Vec2 { x: 200_000, y: 100_000 },
                    vel: Vec2 { x: 10_000, y: 10_000 },
                    aim_vec: Vec2 { x: 1000, y: 0 },
                    hook: HookState::Anchored(Vec2 { x: 0, y: 0 }),
                },
            ),
        );
        Simulation { cfg, blobs }
    }

    /// Advances the whole simulation by one tick: every blob receives the
    /// same physics update against the same pointer sample; identifiers
    /// and order are untouched. Blobs do not interact, so the order the
    /// update runs in is immaterial.
    pub fn tick(&mut self, pointer: Vec2)
        requires
            old(self).wf(),
            pointer.wf(),
        ensures
            final(self).wf(),
            final(self).cfg == old(self).cfg,
            final(self).blobs@.len() == old(self).blobs@.len(),
            forall|i: int|
                0 <= i < old(self).blobs@.len() ==> (#[trigger] final(self).blobs@[i]) == (
                old(self).blobs@[i].0,
                blob_stepped(old(self).blobs@[i].1, pointer, old(self).cfg),
                ),
    {
        let cfg = self.cfg;
        let n = self.blobs.len();
        let mut i: usize = 0;
        while i < n
            invariant
                n == self.blobs@.len(),
                0 <= i <= n,
                cfg == self.cfg,
                cfg == old(self).cfg,
                self.blobs@.len() == old(self).blobs@.len(),
                cfg.wf(),
                pointer.wf(),
                forall|j: int|
                    i <= j < n ==> (#[trigger] self.blobs@[j]) == old(self).blobs@[j],
                forall|j: int|
                    0 <= j < i ==> (#[trigger] self.blobs@[j]) == (
                    old(self).blobs@[j].0,
                    blob_stepped(old(self).blobs@[j].1, pointer, cfg),
                    ),
                forall|j: int| 0 <= j < n ==> (#[trigger] self.blobs@[j]).1.wf(),
            decreases n - i,
        {
            let (id, mut b) = self.blobs[i];
            b.update(pointer, &cfg);
            self.blobs.set(i, (id, b));
            i = i + 1;
        }
        proof {
            assert forall|a: int, b: int|
                0 <= a < b < self.blobs@.len() implies self.blobs@[a].0 != self.blobs@[b].0 by {
                assert(self.blobs@[a].0 == old(self).blobs@[a].0);
                assert(self.blobs@[b].0 == old(self).blobs@[b].0);
            }
        }
    }

    /// Routes one input event to the blob named by `id`. Every other blob
    /// is untouched, and an unknown identifier changes nothing at all.
    pub fn apply_input(&mut self, id: u64, event: InputEvent)
        requires
            old(self).wf(),
            event.wf(),
        ensures
            final(self).wf(),
            final(self).cfg == old(self).cfg,
            final(self).blobs@.len() == old(self).blobs@.len(),
            forall|i: int|
                0 <= i < old(self).blobs@.len() && old(self).blobs@[i].0 != id
                    ==> (#[trigger] final(self).blobs@[i]) == old(self).blobs@[i],
            forall|i: int|
                0 <= i < old(self).blobs@.len() && old(self).blobs@[i].0 == id
                    ==> (#[trigger] final(self).blobs@[i]) == (
                    id,
                    blob_applied(old(self).blobs@[i].1, event, old(self).cfg),
                    ),
    {
        let cfg = self.cfg;
        let n = self.blobs.len();
        let mut i: usize = 0;
        while i < n
            invariant
                n == self.blobs@.len(),
                0 <= i <= n,
                cfg == self.cfg,
                *self == *old(self),
                cfg.wf(),
                event.wf(),
                old(self).wf(),
                forall|j: int| 0 <= j < i ==> (#[trigger] self.blobs@[j]).0 != id,
            decreases n - i,
        {
            let (bid, mut b) = self.blobs[i];
            if bid == id {
                b.apply_input(event, &cfg);
                self.blobs.set(i, (id, b));
                proof {
                    assert forall|a: int, c: int|
                        0 <= a < c < self.blobs@.len() implies self.blobs@[a].0
                        != self.blobs@[c].0 by {
                        assert(self.blobs@[a].0 == old(self).blobs@[a].0);
                        assert(self.blobs@[c].0 == old(self).blobs@[c].0);
                    }
                    assert forall|j: int|
                        0 <= j < old(self).blobs@.len() && old(self).blobs@[j].0 != id
                            implies (#[trigger] self.blobs@[j]) == old(self).blobs@[j] by {}
                }
                return ;
            }
            i = i + 1;
        }
    }

    /// Read-only snapshot of the blob named by `id`, or `None` for an
    /// unknown identifier.
    pub fn blob(&self, id: u64) -> (r: Option<Blob>)
        ensures
            r is Some ==> exists|i: int|
                0 <= i < self.blobs@.len() && self.blobs@[i] == (id, r->Some_0),
            r is None ==> forall|i: int|
                0 <= i < self.blobs@.len() ==> (#[trigger] self.blobs@[i]).0 != id,
    {
        let n = self.blobs.len();
        let mut i: usize = 0;
        while i < n
            invariant
                n == self.blobs@.len(),
                0 <= i <= n,
                forall|j: int| 0 <= j < i ==> (#[trigger] self.blobs@[j]).0 != id,
            decreases n - i,
        {
            let (bid, b) = self.blobs[i];
            if bid == id {
                return Some(b);
            }
            i = i + 1;
        }
        None
    }
}

} // verus!
