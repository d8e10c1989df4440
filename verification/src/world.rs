//! The world model: the observable effects of the transition handlers.
//!
//! The engine collaborator owns the real entities; the controller tracks
//! here exactly what its contracts speak of — whether asset loading has
//! been requested, whether the one-time world setup has run, and how
//! many paused-overlay entities exist (an overlay's child entities are
//! destroyed with it, so one count covers an overlay and its
//! descendants).

use vstd::prelude::*;

verus! {

/// The effect a transition binding asks for. The engine loop performs
/// the real work (spawning sprites, building the overlay, despawning
/// it); the controller applies the matching bookkeeping to the world
/// model and hands the action list out in firing order.
#[derive(Clone, Copy, PartialEq, Eq, Hash, Debug, Structural)]
pub enum HandlerAction {
    /// On entering `Loading`: request bulk acquisition of the required
    /// external resources.
    StartAssetLoad,
    /// On exiting `Loading`: one-time world setup, which the
    /// exit-hook-fires-once invariant guarantees runs exactly once.
    SetupWorld,
    /// On entering `Paused`: create the one paused-overlay entity.
    OpenOverlay,
    /// On exiting `Paused`: destroy the paused-overlay entity and its
    /// descendants.
    CloseOverlay,
}

/// A contract violation: unrecoverable for the current tick, never
/// silently ignored. The diagnostic names the violated invariant.
#[derive(Clone, Copy, PartialEq, Eq, Debug, Structural)]
pub enum Fault {
    /// Overlay entities were out of balance with the mode history: the
    /// count found is carried for diagnosis.
    OverlayImbalance { found: u32 },
}

/// What the transition handlers have done to the world so far.
pub struct WorldModel {
    /// How many paused-overlay entities exist. Balanced entry and exit
    /// keep this at one inside `Paused` and zero outside it.
    pub overlay_count: u32,
    /// Whether the one-time world setup has run.
    pub setup_done: bool,
    /// Whether bulk asset acquisition has been requested.
    pub load_started: bool,
}

/// The effect of one handler action on the world model: the updated
/// model, or the fault that aborts the tick's remaining handler chain.
///
/// Entering `Paused` must create exactly one overlay, and exiting must
/// destroy exactly that one: exit tolerates zero or one overlay, but
/// more than one — or any overlay already present on entry — indicates
/// a prior entry/exit imbalance and fails loudly rather than silently
/// corrupting state.
pub open spec fn apply_action_spec(w: WorldModel, a: HandlerAction) -> Result<WorldModel, Fault> {
    match a {
        HandlerAction::StartAssetLoad => Ok(
            WorldModel {
                overlay_count: w.overlay_count,
                setup_done: w.setup_done,
                load_started: true,
            },
        ),
        HandlerAction::SetupWorld => Ok(
            WorldModel {
                overlay_count: w.overlay_count,
                setup_done: true,
                load_started: w.load_started,
            },
        ),
        HandlerAction::OpenOverlay => if w.overlay_count == 0 {
            Ok(WorldModel { overlay_count: 1, setup_done: w.setup_done, load_started: w.load_started })
        } else {
            Err(Fault::OverlayImbalance { found: w.overlay_count })
        },
        HandlerAction::CloseOverlay => if w.overlay_count <= 1 {
            Ok(WorldModel { overlay_count: 0, setup_done: w.setup_done, load_started: w.load_started })
        } else {
            Err(Fault::OverlayImbalance { found: w.overlay_count })
        },
    }
}

/// The effect of the actions from index `i` on, applied in order. A
/// fault stops the chain: the faulting action and the actions after it
/// leave the model as it was.
pub open spec fn apply_actions_spec(w: WorldModel, acts: Seq<HandlerAction>, i: int) -> (
    WorldModel,
    Option<Fault>,
)
    decreases acts.len() - i,
{
    if i < 0 || i >= acts.len() {
        (w, None)
    } else {
        match apply_action_spec(w, acts[i]) {
            Ok(w2) => apply_actions_spec(w2, acts, i + 1),
            Err(f) => (w, Some(f)),
        }
    }
}

impl WorldModel {
    /// A fresh world: nothing loaded, nothing set up, no overlay.
    pub fn new() -> (w: Self)
        ensures
            w.overlay_count == 0,
            !w.setup_done,
            !w.load_started,
    {
        WorldModel { overlay_count: 0, setup_done: false, load_started: false }
    }

    /// Applies one handler action's bookkeeping, or reports the
    /// violated invariant and leaves the model untouched.
    pub fn apply_action(&mut self, a: HandlerAction) -> (r: Result<(), Fault>)
        ensures
            match apply_action_spec(*old(self), a) {
                Ok(w2) => r is Ok && *final(self) == w2,
                Err(f) => r == Err::<(), Fault>(f) && *final(self) == *old(self),
            },
    {
        match a {
            HandlerAction::StartAssetLoad => {
                self.load_started = true;
                Ok(())
            },
            HandlerAction::SetupWorld => {
                self.setup_done = true;
                Ok(())
            },
            HandlerAction::OpenOverlay => {
                if self.overlay_count == 0 {
                    self.overlay_count = 1;
                    Ok(())
                } else {
                    Err(Fault::OverlayImbalance { found: self.overlay_count })
                }
            },
            HandlerAction::CloseOverlay => {
                if self.overlay_count <= 1 {
                    self.overlay_count = 0;
                    Ok(())
                } else {
                    Err(Fault::OverlayImbalance { found: self.overlay_count })
                }
            },
        }
    }

    /// Applies a chain of handler actions in order, stopping at the
    /// first fault: the remaining handler chain of the tick is aborted,
    /// and the faulting action leaves the model as it was.
    pub fn apply_actions(&mut self, acts: &Vec<HandlerAction>) -> (r: Result<(), Fault>)
        ensures
            match apply_actions_spec(*old(self), acts@, 0) {
                (w2, None) => r is Ok && *final(self) == w2,
                (w2, Some(f)) => r == Err::<(), Fault>(f) && *final(self) == w2,
            },
    {
        let mut i: usize = 0;
        while i < acts.len()
            invariant
                0 <= i <= acts@.len(),
                apply_actions_spec(*old(self), acts@, 0) == apply_actions_spec(
                    *self,
                    acts@,
                    i as int,
                ),
            decreases acts@.len() - i,
        {
            match self.apply_action(acts[i]) {
                Ok(()) => {},
                Err(f) => {
                    return Err(f);
                },
            }
            i = i + 1;
        }
        Ok(())
    }
}

} // verus!
