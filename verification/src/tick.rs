//! Scheduler integration: one cooperative tick.
//!
//! Each tick runs in a fixed order: every eligible behavior group is
//! decided against the mode at the start of the tick, the input-driven
//! triggers file their transition requests, and only then — at the tick
//! boundary — the single commit applies the pending request and fires
//! the transition bindings. A request made mid-tick therefore never
//! changes which units run within the same tick; the new mode takes
//! effect starting next tick.

use vstd::prelude::*;
use crate::bindings::{actions_for_spec, fired_actions, Binding, Bindings, HookPoint};
use crate::gate::{eligible_units_of, unit_eligible, Schedule, Unit};
use crate::store::{commit_transition, mode_after_commit, Mode, ModeStore};
use crate::world::{apply_actions_spec, Fault, HandlerAction, WorldModel};

verus! {

/// The instantaneous per-tick inputs the engine hands the controller:
/// the edge-detected "newly pressed this tick" signals for the pause
/// and exit keys, and the asynchronous load-completion signal.
#[derive(Clone, Copy, PartialEq, Eq, Debug, Structural)]
pub struct TickInput {
    /// The designated pause key was newly pressed this tick.
    pub pause_pressed: bool,
    /// The designated exit key was newly pressed this tick.
    pub exit_pressed: bool,
    /// The bulk resource acquisition reported completion this tick.
    pub load_done: bool,
}

/// What one tick decided, for the engine loop to perform.
#[derive(Debug)]
pub struct TickReport {
    /// The units to run this tick, in the scheduler's fixed order —
    /// all decided against the mode at the start of the tick.
    pub ran: Vec<Unit>,
    /// Whether the always-eligible exit behavior asked to leave.
    pub exit_requested: bool,
    /// The `(from, to)` edge committed at the tick boundary, if any.
    pub transition: Option<(Mode, Mode)>,
    /// The handler actions the committed edge fired, in firing order.
    pub fired: Vec<HandlerAction>,
}

/// The mode the pause toggle requests: `Paused` from `Running`,
/// `Running` otherwise. The toggle runs only where its group is
/// eligible, so the `Running`-from-anywhere arm is reached only from
/// `Paused` under the standard wiring.
pub open spec fn pause_target(cur: Mode) -> Mode {
    if cur == Mode::Running {
        Mode::Paused
    } else {
        Mode::Running
    }
}

/// The pending slot once this tick's triggers have run, starting from
/// slot `pend0`: load completion requests `Running`, then an eligible
/// pause toggle overwrites it (last write wins — requests do not
/// queue).
pub open spec fn requested_after(cur: Mode, pend0: Option<Mode>, s: Schedule, input: TickInput) -> Option<
    Mode,
> {
    let after_load = if input.load_done {
        Some(Mode::Running)
    } else {
        pend0
    };
    if input.pause_pressed && unit_eligible(s, cur, Unit::PauseToggle) {
        Some(pause_target(cur))
    } else {
        after_load
    }
}

/// The edge this tick commits at its boundary, if any.
pub open spec fn tick_transition(cur: Mode, pend0: Option<Mode>, s: Schedule, input: TickInput) -> Option<
    (Mode, Mode),
> {
    commit_transition(cur, requested_after(cur, pend0, s, input))
}

/// The active mode once this tick is over.
pub open spec fn mode_after_tick(cur: Mode, pend0: Option<Mode>, s: Schedule, input: TickInput) -> Mode {
    mode_after_commit(cur, requested_after(cur, pend0, s, input))
}

/// The world model once this tick's handler chain has run, and the
/// fault that aborted the chain, if one did.
pub open spec fn tick_world_outcome(
    cur: Mode,
    pend0: Option<Mode>,
    w: WorldModel,
    s: Schedule,
    entries: Seq<Binding>,
    input: TickInput,
) -> (WorldModel, Option<Fault>) {
    match tick_transition(cur, pend0, s, input) {
        Some(edge) => apply_actions_spec(w, fired_actions(entries, edge.0, edge.1), 0),
        None => (w, None),
    }
}

/// Startup: before the first tick, the enter bindings of the initial
/// mode fire once, in insertion order. Returns the actions fired, for
/// the engine loop to perform, or the fault that aborted the chain.
pub fn start(store: &ModeStore, world: &mut WorldModel, binds: &Bindings) -> (r: Result<
    Vec<HandlerAction>,
    Fault,
>)
    ensures
        ({
            let acts = actions_for_spec(binds.entries@, HookPoint::Enter(store.cur()), 0);
            let outcome = apply_actions_spec(*old(world), acts, 0);
            &&& *final(world) == outcome.0
            &&& match r {
                Ok(fired) => outcome.1 is None && fired@ == acts,
                Err(f) => outcome.1 == Some(f),
            }
        }),
{
    let m = store.current();
    let fired = binds.enter_actions(m);
    match world.apply_actions(&fired) {
        Ok(()) => Ok(fired),
        Err(f) => Err(f),
    }
}

/// One tick: run every eligible unit (decided against the mode at the
/// start of the tick), let the triggers file their requests, then
/// commit once and fire the committed edge's bindings in order.
///
/// On `Ok`, the report lists the units run, the exit decision, the
/// committed edge and the actions fired, and the world model reflects
/// the whole handler chain. On `Err`, a handler found a violated
/// invariant: the chain stopped there — the world model keeps the
/// actions applied before the fault — while the store still holds the
/// committed mode with its pending slot drained, so the next tick
/// proceeds normally once the condition is fixed externally.
pub fn run_tick(
    store: &mut ModeStore,
    world: &mut WorldModel,
    schedule: &Schedule,
    binds: &Bindings,
    input: TickInput,
) -> (r: Result<TickReport, Fault>)
    ensures
        final(store).pend() is None,
        final(store).cur() == mode_after_tick(old(store).cur(), old(store).pend(), *schedule, input),
        ({
            let outcome = tick_world_outcome(
                old(store).cur(),
                old(store).pend(),
                *old(world),
                *schedule,
                binds.entries@,
                input,
            );
            &&& *final(world) == outcome.0
            &&& match r {
                Ok(report) => {
                    &&& outcome.1 is None
                    &&& report.ran@ == eligible_units_of(*schedule, old(store).cur())
                    &&& report.exit_requested == (input.exit_pressed && unit_eligible(
                        *schedule,
                        old(store).cur(),
                        Unit::ExitOnKey,
                    ))
                    &&& report.transition == tick_transition(
                        old(store).cur(),
                        old(store).pend(),
                        *schedule,
                        input,
                    )
                    &&& report.fired@ == match report.transition {
                        Some(edge) => fired_actions(binds.entries@, edge.0, edge.1),
                        None => Seq::<HandlerAction>::empty(),
                    }
                },
                Err(f) => outcome.1 == Some(f),
            }
        }),
{
    let m0 = store.current();
    let ran = schedule.eligible_units(m0);
    let exit_requested = input.exit_pressed && schedule.is_unit_eligible(m0, Unit::ExitOnKey);
    if input.load_done {
        store.request_transition(Mode::Running);
    }
    if input.pause_pressed && schedule.is_unit_eligible(m0, Unit::PauseToggle) {
        if m0 == Mode::Running {
            store.request_transition(Mode::Paused);
        } else {
            store.request_transition(Mode::Running);
        }
    }
    let transition = store.commit();
    match transition {
        Some((from_mode, to_mode)) => {
            let fired = binds.fired_for(from_mode, to_mode);
            match world.apply_actions(&fired) {
                Ok(()) => Ok(
                    TickReport {
                        ran,
                        exit_requested,
                        transition: Some((from_mode, to_mode)),
                        fired,
                    },
                ),
                Err(f) => Err(f),
            }
        },
        None => {
            let fired: Vec<HandlerAction> = Vec::new();
            proof {
                assert(fired@ =~= Seq::<HandlerAction>::empty());
            }
            Ok(TickReport { ran, exit_requested, transition: None, fired })
        },
    }
}

} // verus!
