//! The standard wiring: the behavior groups and transition bindings the
//! demo game registers once at startup.
//!
//! Three groups carry the mode predicates — loading, running and paused
//! — and a fourth, with no predicate, holds the always-eligible exit
//! behavior. The pause toggle belongs to both the running and the
//! paused group; camera movement and sprite spinning belong to the
//! running group only. The bindings tie asset acquisition to entering
//! `Loading`, the one-time world setup to exiting it, and the overlay
//! to entering and exiting `Paused`.

use vstd::prelude::*;
use crate::bindings::{Binding, Bindings, HookPoint};
use crate::gate::{BehaviorGroup, Schedule, Unit};
use crate::store::Mode;
use crate::world::HandlerAction;

verus! {

/// The standard groups: the loading group (empty — asset acquisition is
/// a transition binding, not a per-tick unit), the running group with
/// the pause toggle, camera movement and sprite spinning, the paused
/// group with the pause toggle again, and the predicate-free group with
/// the exit behavior.
pub open spec fn is_standard_schedule(s: Schedule) -> bool {
    &&& s.groups@.len() == 4
    &&& s.groups@[0].required == Some(Mode::Loading)
    &&& s.groups@[0].units@ == Seq::<Unit>::empty()
    &&& s.groups@[1].required == Some(Mode::Running)
    &&& s.groups@[1].units@ == seq![Unit::PauseToggle, Unit::MoveCamera, Unit::SpinSprite]
    &&& s.groups@[2].required == Some(Mode::Paused)
    &&& s.groups@[2].units@ == seq![Unit::PauseToggle]
    &&& s.groups@[3].required == Option::<Mode>::None
    &&& s.groups@[3].units@ == seq![Unit::ExitOnKey]
}

/// The standard bindings, in registration order: entering `Loading`
/// starts asset acquisition, exiting it runs the one-time world setup,
/// entering `Paused` opens the overlay, exiting it closes the overlay.
pub open spec fn is_standard_bindings(entries: Seq<Binding>) -> bool {
    entries == seq![
        Binding { hook: HookPoint::Enter(Mode::Loading), action: HandlerAction::StartAssetLoad },
        Binding { hook: HookPoint::Exit(Mode::Loading), action: HandlerAction::SetupWorld },
        Binding { hook: HookPoint::Enter(Mode::Paused), action: HandlerAction::OpenOverlay },
        Binding { hook: HookPoint::Exit(Mode::Paused), action: HandlerAction::CloseOverlay },
    ]
}

/// Builds the standard behavior groups, in the fixed order the
/// scheduler visits them.
pub fn standard_schedule() -> (s: Schedule)
    ensures
        is_standard_schedule(s),
{
    let loading_units: Vec<Unit> = Vec::new();

    let mut running_units: Vec<Unit> = Vec::new();
    running_units.push(Unit::PauseToggle);
    running_units.push(Unit::MoveCamera);
    running_units.push(Unit::SpinSprite);

    let mut paused_units: Vec<Unit> = Vec::new();
    paused_units.push(Unit::PauseToggle);

    let mut free_units: Vec<Unit> = Vec::new();
    free_units.push(Unit::ExitOnKey);

    proof {
        assert(loading_units@ =~= Seq::<Unit>::empty());
        assert(running_units@ =~= seq![Unit::PauseToggle, Unit::MoveCamera, Unit::SpinSprite]);
        assert(paused_units@ =~= seq![Unit::PauseToggle]);
        assert(free_units@ =~= seq![Unit::ExitOnKey]);
    }

    let mut groups: Vec<BehaviorGroup> = Vec::new();
    groups.push(BehaviorGroup { required: Some(Mode::Loading), units: loading_units });
    groups.push(BehaviorGroup { required: Some(Mode::Running), units: running_units });
    groups.push(BehaviorGroup { required: Some(Mode::Paused), units: paused_units });
    groups.push(BehaviorGroup { required: None, units: free_units });

    Schedule { groups }
}

/// Builds the standard transition bindings, in registration order.
pub fn standard_bindings() -> (b: Bindings)
    ensures
        is_standard_bindings(b.entries@),
{
    let mut b = Bindings::new();
    b.register(HookPoint::Enter(Mode::Loading), HandlerAction::StartAssetLoad);
    b.register(HookPoint::Exit(Mode::Loading), HandlerAction::SetupWorld);
    b.register(HookPoint::Enter(Mode::Paused), HandlerAction::OpenOverlay);
    b.register(HookPoint::Exit(Mode::Paused), HandlerAction::CloseOverlay);
    proof {
        assert(b.entries@ =~= seq![
            Binding {
                hook: HookPoint::Enter(Mode::Loading),
                action: HandlerAction::StartAssetLoad,
            },
            Binding { hook: HookPoint::Exit(Mode::Loading), action: HandlerAction::SetupWorld },
            Binding { hook: HookPoint::Enter(Mode::Paused), action: HandlerAction::OpenOverlay },
            Binding { hook: HookPoint::Exit(Mode::Paused), action: HandlerAction::CloseOverlay },
        ]);
    }
    b
}

} // verus!
