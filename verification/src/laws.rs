//! The laws of the mode controller, stated and proved over the spec
//! model of a tick: mode changes happen only at tick boundaries, the
//! only way out of `Loading` is the load-completion signal, the pause
//! toggle alternates `Running` and `Paused`, each unit is eligible
//! exactly where its groups say, and balanced transitions keep exactly
//! one overlay inside `Paused` and none outside it.

use vstd::prelude::*;
use crate::bindings::{actions_for_spec, fired_actions, Binding, HookPoint};
use crate::gate::{eligible_units_of, group_eligible, unit_eligible, Schedule, Unit};
use crate::store::Mode;
use crate::tick::{
    mode_after_tick, pause_target, requested_after, tick_transition, tick_world_outcome, TickInput,
};
use crate::wiring::{is_standard_bindings, is_standard_schedule};
use crate::world::{apply_actions_spec, HandlerAction, WorldModel};

verus! {

/// The units a tick runs, as a function of the full tick state: the
/// pending slot and the tick's inputs are deliberately ignored, because
/// the scheduler decides every group against the mode at the start of
/// the tick.
pub open spec fn tick_run_units(cur: Mode, pend0: Option<Mode>, s: Schedule, input: TickInput) -> Seq<
    Unit,
> {
    eligible_units_of(s, cur)
}

/// The mode reached by running a whole sequence of ticks from mode
/// `m0` with an empty pending slot — the shape every tick leaves the
/// store in, since a commit always drains the slot.
pub open spec fn mode_after_seq(m0: Mode, s: Schedule, inputs: Seq<TickInput>) -> Mode
    decreases inputs.len(),
{
    if inputs.len() == 0 {
        m0
    } else {
        mode_after_seq(mode_after_tick(m0, None, s, inputs[0]), s, inputs.drop_first())
    }
}

/// The current mode changes only across a tick boundary, never
/// mid-tick: the units a tick runs are a function of the boundary mode
/// alone. Whatever sits in the pending slot and whatever requests this
/// tick's inputs trigger, they take effect at the commit — the next
/// boundary — and never change what runs within the tick itself.
pub proof fn lemma_mode_changes_only_across_ticks(
    cur: Mode,
    pend_a: Option<Mode>,
    pend_b: Option<Mode>,
    s: Schedule,
    input_a: TickInput,
    input_b: TickInput,
)
    ensures
        tick_run_units(cur, pend_a, s, input_a) == tick_run_units(cur, pend_b, s, input_b),
        tick_run_units(cur, pend_a, s, input_a) == eligible_units_of(s, cur),
{
}

/// Under the standard wiring each per-tick unit is eligible exactly
/// where its groups say: camera movement and sprite spinning only in
/// `Running`; the pause toggle in `Running` and `Paused` but not in
/// `Loading`.
pub proof fn lemma_standard_gating(s: Schedule, m: Mode)
    requires
        is_standard_schedule(s),
    ensures
        unit_eligible(s, m, Unit::MoveCamera) <==> m == Mode::Running,
        unit_eligible(s, m, Unit::SpinSprite) <==> m == Mode::Running,
        unit_eligible(s, m, Unit::PauseToggle) <==> (m == Mode::Running || m == Mode::Paused),
{
    let groups = s.groups@;
    assert(seq![Unit::PauseToggle, Unit::MoveCamera, Unit::SpinSprite][0] == Unit::PauseToggle);
    assert(seq![Unit::PauseToggle, Unit::MoveCamera, Unit::SpinSprite][1] == Unit::MoveCamera);
    assert(seq![Unit::PauseToggle, Unit::MoveCamera, Unit::SpinSprite][2] == Unit::SpinSprite);
    assert(seq![Unit::PauseToggle][0] == Unit::PauseToggle);
    assert(seq![Unit::ExitOnKey][0] == Unit::ExitOnKey);
    if m == Mode::Running {
        assert(group_eligible(groups[1].required, m));
        assert(groups[1].units@.contains(Unit::MoveCamera));
        assert(groups[1].units@.contains(Unit::SpinSprite));
        assert(groups[1].units@.contains(Unit::PauseToggle));
    }
    if m == Mode::Paused {
        assert(group_eligible(groups[2].required, m));
        assert(groups[2].units@.contains(Unit::PauseToggle));
    }
    if unit_eligible(s, m, Unit::MoveCamera) {
        let i = choose|i: int|
            0 <= i < groups.len() && group_eligible(#[trigger] groups[i].required, m)
                && groups[i].units@.contains(Unit::MoveCamera);
        assert(i == 1) by {
            assert(!groups[0].units@.contains(Unit::MoveCamera));
            assert(!groups[2].units@.contains(Unit::MoveCamera));
            assert(!groups[3].units@.contains(Unit::MoveCamera));
        }
        assert(m == Mode::Running);
    }
    if unit_eligible(s, m, Unit::SpinSprite) {
        let i = choose|i: int|
            0 <= i < groups.len() && group_eligible(#[trigger] groups[i].required, m)
                && groups[i].units@.contains(Unit::SpinSprite);
        assert(i == 1) by {
            assert(!groups[0].units@.contains(Unit::SpinSprite));
            assert(!groups[2].units@.contains(Unit::SpinSprite));
            assert(!groups[3].units@.contains(Unit::SpinSprite));
        }
        assert(m == Mode::Running);
    }
    if unit_eligible(s, m, Unit::PauseToggle) {
        let i = choose|i: int|
            0 <= i < groups.len() && group_eligible(#[trigger] groups[i].required, m)
                && groups[i].units@.contains(Unit::PauseToggle);
        assert(i == 1 || i == 2) by {
            assert(!groups[0].units@.contains(Unit::PauseToggle));
            assert(!groups[3].units@.contains(Unit::PauseToggle));
        }
        assert(m == Mode::Running || m == Mode::Paused);
    }
}

/// The exit behavior is eligible in every mode: its group carries no
/// mode predicate, so no mode can filter it out.
pub proof fn lemma_exit_always_eligible(s: Schedule, m: Mode)
    requires
        is_standard_schedule(s),
    ensures
        unit_eligible(s, m, Unit::ExitOnKey),
{
    let groups = s.groups@;
    assert(group_eligible(groups[3].required, m));
    assert(seq![Unit::ExitOnKey][0] == Unit::ExitOnKey);
    assert(groups[3].units@.contains(Unit::ExitOnKey));
}

/// The controller starts in `Loading` (the contract of
/// `ModeStore::new`), and `Running` is reachable only after the
/// load-completion signal has fired at least once: over any sequence of
/// ticks in which the signal never fires, the mode stays `Loading` —
/// under the standard wiring nothing else can request a way out.
pub proof fn lemma_running_needs_load_completion(s: Schedule, inputs: Seq<TickInput>)
    requires
        is_standard_schedule(s),
        forall|i: int| 0 <= i < inputs.len() ==> !(#[trigger] inputs[i]).load_done,
    ensures
        mode_after_seq(Mode::Loading, s, inputs) == Mode::Loading,
    decreases inputs.len(),
{
    if inputs.len() > 0 {
        let input0 = inputs[0];
        lemma_standard_gating(s, Mode::Loading);
        assert(requested_after(Mode::Loading, None, s, input0) is None);
        assert(mode_after_tick(Mode::Loading, None, s, input0) == Mode::Loading);
        let rest = inputs.drop_first();
        assert forall|i: int| 0 <= i < rest.len() implies !(#[trigger] rest[i]).load_done by {
            assert(rest[i] == inputs[i + 1]);
        }
        lemma_running_needs_load_completion(s, rest);
    }
}

/// A tick in which only the pause key was newly pressed.
pub open spec fn pause_press() -> TickInput {
    TickInput { pause_pressed: true, exit_pressed: false, load_done: false }
}

/// `n` consecutive ticks, each with one fresh pause-key press.
pub open spec fn pause_presses(n: nat) -> Seq<TickInput> {
    Seq::new(n, |i: int| pause_press())
}

/// Toggling the pause key an even number of times from `Running`
/// returns to `Running`; an odd number leaves the controller `Paused`
/// — and symmetrically from `Paused`.
pub proof fn lemma_pause_toggle_parity(s: Schedule, start: Mode, n: nat)
    requires
        is_standard_schedule(s),
        start == Mode::Running || start == Mode::Paused,
    ensures
        mode_after_seq(start, s, pause_presses(n)) == if n % 2 == 0 {
            start
        } else {
            pause_target(start)
        },
    decreases n,
{
    if n > 0 {
        lemma_standard_gating(s, start);
        let presses = pause_presses(n);
        assert(presses[0] == pause_press());
        assert(requested_after(start, None, s, presses[0]) == Some(pause_target(start)));
        assert(mode_after_tick(start, None, s, presses[0]) == pause_target(start));
        assert(presses.drop_first() =~= pause_presses((n - 1) as nat));
        lemma_pause_toggle_parity(s, pause_target(start), (n - 1) as nat);
    }
}

/// The actions each hook fires under the standard bindings: asset
/// acquisition on entering `Loading`, the one-time setup on exiting it,
/// the overlay on entering and exiting `Paused`, nothing anywhere else.
pub open spec fn standard_hook_actions(h: HookPoint) -> Seq<HandlerAction> {
    match h {
        HookPoint::Enter(Mode::Loading) => seq![HandlerAction::StartAssetLoad],
        HookPoint::Exit(Mode::Loading) => seq![HandlerAction::SetupWorld],
        HookPoint::Enter(Mode::Paused) => seq![HandlerAction::OpenOverlay],
        HookPoint::Exit(Mode::Paused) => seq![HandlerAction::CloseOverlay],
        _ => Seq::empty(),
    }
}

/// Evaluates the standard binding registry at each hook.
pub proof fn lemma_standard_actions(entries: Seq<Binding>, h: HookPoint)
    requires
        is_standard_bindings(entries),
    ensures
        actions_for_spec(entries, h, 0) == standard_hook_actions(h),
{
    reveal_with_fuel(actions_for_spec, 6);
    assert(actions_for_spec(entries, h, 0) =~= standard_hook_actions(h));
}

/// A world model in balance with the mode: exactly one overlay while
/// `Paused`, none otherwise.
pub open spec fn overlay_consistent(cur: Mode, w: WorldModel) -> bool {
    w.overlay_count == if cur == Mode::Paused {
        1u32
    } else {
        0u32
    }
}

/// Entering `Paused` creates exactly one overlay and exiting destroys
/// exactly that one: under the standard bindings, a tick from a
/// balanced state never faults and ends balanced again — so entering
/// and exiting twice in a row ends with zero overlays and no error.
pub proof fn lemma_overlay_balanced(
    cur: Mode,
    pend0: Option<Mode>,
    w: WorldModel,
    s: Schedule,
    entries: Seq<Binding>,
    input: TickInput,
)
    requires
        is_standard_bindings(entries),
        overlay_consistent(cur, w),
    ensures
        ({
            let outcome = tick_world_outcome(cur, pend0, w, s, entries, input);
            &&& outcome.1 is None
            &&& overlay_consistent(mode_after_tick(cur, pend0, s, input), outcome.0)
        }),
{
    reveal_with_fuel(apply_actions_spec, 4);
    match tick_transition(cur, pend0, s, input) {
        None => {},
        Some(edge) => {
            let from_mode = edge.0;
            let to_mode = edge.1;
            lemma_standard_actions(entries, HookPoint::Exit(from_mode));
            lemma_standard_actions(entries, HookPoint::Enter(to_mode));
            let acts = fired_actions(entries, from_mode, to_mode);
            assert(acts == standard_hook_actions(HookPoint::Exit(from_mode))
                + standard_hook_actions(HookPoint::Enter(to_mode)));
            assert(from_mode != to_mode);
            assert(mode_after_tick(cur, pend0, s, input) == to_mode);
            if from_mode == Mode::Paused {
                assert(acts[0] == HandlerAction::CloseOverlay);
            }
        },
    }
}

/// Every tick of the sequence keeps the overlay bookkeeping balanced
/// and none of its handler chains faults.
pub open spec fn seq_stays_balanced(
    cur: Mode,
    w: WorldModel,
    s: Schedule,
    entries: Seq<Binding>,
    inputs: Seq<TickInput>,
) -> bool
    decreases inputs.len(),
{
    if inputs.len() == 0 {
        true
    } else {
        let outcome = tick_world_outcome(cur, None, w, s, entries, inputs[0]);
        &&& outcome.1 is None
        &&& seq_stays_balanced(
            mode_after_tick(cur, None, s, inputs[0]),
            outcome.0,
            s,
            entries,
            inputs.drop_first(),
        )
    }
}

/// From any balanced state — in particular from startup, where the mode
/// is `Loading` and no overlay exists — no sequence of tick inputs can
/// make a handler chain fault: entries and exits of `Paused` stay
/// balanced forever under the standard bindings.
pub proof fn lemma_never_faults(
    cur: Mode,
    w: WorldModel,
    s: Schedule,
    entries: Seq<Binding>,
    inputs: Seq<TickInput>,
)
    requires
        is_standard_bindings(entries),
        overlay_consistent(cur, w),
    ensures
        seq_stays_balanced(cur, w, s, entries, inputs),
    decreases inputs.len(),
{
    if inputs.len() > 0 {
        lemma_overlay_balanced(cur, None, w, s, entries, inputs[0]);
        let outcome = tick_world_outcome(cur, None, w, s, entries, inputs[0]);
        lemma_never_faults(
            mode_after_tick(cur, None, s, inputs[0]),
            outcome.0,
            s,
            entries,
            inputs.drop_first(),
        );
    }
}

} // verus!
