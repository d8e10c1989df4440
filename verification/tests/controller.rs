use mode_controller::bindings::{Binding, Bindings, HookPoint};
use mode_controller::gate::Unit;
use mode_controller::store::{Mode, ModeStore};
use mode_controller::tick::{run_tick, start, TickInput, TickReport};
use mode_controller::wiring::{standard_bindings, standard_schedule};
use mode_controller::world::{Fault, HandlerAction, WorldModel};

fn quiet_tick() -> TickInput {
    TickInput { pause_pressed: false, exit_pressed: false, load_done: false }
}

fn pause_tick() -> TickInput {
    TickInput { pause_pressed: true, exit_pressed: false, load_done: false }
}

fn load_done_tick() -> TickInput {
    TickInput { pause_pressed: false, exit_pressed: false, load_done: true }
}

#[test]
fn starts_in_loading() {
    let store = ModeStore::new();
    assert_eq!(store.current(), Mode::Loading);
}

#[test]
fn startup_fires_enter_loading_bindings() {
    let store = ModeStore::new();
    let mut world = WorldModel::new();
    let b = standard_bindings();
    let fired = start(&store, &mut world, &b).expect("startup chain must not fault");
    assert_eq!(fired, vec![HandlerAction::StartAssetLoad]);
    assert!(world.load_started);
    assert!(!world.setup_done);
    assert_eq!(world.overlay_count, 0);
}

#[test]
fn load_completion_commits_running_and_sets_up_once() {
    // Scenario: request `Running` while in `Loading`, then the tick-boundary
    // commit fires on-exit(Loading) and on-enter(Running), in that order.
    let mut store = ModeStore::new();
    let mut world = WorldModel::new();
    let s = standard_schedule();
    let b = standard_bindings();
    start(&store, &mut world, &b).expect("startup chain must not fault");

    let report = run_tick(&mut store, &mut world, &s, &b, load_done_tick())
        .expect("the load-completion tick must not fault");
    assert_eq!(store.current(), Mode::Running);
    assert_eq!(report.transition, Some((Mode::Loading, Mode::Running)));
    // The one binding on exiting `Loading` fires exactly once; nothing is
    // bound to entering `Running`.
    assert_eq!(report.fired, vec![HandlerAction::SetupWorld]);
    assert!(world.setup_done);
    assert_eq!(world.overlay_count, 0);
}

#[test]
fn pause_key_toggles_paused_and_overlay() {
    // Scenario: in `Running`, one pause press commits `Paused` with one
    // overlay entity; a second press commits `Running` with zero.
    let mut store = ModeStore::new();
    let mut world = WorldModel::new();
    let s = standard_schedule();
    let b = standard_bindings();
    start(&store, &mut world, &b).expect("startup chain must not fault");
    run_tick(&mut store, &mut world, &s, &b, load_done_tick()).expect("load tick");

    let report = run_tick(&mut store, &mut world, &s, &b, pause_tick()).expect("pause tick");
    assert_eq!(store.current(), Mode::Paused);
    assert_eq!(report.transition, Some((Mode::Running, Mode::Paused)));
    assert_eq!(report.fired, vec![HandlerAction::OpenOverlay]);
    assert_eq!(world.overlay_count, 1);

    let report = run_tick(&mut store, &mut world, &s, &b, pause_tick()).expect("unpause tick");
    assert_eq!(store.current(), Mode::Running);
    assert_eq!(report.transition, Some((Mode::Paused, Mode::Running)));
    assert_eq!(report.fired, vec![HandlerAction::CloseOverlay]);
    assert_eq!(world.overlay_count, 0);
}

#[test]
fn pause_toggle_parity() {
    // An even number of presses from `Running` returns to `Running`; an odd
    // number leaves the controller `Paused`.
    let s = standard_schedule();
    let b = standard_bindings();
    for presses in 0..5u32 {
        let mut store = ModeStore::new();
        let mut world = WorldModel::new();
        start(&store, &mut world, &b).expect("startup chain must not fault");
        run_tick(&mut store, &mut world, &s, &b, load_done_tick()).expect("load tick");
        assert_eq!(store.current(), Mode::Running);
        for _ in 0..presses {
            run_tick(&mut store, &mut world, &s, &b, pause_tick()).expect("pause tick");
        }
        let expected = if presses % 2 == 0 { Mode::Running } else { Mode::Paused };
        assert_eq!(store.current(), expected);
        let expected_overlays: u32 = if presses % 2 == 0 { 0 } else { 1 };
        assert_eq!(world.overlay_count, expected_overlays);
    }
}

#[test]
fn pause_key_is_ignored_while_loading() {
    let mut store = ModeStore::new();
    let mut world = WorldModel::new();
    let s = standard_schedule();
    let b = standard_bindings();
    start(&store, &mut world, &b).expect("startup chain must not fault");

    let report = run_tick(&mut store, &mut world, &s, &b, pause_tick()).expect("tick");
    assert_eq!(store.current(), Mode::Loading);
    assert_eq!(report.transition, None);
    assert_eq!(report.fired, Vec::<HandlerAction>::new());
}

#[test]
fn exit_key_is_honored_in_every_mode() {
    let s = standard_schedule();
    let b = standard_bindings();
    let exit_input = TickInput { pause_pressed: false, exit_pressed: true, load_done: false };

    // Loading
    let mut store = ModeStore::new();
    let mut world = WorldModel::new();
    let report = run_tick(&mut store, &mut world, &s, &b, exit_input).expect("tick");
    assert!(report.exit_requested);

    // Running
    let mut store = ModeStore::new();
    let mut world = WorldModel::new();
    run_tick(&mut store, &mut world, &s, &b, load_done_tick()).expect("load tick");
    let report = run_tick(&mut store, &mut world, &s, &b, exit_input).expect("tick");
    assert!(report.exit_requested);

    // Paused
    run_tick(&mut store, &mut world, &s, &b, pause_tick()).expect("pause tick");
    assert_eq!(store.current(), Mode::Paused);
    let report = run_tick(&mut store, &mut world, &s, &b, exit_input).expect("tick");
    assert!(report.exit_requested);
}

#[test]
fn units_run_by_mode() {
    // Movement and spin run only in `Running`; the pause toggle runs in
    // `Running` and `Paused` but not `Loading`; exit runs everywhere.
    let mut store = ModeStore::new();
    let mut world = WorldModel::new();
    let s = standard_schedule();
    let b = standard_bindings();

    let report = run_tick(&mut store, &mut world, &s, &b, quiet_tick()).expect("tick");
    assert_eq!(report.ran, vec![Unit::ExitOnKey]);

    run_tick(&mut store, &mut world, &s, &b, load_done_tick()).expect("load tick");
    let report = run_tick(&mut store, &mut world, &s, &b, quiet_tick()).expect("tick");
    assert_eq!(
        report.ran,
        vec![Unit::PauseToggle, Unit::MoveCamera, Unit::SpinSprite, Unit::ExitOnKey],
    );

    run_tick(&mut store, &mut world, &s, &b, pause_tick()).expect("pause tick");
    let report = run_tick(&mut store, &mut world, &s, &b, quiet_tick()).expect("tick");
    assert_eq!(report.ran, vec![Unit::PauseToggle, Unit::ExitOnKey]);
}

#[test]
fn eligibility_queries_by_mode() {
    let s = standard_schedule();
    for m in [Mode::Loading, Mode::Running, Mode::Paused] {
        assert!(s.is_unit_eligible(m, Unit::ExitOnKey));
        assert_eq!(s.is_unit_eligible(m, Unit::MoveCamera), m == Mode::Running);
        assert_eq!(s.is_unit_eligible(m, Unit::SpinSprite), m == Mode::Running);
        assert_eq!(
            s.is_unit_eligible(m, Unit::PauseToggle),
            m == Mode::Running || m == Mode::Paused,
        );
    }
}

#[test]
fn mode_moves_only_at_commit() {
    // A request leaves the active mode in place; the commit at the tick
    // boundary applies it.
    let mut store = ModeStore::new();
    store.request_transition(Mode::Running);
    assert_eq!(store.current(), Mode::Loading);
    let edge = store.commit();
    assert_eq!(edge, Some((Mode::Loading, Mode::Running)));
    assert_eq!(store.current(), Mode::Running);
}

#[test]
fn commit_drains_the_pending_slot() {
    let mut store = ModeStore::new();
    store.request_transition(Mode::Running);
    assert_eq!(store.commit(), Some((Mode::Loading, Mode::Running)));
    // The applied request is never read twice.
    assert_eq!(store.commit(), None);
    assert_eq!(store.current(), Mode::Running);
}

#[test]
fn committing_the_active_mode_is_a_no_op() {
    let mut store = ModeStore::new();
    store.request_transition(Mode::Loading);
    assert_eq!(store.commit(), None);
    assert_eq!(store.current(), Mode::Loading);
}

#[test]
fn last_request_in_a_tick_wins() {
    let mut store = ModeStore::new();
    store.request_transition(Mode::Running);
    store.request_transition(Mode::Paused);
    assert_eq!(store.commit(), Some((Mode::Loading, Mode::Paused)));
    assert_eq!(store.current(), Mode::Paused);
}

#[test]
fn pause_press_overrides_load_completion_in_one_tick() {
    // Both triggers fire in one tick from `Running`: the pause toggle files
    // its request after the load signal, and the last write wins.
    let mut store = ModeStore::new();
    let mut world = WorldModel::new();
    let s = standard_schedule();
    let b = standard_bindings();
    run_tick(&mut store, &mut world, &s, &b, load_done_tick()).expect("load tick");
    assert_eq!(store.current(), Mode::Running);

    let both = TickInput { pause_pressed: true, exit_pressed: false, load_done: true };
    let report = run_tick(&mut store, &mut world, &s, &b, both).expect("tick");
    assert_eq!(report.transition, Some((Mode::Running, Mode::Paused)));
    assert_eq!(store.current(), Mode::Paused);
}

#[test]
fn overlay_imbalance_fails_loudly() {
    // More than one overlay on exiting `Paused` is a contract violation:
    // the tick reports it, the world model is left as found, and the store
    // still commits, so the next tick proceeds once the condition is fixed.
    let mut store = ModeStore::new();
    store.request_transition(Mode::Paused);
    store.commit();
    assert_eq!(store.current(), Mode::Paused);

    let mut world = WorldModel::new();
    world.overlay_count = 2;
    let s = standard_schedule();
    let b = standard_bindings();
    let r = run_tick(&mut store, &mut world, &s, &b, pause_tick());
    assert_eq!(r.unwrap_err(), Fault::OverlayImbalance { found: 2 });
    assert_eq!(world.overlay_count, 2);
    assert_eq!(store.current(), Mode::Running);

    // Fixed externally: the next entry and exit are balanced again.
    world.overlay_count = 0;
    run_tick(&mut store, &mut world, &s, &b, pause_tick()).expect("pause tick");
    assert_eq!(world.overlay_count, 1);
    run_tick(&mut store, &mut world, &s, &b, pause_tick()).expect("unpause tick");
    assert_eq!(world.overlay_count, 0);
}

#[test]
fn open_on_stray_overlay_fails_loudly() {
    // An overlay already present on entering `Paused` signals an earlier
    // entry/exit imbalance.
    let mut store = ModeStore::new();
    let mut world = WorldModel::new();
    let s = standard_schedule();
    let b = standard_bindings();
    run_tick(&mut store, &mut world, &s, &b, load_done_tick()).expect("load tick");
    world.overlay_count = 1;
    let r = run_tick(&mut store, &mut world, &s, &b, pause_tick());
    assert_eq!(r.unwrap_err(), Fault::OverlayImbalance { found: 1 });
}

#[test]
fn bindings_fire_in_insertion_order() {
    // Several bindings on one edge fire in insertion order: exit bindings
    // of the old mode first, then enter bindings of the new one.
    let mut b = Bindings::new();
    b.register(HookPoint::Enter(Mode::Paused), HandlerAction::OpenOverlay);
    b.register(HookPoint::Exit(Mode::Running), HandlerAction::StartAssetLoad);
    b.register(HookPoint::Enter(Mode::Paused), HandlerAction::SetupWorld);
    b.register(HookPoint::Exit(Mode::Running), HandlerAction::CloseOverlay);
    let fired = b.fired_for(Mode::Running, Mode::Paused);
    assert_eq!(
        fired,
        vec![
            HandlerAction::StartAssetLoad,
            HandlerAction::CloseOverlay,
            HandlerAction::OpenOverlay,
            HandlerAction::SetupWorld,
        ],
    );
    assert_eq!(
        b.entries[0],
        Binding { hook: HookPoint::Enter(Mode::Paused), action: HandlerAction::OpenOverlay },
    );
}

#[test]
fn report_exists_for_quiet_ticks() {
    let mut store = ModeStore::new();
    let mut world = WorldModel::new();
    let s = standard_schedule();
    let b = standard_bindings();
    let report: TickReport = run_tick(&mut store, &mut world, &s, &b, quiet_tick()).expect("tick");
    assert!(!report.exit_requested);
    assert_eq!(report.transition, None);
    assert_eq!(report.fired, Vec::<HandlerAction>::new());
    assert_eq!(store.current(), Mode::Loading);
}
