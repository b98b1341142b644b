use xplane_reload::errors::LoadFailure;
use xplane_reload::lifecycle::{Module, TeardownAction};
use xplane_reload::session::{Session, SignalChannel};
use xplane_reload::{supervisor_info, IDENT_BUFFER_LEN};

/// Drive a fresh module through a fully successful construction.
fn construct_ok() -> Module {
    let mut m = Module::new();
    assert!(m.copy_done(true).is_ok());
    assert!(m.open_done(true).is_ok());
    assert!(m.start_done(true).is_ok());
    assert!(m.enable_done(true).is_ok());
    m
}

/// Run teardown steps until none is left, returning the actions in order.
fn drain_teardown(s: &mut Session) -> Vec<TeardownAction> {
    let mut actions = Vec::new();
    while let Some(a) = s.teardown_step() {
        actions.push(a);
    }
    actions
}

#[test]
fn enable_with_valid_artifact_installs_one_module() {
    let s = Session::from_initial_load(Ok(construct_ok())).unwrap();
    assert!(s.has_current_module());
    assert!(s.forward_decision());
    assert!(!s.teardown_pending());
}

#[test]
fn enable_without_artifact_fails_with_io_error() {
    let r = Session::from_initial_load(Err(LoadFailure::IoError));
    assert_eq!(r.err(), Some(LoadFailure::IoError));
}

#[test]
fn reload_replaces_the_module_after_full_teardown() {
    let mut s = Session::from_initial_load(Ok(construct_ok())).unwrap();
    let mut ch = SignalChannel::new();
    ch.signal();
    assert!(s.tick(&mut ch));
    assert!(!s.forward_decision());
    assert_eq!(
        drain_teardown(&mut s),
        vec![
            TeardownAction::InvokeDisable,
            TeardownAction::InvokeStop,
            TeardownAction::UnloadLibrary
        ]
    );
    let mut m = s.begin_construction();
    assert!(m.copy_done(true).is_ok());
    assert!(m.open_done(true).is_ok());
    assert!(m.start_done(true).is_ok());
    assert!(m.enable_done(true).is_ok());
    s.install(Some(m));
    assert!(s.forward_decision());
}

#[test]
fn failed_reload_leaves_the_slot_empty() {
    let mut s = Session::from_initial_load(Ok(construct_ok())).unwrap();
    let mut ch = SignalChannel::new();
    ch.signal();
    assert!(s.tick(&mut ch));
    drain_teardown(&mut s);
    let mut m = s.begin_construction();
    assert!(m.copy_done(true).is_ok());
    assert_eq!(m.open_done(false), Err(LoadFailure::LoadError));
    s.install(None);
    // Forwarded messages are now no-ops, and no error arises.
    assert!(!s.forward_decision());
    // The next valid replacement brings forwarding back.
    ch.signal();
    assert!(s.tick(&mut ch));
    assert_eq!(drain_teardown(&mut s), Vec::new());
    let fresh = {
        let mut m2 = s.begin_construction();
        assert!(m2.copy_done(true).is_ok());
        assert!(m2.open_done(true).is_ok());
        assert!(m2.start_done(true).is_ok());
        assert!(m2.enable_done(true).is_ok());
        m2
    };
    s.install(Some(fresh));
    assert!(s.forward_decision());
}

#[test]
fn many_signals_between_ticks_cause_one_reload() {
    let mut s = Session::from_initial_load(Ok(construct_ok())).unwrap();
    let mut ch = SignalChannel::new();
    for _ in 0..100 {
        ch.signal();
    }
    // One tick, one reload: the hundred signals coalesce.
    assert!(s.tick(&mut ch));
    drain_teardown(&mut s);
    let mut m = s.begin_construction();
    assert!(m.copy_done(true).is_ok());
    assert!(m.open_done(true).is_ok());
    assert!(m.start_done(true).is_ok());
    assert!(m.enable_done(true).is_ok());
    s.install(Some(m));
    // No signal arrived since: the next tick reloads nothing.
    assert!(!s.tick(&mut ch));
    assert!(s.forward_decision());
}

#[test]
fn tick_without_signal_changes_nothing() {
    let mut s = Session::from_initial_load(Ok(construct_ok())).unwrap();
    let mut ch = SignalChannel::new();
    assert!(!s.tick(&mut ch));
    assert!(s.forward_decision());
    assert!(!s.teardown_pending());
}

#[test]
fn disable_tears_down_the_loaded_module_once() {
    let mut s = Session::from_initial_load(Ok(construct_ok())).unwrap();
    s.close();
    assert!(!s.forward_decision());
    assert!(s.teardown_pending());
    assert_eq!(
        drain_teardown(&mut s),
        vec![
            TeardownAction::InvokeDisable,
            TeardownAction::InvokeStop,
            TeardownAction::UnloadLibrary
        ]
    );
    assert!(!s.teardown_pending());
    // A further step finds nothing left to tear down.
    assert_eq!(s.teardown_step(), None);
}

#[test]
fn channel_drains_to_empty_and_never_fails() {
    let mut ch = SignalChannel::new();
    assert!(!ch.try_drain());
    ch.signal();
    ch.signal();
    ch.signal();
    assert!(ch.try_drain());
    assert!(!ch.try_drain());
}

#[test]
fn supervisor_reports_its_identity() {
    let info = supervisor_info();
    assert_eq!(info.name, "xplane-reload");
    assert_eq!(info.signature, "dev.dvmujic.reload");
    assert_eq!(info.description, "a plugin to automaticly reload its child");
    assert_eq!(IDENT_BUFFER_LEN, 256);
}
