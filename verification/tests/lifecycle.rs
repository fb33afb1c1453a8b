use dnetd::debuggee::{
    CleanupAction, CommsError, Debuggee, DebuggeeComms, DebuggeeCommsAux, PoolError,
};

#[test]
fn spool_is_unattached() {
    let bridge = Debuggee::spool(42);
    assert_eq!(bridge.pid, 42);
    assert!(bridge.comms.is_none());
}

#[test]
fn start_installs_relaying_record() {
    let mut bridge = Debuggee::spool(7);
    assert_eq!(bridge.start(Some(1000)), Ok(()));
    let comms = bridge.comms.unwrap();
    assert_eq!(comms.timeout, Some(1000));
    assert_eq!(comms.aux, DebuggeeCommsAux::Splice);
}

#[test]
fn start_twice_fails_and_changes_nothing() {
    let mut bridge = Debuggee::spool(7);
    assert_eq!(bridge.start(None), Ok(()));
    let before = bridge;
    assert_eq!(bridge.start(Some(5)), Err(PoolError::AlreadyAttached));
    assert_eq!(bridge, before);
}

#[test]
fn first_observer_wins_second_is_noop() {
    // the transition happens exactly once, whichever direction asks again
    let mut bridge = Debuggee::spool(9);
    bridge.start(Some(1000)).unwrap();
    assert!(bridge.observe_closure(2000));
    assert_eq!(
        bridge.comms.unwrap().aux,
        DebuggeeCommsAux::Timeout(Some(3000))
    );
    let after_first = bridge;
    assert!(!bridge.observe_closure(2500));
    assert_eq!(bridge, after_first);
    assert!(!bridge.observe_closure(9999));
    assert_eq!(bridge, after_first);
}

#[test]
fn observation_without_timeout_arms_no_deadline() {
    let mut bridge = Debuggee::spool(3);
    bridge.start(None).unwrap();
    assert!(bridge.observe_closure(123));
    assert_eq!(bridge.comms.unwrap().aux, DebuggeeCommsAux::Timeout(None));
}

#[test]
fn deadline_saturates_instead_of_wrapping() {
    let mut bridge = Debuggee::spool(3);
    bridge.start(Some(u64::MAX)).unwrap();
    assert!(bridge.observe_closure(5));
    assert_eq!(
        bridge.comms.unwrap().aux,
        DebuggeeCommsAux::Timeout(Some(u64::MAX))
    );
}

#[test]
fn to_timeout_succeeds_once_then_reports_not_relaying() {
    let mut comms = DebuggeeComms {
        timeout: Some(100),
        aux: DebuggeeCommsAux::Splice,
    };
    assert_eq!(comms.to_timeout(50), Ok(()));
    assert_eq!(comms.aux, DebuggeeCommsAux::Timeout(Some(150)));
    let before = comms;
    assert_eq!(comms.to_timeout(60), Err(CommsError::NotRelaying));
    assert_eq!(comms, before);
}

#[test]
fn is_timedout_only_at_or_after_deadline() {
    let comms = DebuggeeComms {
        timeout: Some(100),
        aux: DebuggeeCommsAux::Timeout(Some(150)),
    };
    assert!(!comms.is_timedout(149));
    assert!(comms.is_timedout(150));
    assert!(comms.is_timedout(151));
}

#[test]
fn relaying_record_is_never_timed_out() {
    let comms = DebuggeeComms {
        timeout: Some(1),
        aux: DebuggeeCommsAux::Splice,
    };
    assert!(!comms.is_timedout(u64::MAX));
}

#[test]
fn record_without_deadline_is_never_timed_out() {
    let comms = DebuggeeComms {
        timeout: None,
        aux: DebuggeeCommsAux::Timeout(None),
    };
    assert!(!comms.is_timedout(u64::MAX));
}

#[test]
fn timeout_confirms_only_passed_deadlines() {
    let armed = DebuggeeComms {
        timeout: Some(100),
        aux: DebuggeeCommsAux::Timeout(Some(150)),
    };
    assert_eq!(armed.timeout(149), Err(CommsError::NotTimedOut));
    assert_eq!(armed.timeout(150), Ok(()));
    let relaying = DebuggeeComms {
        timeout: Some(100),
        aux: DebuggeeCommsAux::Splice,
    };
    assert_eq!(relaying.timeout(u64::MAX), Err(CommsError::NotTiming));
    let unarmed = DebuggeeComms {
        timeout: None,
        aux: DebuggeeCommsAux::Timeout(None),
    };
    assert_eq!(unarmed.timeout(u64::MAX), Err(CommsError::NotTiming));
}

#[test]
fn cleanup_waits_while_relaying() {
    let mut bridge = Debuggee::spool(1);
    bridge.start(Some(10)).unwrap();
    assert_eq!(bridge.cleanup(u64::MAX), CleanupAction::Wait);
}

#[test]
fn cleanup_waits_before_attachment() {
    let bridge = Debuggee::spool(1);
    assert_eq!(bridge.cleanup(u64::MAX), CleanupAction::Wait);
}

#[test]
fn bridge_without_timeout_is_never_force_closed() {
    // drained session, no timeout configured: reaped, never force-closed,
    // however much time passes
    let mut bridge = Debuggee::spool(1);
    bridge.start(None).unwrap();
    assert!(bridge.observe_closure(100));
    assert_eq!(bridge.cleanup(100), CleanupAction::Reap);
    assert_eq!(bridge.cleanup(u64::MAX), CleanupAction::Reap);
}

#[test]
fn bridge_with_timeout_is_force_closed_at_deadline() {
    let mut bridge = Debuggee::spool(1);
    bridge.start(Some(1000)).unwrap();
    assert!(bridge.observe_closure(2000));
    assert_eq!(bridge.cleanup(2999), CleanupAction::Wait);
    assert_eq!(bridge.cleanup(3000), CleanupAction::ForceCloseAndReap);
    assert_eq!(bridge.cleanup(5000), CleanupAction::ForceCloseAndReap);
}
