use esp_miner::gate::AuthorizationGate;
use esp_miner::lock::{Pump, SessionLock};

#[test]
fn new_gate_has_nothing_pending() {
    let mut gate = AuthorizationGate::new();
    assert!(!gate.signaled());
    assert_eq!(gate.take(), None);
}

#[test]
fn gate_hands_out_a_signal_once() {
    let mut gate = AuthorizationGate::new();
    gate.signal(true);
    assert!(gate.signaled());
    assert_eq!(gate.take(), Some(true));
    assert!(!gate.signaled());
    assert_eq!(gate.take(), None);
}

#[test]
fn gate_keeps_only_the_latest_signal() {
    let mut gate = AuthorizationGate::new();
    gate.signal(false);
    gate.signal(true);
    assert_eq!(gate.take(), Some(true));
    gate.signal(true);
    gate.signal(false);
    assert_eq!(gate.take(), Some(false));
    assert_eq!(gate.take(), None);
}

#[test]
fn gate_reset_drops_the_signal() {
    let mut gate = AuthorizationGate::new();
    gate.signal(true);
    gate.reset();
    assert!(!gate.signaled());
    assert_eq!(gate.take(), None);
    gate.reset();
    assert_eq!(gate.take(), None);
}

#[test]
fn signaled_leaves_the_gate_as_it_is() {
    let mut gate = AuthorizationGate::new();
    gate.signal(false);
    assert!(gate.signaled());
    assert!(gate.signaled());
    assert_eq!(gate.take(), Some(false));
}

#[test]
fn new_lock_is_free() {
    assert_eq!(SessionLock::new().holder(), None);
}

#[test]
fn lock_is_granted_to_one_pump_at_a_time() {
    let mut lock = SessionLock::new();
    assert!(lock.try_acquire(Pump::Receive));
    assert_eq!(lock.holder(), Some(Pump::Receive));
    assert!(!lock.try_acquire(Pump::Submit));
    assert_eq!(lock.holder(), Some(Pump::Receive));
    assert!(lock.release(Pump::Receive));
    assert_eq!(lock.holder(), None);
    assert!(lock.try_acquire(Pump::Submit));
    assert_eq!(lock.holder(), Some(Pump::Submit));
    assert!(!lock.try_acquire(Pump::Receive));
}

#[test]
fn lock_is_not_reentrant() {
    let mut lock = SessionLock::new();
    assert!(lock.try_acquire(Pump::Submit));
    assert!(!lock.try_acquire(Pump::Submit));
    assert_eq!(lock.holder(), Some(Pump::Submit));
    assert!(lock.release(Pump::Submit));
    assert!(!lock.release(Pump::Submit));
}

#[test]
fn only_the_holder_releases() {
    let mut lock = SessionLock::new();
    assert!(!lock.release(Pump::Receive));
    assert!(lock.try_acquire(Pump::Receive));
    assert!(!lock.release(Pump::Submit));
    assert_eq!(lock.holder(), Some(Pump::Receive));
    assert!(lock.release(Pump::Receive));
    assert_eq!(lock.holder(), None);
}
