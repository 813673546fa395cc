use std::sync::atomic::Ordering;

use led_status::register::AtomicLedState;
use led_status::state::LedState;

#[test]
fn new_register_holds_initial_state() {
    let reg = AtomicLedState::new(LedState::Error);
    assert_eq!(reg.load(Ordering::SeqCst), Some(LedState::Error));
}

#[test]
fn store_then_load() {
    let reg = AtomicLedState::new(LedState::Init);
    reg.store(LedState::Warning, Ordering::SeqCst);
    assert_eq!(reg.load(Ordering::Relaxed), Some(LedState::Warning));
}

#[test]
fn increment_cycles_back_to_init() {
    let reg = AtomicLedState::new(LedState::Init);
    assert_eq!(reg.increment(Ordering::SeqCst), Some(LedState::Party));
    assert_eq!(reg.load(Ordering::SeqCst), Some(LedState::Party));
    for _ in 0..4 {
        reg.increment(Ordering::SeqCst);
    }
    assert_eq!(reg.load(Ordering::SeqCst), Some(LedState::Init));
}

#[test]
fn increment_from_warning_wraps() {
    let reg = AtomicLedState::new(LedState::Warning);
    assert_eq!(reg.increment(Ordering::Relaxed), Some(LedState::Init));
    assert_eq!(reg.load(Ordering::Relaxed), Some(LedState::Init));
}

#[test]
fn failed_polls_show_error_then_success_shows_clear() {
    let reg = AtomicLedState::new(LedState::Init);
    for _ in 0..3 {
        reg.record_poll(false, Ordering::SeqCst);
        assert_eq!(reg.load(Ordering::SeqCst), Some(LedState::Error));
    }
    reg.record_poll(true, Ordering::SeqCst);
    assert_eq!(reg.load(Ordering::SeqCst), Some(LedState::Clear));
}

#[test]
fn interleaved_loads_and_stores_see_only_valid_states() {
    let reg = AtomicLedState::new(LedState::Party);
    let mut seen = Vec::new();
    for k in 0..1_000 {
        seen.push(reg.load(Ordering::Relaxed));
        if k % 3 == 0 {
            reg.store(LedState::Warning, Ordering::Relaxed);
        }
        seen.push(reg.load(Ordering::Relaxed));
    }
    assert!(seen
        .iter()
        .all(|s| matches!(s, Some(LedState::Party) | Some(LedState::Warning))));
    assert_eq!(reg.load(Ordering::SeqCst), Some(LedState::Warning));
}
