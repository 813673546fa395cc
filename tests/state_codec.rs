use led_status::state::{next_ordinal, LedState, STATE_COUNT};

#[test]
fn ordinal_round_trip_for_every_state() {
    for v in 0..STATE_COUNT {
        let s = LedState::from_usize(v).unwrap();
        assert_eq!(s.to_usize(), v);
    }
    assert_eq!(LedState::Init.to_usize(), 0);
    assert_eq!(LedState::Party.to_usize(), 1);
    assert_eq!(LedState::Clear.to_usize(), 2);
    assert_eq!(LedState::Error.to_usize(), 3);
    assert_eq!(LedState::Warning.to_usize(), 4);
}

#[test]
fn out_of_range_ordinal_is_rejected() {
    assert_eq!(LedState::from_usize(5), None);
    assert_eq!(LedState::from_usize(usize::MAX), None);
    assert_eq!(next_ordinal(5), None);
}

#[test]
fn next_wraps_from_warning_to_init() {
    assert_eq!(LedState::Warning.next(), LedState::Init);
    assert_eq!(LedState::Init.next(), LedState::Party);
    assert_eq!(LedState::Party.next(), LedState::Clear);
    assert_eq!(LedState::Clear.next(), LedState::Error);
    assert_eq!(LedState::Error.next(), LedState::Warning);
}

#[test]
fn next_ordinal_follows_the_cycle() {
    assert_eq!(next_ordinal(0), Some(1));
    assert_eq!(next_ordinal(3), Some(4));
    assert_eq!(next_ordinal(4), Some(0));
}
