use initializable::event::namespace;
use initializable::{
    ContractError, Event, EventKind, Initializable, Payload, INITIALIZABLE_STORAGE, LOCKED_VERSION,
};

#[test]
fn error_codes() {
    assert_eq!(ContractError::InvalidInitialization.code(), 1);
    assert_eq!(ContractError::NotInitializing.code(), 2);
}

#[test]
fn errors_are_ordered_by_code() {
    assert!(ContractError::InvalidInitialization < ContractError::NotInitializing);
    assert_ne!(ContractError::InvalidInitialization, ContractError::NotInitializing);
}

#[test]
fn topics_of_the_notices() {
    assert_eq!(namespace(), "COUNTER");
    assert_eq!(EventKind::Initial.name(), "initial");
    assert_eq!(EventKind::Reinitial.name(), "reinitial");
    assert_eq!(EventKind::Disable.name(), "disable");
}

#[test]
fn topics_fit_a_short_symbol() {
    for name in [
        namespace(),
        EventKind::Initial.name(),
        EventKind::Reinitial.name(),
        EventKind::Disable.name(),
    ] {
        assert!(name.len() <= 9);
        assert!(name.chars().all(|c| c.is_ascii_alphanumeric() || c == '_'));
    }
}

#[test]
fn payload_value_ignores_the_width() {
    assert_eq!(Payload::I32(1).value(), 1);
    assert_eq!(Payload::I32(-5).value(), -5);
    assert_eq!(Payload::I32(i32::MIN).value(), -2147483648);
    assert_eq!(Payload::U64(1).value(), 1);
    assert_eq!(Payload::U64(u64::MAX).value(), 18446744073709551615);
    assert_ne!(Payload::I32(1), Payload::U64(1));
}

#[test]
fn first_initialization_carries_a_32_bit_one() {
    let mut guard = Initializable::new();
    let mut events = Vec::new();
    assert_eq!(guard.initializer(&mut events), Ok(()));
    assert_eq!(events.len(), 1);
    assert_eq!(events[0].kind, EventKind::Initial);
    assert_eq!(events[0].payload, Payload::I32(1));
    assert_eq!(events[0].payload.value(), 1);
}

#[test]
fn reinitialization_carries_its_version() {
    let mut guard = Initializable::new();
    let mut events = Vec::new();
    assert_eq!(guard.reinitializer(&mut events, 12345678901234), Ok(()));
    assert_eq!(
        events,
        vec![Event { kind: EventKind::Reinitial, payload: Payload::U64(12345678901234) }]
    );
}

#[test]
fn lock_carries_the_locked_version() {
    let mut guard = Initializable::new();
    let mut events = Vec::new();
    assert_eq!(guard.disable_initializers(&mut events), Ok(()));
    assert_eq!(
        events,
        vec![Event { kind: EventKind::Disable, payload: Payload::U64(18446744073709551615) }]
    );
}

#[test]
fn locked_version_is_the_largest() {
    assert_eq!(LOCKED_VERSION, u64::MAX);
    assert_eq!(LOCKED_VERSION, 18446744073709551615);
}

#[test]
fn storage_slot_bytes() {
    assert_eq!(INITIALIZABLE_STORAGE.len(), 32);
    assert_eq!(
        INITIALIZABLE_STORAGE,
        [
            0xf0, 0xc5, 0x7e, 0x16, 0x84, 0x0d, 0xf0, 0x40, 0xf1, 0x50, 0x88, 0xdc, 0x2f, 0x81,
            0xfe, 0x39, 0x1c, 0x39, 0x23, 0xbe, 0xc7, 0x3e, 0x23, 0xa9, 0x66, 0x2e, 0xfc, 0x9c,
            0x22, 0x9c, 0x6a, 0x00,
        ]
    );
}
