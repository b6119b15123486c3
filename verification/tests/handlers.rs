use keypad::buttons::State;
use keypad::config::{Config, Key, CONFIG_LEN};
use keypad::handlers::{report_for_event, CustomRequestHandler, DeviceHandler};
use keypad::persist::Persistence;

/// Scenario: a configuration write one byte short of the expected length
/// leaves the key map unchanged and raises no persistence notification.
#[test]
fn short_write_is_rejected_without_notification() {
    let mut config = Config::default();
    let mut persist = Persistence::new(vec![0xff; CONFIG_LEN]);
    let handler = CustomRequestHandler {};
    let payload = vec![0u8; CONFIG_LEN - 1];
    assert!(!handler.set_report(&mut config, &mut persist, &payload));
    assert_eq!(config.keys, vec![0x68, 0x69, 0x6a, 0x6b]);
    assert!(!persist.pending);
    assert!(!persist.wake(&config));
}

/// A well-sized write is applied and raises the persistence notification.
#[test]
fn well_sized_write_is_applied_and_notifies() {
    let mut config = Config::default();
    let mut persist = Persistence::new(vec![0xff; CONFIG_LEN]);
    let handler = CustomRequestHandler {};
    let mut payload = vec![0u8, 1, 0, 1];
    payload.extend_from_slice(&[0x30, 0x31, 0x32, 0x33]);
    payload.extend_from_slice(&[0xff; 4]);
    assert!(handler.set_report(&mut config, &mut persist, &payload));
    assert_eq!(config.types, vec![0, 1, 0, 1]);
    assert_eq!(config.keys, vec![0x30, 0x31, 0x32, 0x33]);
    assert_eq!(config.modifiers, vec![0, 0, 0, 0]);
    assert!(persist.pending);
}

/// The control path serves no input report and no idle rate.
#[test]
fn control_reads_return_nothing() {
    let handler = CustomRequestHandler {};
    assert_eq!(handler.get_report(), None);
    assert_eq!(handler.get_idle_ms(), None);
}

/// The device handler tracks the configured state across bus events.
#[test]
fn device_handler_tracks_configured_state() {
    let mut handler = DeviceHandler::new();
    assert!(!handler.is_configured());
    handler.configured(true);
    assert!(handler.is_configured());
    handler.reset();
    assert!(!handler.is_configured());
    handler.configured(true);
    handler.enabled(true);
    assert!(!handler.is_configured());
    handler.configured(true);
    handler.addressed(7);
    assert!(!handler.is_configured());
}

/// A rising edge resolves to the slot's press report, a falling edge to its
/// release report, and a tick without an edge to no report.
#[test]
fn report_resolution_follows_the_event() {
    let config = Config::default();
    match report_for_event(&config, &State::Rising(2)) {
        Key::Keyboard(r) => {
            assert_eq!(r.keycodes, [0x6a, 0, 0, 0, 0, 0]);
            assert_eq!(r.modifier, 0);
        }
        _ => panic!("default slot 2 is a keyboard key"),
    }
    match report_for_event(&config, &State::Falling(2)) {
        Key::Keyboard(r) => assert_eq!(r.keycodes, [0, 0, 0, 0, 0, 0]),
        _ => panic!("default slot 2 is a keyboard key"),
    }
    assert!(matches!(report_for_event(&config, &State::Idle), Key::Unknown));
}
