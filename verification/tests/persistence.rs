use keypad::config::{Config, CONFIG_LEN};
use keypad::handlers::CustomRequestHandler;
use keypad::persist::{flush_outcome, FlushOutcome, Persistence, MAX_FLUSH_ATTEMPTS};

/// Scenario: two flush requests with two different key map values before the
/// task wakes coalesce into exactly one erase-and-write of the later value.
#[test]
fn coalesced_flush_writes_latest_value() {
    let mut config = Config::default();
    let mut persist = Persistence::new(vec![0xff; CONFIG_LEN]);
    let handler = CustomRequestHandler {};

    let mut first = vec![0u8; 4];
    first.extend_from_slice(&[0x10, 0x11, 0x12, 0x13]);
    first.extend_from_slice(&[0u8; 4]);
    assert!(handler.set_report(&mut config, &mut persist, &first));

    let mut second = vec![0u8; 4];
    second.extend_from_slice(&[0x20, 0x21, 0x22, 0x23]);
    second.extend_from_slice(&[0u8; 4]);
    assert!(handler.set_report(&mut config, &mut persist, &second));

    // first wake: exactly one erase+write cycle, of the later value
    assert!(persist.wake(&config));
    assert_eq!(persist.flash, second);
    // no second cycle runs and the flash is untouched
    assert!(!persist.wake(&config));
    assert_eq!(persist.flash, second);
}

/// Startup with a blank (erased, all-`0xFF`) flash region keeps the
/// compiled-in defaults.
#[test]
fn load_from_blank_flash_keeps_defaults() {
    let mut config = Config::default();
    let persist = Persistence::new(vec![0xff; CONFIG_LEN]);
    persist.load(&mut config);
    assert_eq!(config.types, vec![0, 0, 0, 0]);
    assert_eq!(config.keys, vec![0x68, 0x69, 0x6a, 0x6b]);
    assert_eq!(config.modifiers, vec![0, 0, 0, 0]);
}

/// Startup with a persisted serialization restores the persisted mapping.
#[test]
fn load_restores_persisted_map() {
    let stored = Config {
        types: vec![1, 0, 1, 0],
        keys: vec![0xa0, 0xa1, 0xa2, 0xa3],
        modifiers: vec![0, 1, 2, 3],
    };
    let persist = Persistence::new(stored.to_bytes());
    let mut config = Config::default();
    persist.load(&mut config);
    assert_eq!(config.types, stored.types);
    assert_eq!(config.keys, stored.keys);
    assert_eq!(config.modifiers, stored.modifiers);
}

/// A flash region of the wrong size loads nothing.
#[test]
fn load_from_misread_region_changes_nothing() {
    let persist = Persistence::new(vec![0u8; CONFIG_LEN - 1]);
    let mut config = Config::default();
    persist.load(&mut config);
    assert_eq!(config.keys, vec![0x68, 0x69, 0x6a, 0x6b]);
}

/// A failed erase or write is retried until the attempt budget is spent,
/// then the task degrades instead of halting; a success always ends the
/// cycle.
#[test]
fn flush_failures_retry_then_degrade() {
    for attempts in 0..MAX_FLUSH_ATTEMPTS {
        assert_eq!(flush_outcome(false, attempts), FlushOutcome::Retry);
        assert_eq!(flush_outcome(true, attempts), FlushOutcome::Done);
    }
    assert_eq!(flush_outcome(false, MAX_FLUSH_ATTEMPTS), FlushOutcome::Degraded);
    assert_eq!(flush_outcome(false, MAX_FLUSH_ATTEMPTS + 1), FlushOutcome::Degraded);
    assert_eq!(flush_outcome(true, MAX_FLUSH_ATTEMPTS), FlushOutcome::Done);
}

/// A wake without a pending request performs no cycle and leaves the flash
/// untouched.
#[test]
fn wake_without_request_is_a_no_op() {
    let config = Config::default();
    let region = vec![0x55; CONFIG_LEN];
    let mut persist = Persistence::new(region.clone());
    assert!(!persist.wake(&config));
    assert_eq!(persist.flash, region);
    assert!(!persist.pending);
}
