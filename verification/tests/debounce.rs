use keypad::buttons::{Buttons, DebounceState, Edge, State};

/// Scenario: eight consecutive samples inside slot 1's range produce exactly
/// one rising edge, on the eighth sample; eight consecutive samples outside
/// every range then produce exactly one falling edge, on the eighth.
#[test]
fn scenario_press_then_release() {
    let mut buttons = Buttons::new();
    for tick in 0..8 {
        let state = buttons.get_state(1600);
        if tick < 7 {
            assert!(matches!(state, State::Idle), "no edge before the eighth sample");
        } else {
            assert!(matches!(state, State::Rising(1)), "rising edge on the eighth sample");
        }
    }
    assert!(!buttons.all_released());
    for tick in 0..8 {
        let state = buttons.get_state(50);
        if tick < 7 {
            assert!(matches!(state, State::Idle), "no edge before the eighth sample");
        } else {
            assert!(matches!(state, State::Falling(1)), "falling edge on the eighth sample");
        }
    }
    assert!(buttons.all_released());
}

/// Fewer than eight consecutive identical raw values never flip the
/// confirmed state.
#[test]
fn short_runs_produce_no_transition() {
    let mut filter = DebounceState::new();
    for _round in 0..10 {
        for _ in 0..7 {
            assert_eq!(filter.update(true), None);
        }
        // one dissenting sample resets the run
        assert_eq!(filter.update(false), None);
    }
    assert!(!filter.confirmed);
}

/// The eighth unanimous sample, and only it, flips the confirmed state.
#[test]
fn eighth_unanimous_sample_flips() {
    let mut filter = DebounceState::new();
    for _ in 0..7 {
        assert_eq!(filter.update(true), None);
    }
    assert_eq!(filter.update(true), Some(Edge::Rising));
    assert!(filter.confirmed);
    // further agreement reports no new edge
    assert_eq!(filter.update(true), None);
    for _ in 0..7 {
        assert_eq!(filter.update(false), None);
    }
    assert_eq!(filter.update(false), Some(Edge::Falling));
    assert!(!filter.confirmed);
}

/// A sample equal to a range's low or high bound classifies as in range:
/// held at the exact boundary it presses the button.
#[test]
fn boundary_samples_are_in_range() {
    for boundary in [700u16, 1000u16] {
        let mut buttons = Buttons::new();
        for tick in 0..8 {
            let state = buttons.get_state(boundary);
            if tick < 7 {
                assert!(matches!(state, State::Idle));
            } else {
                assert!(matches!(state, State::Rising(0)));
            }
        }
    }
    // one count outside either bound never presses
    for outside in [699u16, 1001u16] {
        let mut buttons = Buttons::new();
        for _ in 0..32 {
            assert!(matches!(buttons.get_state(outside), State::Idle));
        }
        assert!(buttons.all_released());
    }
}

/// The configured threshold ranges are pairwise disjoint.
#[test]
fn thresholds_are_disjoint() {
    let buttons = Buttons::new();
    let ranges = &buttons.thresholds;
    assert_eq!(ranges.len(), 4);
    for i in 0..ranges.len() {
        assert!(ranges[i].low <= ranges[i].high);
        for j in 0..ranges.len() {
            if i != j {
                assert!(
                    ranges[i].high < ranges[j].low || ranges[j].high < ranges[i].low,
                    "ranges {} and {} overlap",
                    i,
                    j
                );
            }
        }
    }
}

/// A sample inside a different slot's range while a button is held releases
/// the held slot and presses the other in the same tick: the rising edge
/// wins the tick.
#[test]
fn rising_takes_priority_over_falling() {
    let mut buttons = Buttons::new();
    for _ in 0..8 {
        buttons.get_state(800);
    }
    assert!(!buttons.all_released());
    for tick in 0..8 {
        let state = buttons.get_state(2400);
        if tick < 7 {
            assert!(matches!(state, State::Idle));
        } else {
            // slot 0 falls and slot 2 rises on the same tick
            assert!(matches!(state, State::Rising(2)));
        }
    }
}
