use synth_utils::ribbon_controller::{sample_rate_to_capacity, PollAction, RibbonGate};

#[test]
fn capacity_at_ten_kilohertz() {
    // 150 samples of capture, 20 discarded at the end, and one more
    assert_eq!(sample_rate_to_capacity(10_000), 171);
}

#[test]
fn capacity_at_low_and_high_rates() {
    assert_eq!(sample_rate_to_capacity(0), 1);
    assert_eq!(sample_rate_to_capacity(1_000), 15 + 2 + 1);
    assert_eq!(sample_rate_to_capacity(u32::MAX), 64_424_509 + 8_589_934 + 1);
}

/// The press tracking of a ribbon sampled at 10 kHz: 10 settling samples are ignored, the
/// buffer holds 171, of which the latest 20 are left out of the average.
fn test_gate() -> RibbonGate {
    RibbonGate::new(10_000, sample_rate_to_capacity(10_000))
}

/// Polls until a press registers: the settling samples, then a full buffer.
const NUM_FOR_VALID_READING: usize = 180;

#[test]
fn gate_has_dead_zone_before_a_press_registers() {
    let mut gate = test_gate();
    for _ in 0..(NUM_FOR_VALID_READING - 1) {
        gate.poll(true);
    }
    assert!(!gate.finger_is_pressing());
    assert!(!gate.finger_just_pressed());
}

#[test]
fn gate_registers_a_press_with_enough_polling() {
    let mut gate = test_gate();
    for i in 0..(NUM_FOR_VALID_READING - 1) {
        let action = gate.poll(true);
        if i < 9 {
            assert_eq!(action, PollAction::Ignore);
        } else {
            assert_eq!(action, PollAction::Store);
        }
    }
    assert!(!gate.finger_is_pressing());
    assert_eq!(gate.poll(true), PollAction::StoreAndAverage);
    assert!(gate.finger_is_pressing());
    assert_eq!(gate.num_to_average(), 151);
}

#[test]
fn gate_one_unpressed_poll_ends_the_press() {
    let mut gate = test_gate();
    for _ in 0..NUM_FOR_VALID_READING {
        gate.poll(true);
    }
    assert!(gate.finger_is_pressing());
    assert!(!gate.finger_just_released());
    assert_eq!(gate.poll(false), PollAction::Ignore);
    assert!(!gate.finger_is_pressing());
    assert!(gate.finger_just_released());
    assert!(!gate.finger_just_released());
    // the next press starts counting from scratch
    for _ in 0..(NUM_FOR_VALID_READING - 1) {
        gate.poll(true);
    }
    assert!(!gate.finger_is_pressing());
}

#[test]
fn gate_just_pressed_is_self_clearing() {
    let mut gate = test_gate();
    for _ in 0..NUM_FOR_VALID_READING {
        gate.poll(true);
    }
    assert!(gate.finger_just_pressed());
    assert!(!gate.finger_just_pressed());
    // still pressing the ribbon, so no new press
    assert_eq!(gate.poll(true), PollAction::StoreAndAverage);
    assert!(!gate.finger_just_pressed());
}
