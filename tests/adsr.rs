use synth_utils::adsr::{Adsr, Input, State, SustainLevel, TimePeriod};
use synth_utils::utils::UNIT;

/// 100 millisecond attack, decay and release, half sustain.
fn set_test_inputs(adsr: &mut Adsr) {
    adsr.set_input(Input::Attack(100_000.into()));
    adsr.set_input(Input::Decay(100_000.into()));
    adsr.set_input(Input::Sustain((UNIT / 2).into()));
    adsr.set_input(Input::Release(100_000.into()));
}

#[test]
fn gate_on_starts_attack_phase_from_at_rest() {
    let mut adsr = Adsr::new(1_000);

    //. it starts out at-rest
    assert_eq!(adsr.state(), State::AtRest);

    adsr.gate_on();
    assert_eq!(adsr.state(), State::Attack);
}

#[test]
fn attack_transitions_to_decay_after_ticks() {
    let mut adsr = Adsr::new(1_000);

    // 100 millisecond stages at 1kHz sample rate should complete after 101 ticks
    adsr.set_input(Input::Attack(100_000.into()));

    adsr.gate_on();
    assert_eq!(adsr.state(), State::Attack);

    // almost done with attack phase
    for _ in 0..100 {
        adsr.tick();
    }
    assert_eq!(adsr.state(), State::Attack);

    // one more tick puts us into a decay phase
    adsr.tick();
    assert_eq!(adsr.state(), State::Decay);
}

#[test]
fn transition_through_phases() {
    let mut adsr = Adsr::new(1_000);

    // 100 millisecond stages at 1kHz sample rate should complete after 101 ticks
    set_test_inputs(&mut adsr);

    adsr.gate_on();

    for _ in 0..101 {
        adsr.tick();
    }
    assert_eq!(adsr.state(), State::Decay);

    for _ in 0..101 {
        adsr.tick();
    }
    assert_eq!(adsr.state(), State::Sustain);

    // only a gate-off message initiates a release phase
    adsr.gate_off();
    assert_eq!(adsr.state(), State::Release);

    for _ in 0..101 {
        adsr.tick();
    }
    assert_eq!(adsr.state(), State::AtRest);
}

#[test]
fn attack_can_retrigger_in_any_phase() {
    let mut adsr = Adsr::new(1_000);

    // 100 millisecond stages at 1kHz sample rate should complete after 101 ticks
    set_test_inputs(&mut adsr);

    adsr.gate_on();

    for _ in 0..101 {
        adsr.tick();
    }
    assert_eq!(adsr.state(), State::Decay);

    adsr.gate_on();
    assert_eq!(adsr.state(), State::Attack);

    for _ in 0..202 {
        adsr.tick();
    }
    assert_eq!(adsr.state(), State::Sustain);

    adsr.gate_on();
    assert_eq!(adsr.state(), State::Attack);

    for _ in 0..202 {
        adsr.tick();
    }
    adsr.gate_off();
    assert_eq!(adsr.state(), State::Release);

    adsr.gate_on();
    assert_eq!(adsr.state(), State::Attack);
}

#[test]
fn release_can_start_from_any_phase_but_at_rest() {
    let mut adsr = Adsr::new(1_000);

    // 100 millisecond stages at 1kHz sample rate should complete after 101 ticks
    set_test_inputs(&mut adsr);

    adsr.gate_on();

    for _ in 0..50 {
        adsr.tick();
    }
    assert_eq!(adsr.state(), State::Attack);

    adsr.gate_off();
    assert_eq!(adsr.state(), State::Release);

    adsr.gate_on();
    for _ in 0..101 {
        adsr.tick();
    }
    assert_eq!(adsr.state(), State::Decay);

    adsr.gate_off();
    assert_eq!(adsr.state(), State::Release);

    adsr.gate_on();
    for _ in 0..202 {
        adsr.tick();
    }
    assert_eq!(adsr.state(), State::Sustain);

    adsr.gate_off();
    assert_eq!(adsr.state(), State::Release);

    for _ in 0..101 {
        adsr.tick();
    }
    assert_eq!(adsr.state(), State::AtRest);

    // a gate-off at rest is ignored
    adsr.gate_off();
    assert_eq!(adsr.state(), State::AtRest);
}

#[test]
fn values_follow_the_curves() {
    let mut adsr = Adsr::new(1_000);
    set_test_inputs(&mut adsr);
    assert_eq!(adsr.value(), 0);

    adsr.gate_on();
    let mut last = adsr.value();
    for _ in 0..100 {
        adsr.tick();
        assert!(adsr.value() >= last);
        last = adsr.value();
    }
    // close to the top of the attack
    assert!(last > UNIT - UNIT / 100);

    // the decay starts at the top and falls to the sustain level
    adsr.tick();
    assert_eq!(adsr.state(), State::Decay);
    for _ in 0..101 {
        adsr.tick();
    }
    assert_eq!(adsr.state(), State::Sustain);
    assert_eq!(adsr.value(), UNIT / 2);

    // the release falls from the sustain level to zero
    adsr.gate_off();
    for _ in 0..101 {
        adsr.tick();
    }
    assert_eq!(adsr.state(), State::AtRest);
    assert_eq!(adsr.value(), 0);
}

#[test]
fn retrigger_does_not_jump() {
    for ticks_before in [150usize, 250, 280] {
        let mut adsr = Adsr::new(1_000);
        set_test_inputs(&mut adsr);
        adsr.gate_on();
        for _ in 0..ticks_before {
            adsr.tick();
            if adsr.state() == State::Sustain && ticks_before > 260 {
                adsr.gate_off();
            }
        }
        assert_ne!(adsr.state(), State::Attack);
        let before = adsr.value();
        assert!(before > 0);
        adsr.gate_on();
        assert_eq!(adsr.state(), State::Attack);
        assert_eq!(adsr.value(), before);
        // the attack curve starts where the envelope was and rises from there
        adsr.tick();
        assert!(adsr.value() >= before);
        assert!(adsr.value() - before < UNIT / 20);
    }
}

#[test]
fn one_millisecond_phase_at_one_kilohertz_never_wraps() {
    // the step is exactly 2^24, so the accumulator stays at zero and never rolls over
    let mut adsr = Adsr::new(1_000);
    adsr.gate_on();
    for _ in 0..100 {
        adsr.tick();
    }
    assert_eq!(adsr.state(), State::Attack);
}

#[test]
fn gate_off_at_rest_is_ignored() {
    let mut adsr = Adsr::new(1_000);
    adsr.gate_off();
    assert_eq!(adsr.state(), State::AtRest);
    assert_eq!(adsr.value(), 0);
    adsr.tick();
    assert_eq!(adsr.state(), State::AtRest);
    assert_eq!(adsr.value(), 0);
}

#[test]
fn gate_on_during_attack_is_ignored() {
    let mut adsr = Adsr::new(1_000);
    set_test_inputs(&mut adsr);
    adsr.gate_on();
    for _ in 0..50 {
        adsr.tick();
    }
    let v = adsr.value();
    adsr.gate_on();
    assert_eq!(adsr.state(), State::Attack);
    assert_eq!(adsr.value(), v);
    for _ in 0..51 {
        adsr.tick();
    }
    assert_eq!(adsr.state(), State::Decay);
}

#[test]
fn time_periods_are_clamped() {
    // a zero attack is clamped to 1 ms, 11 ticks at 10 kHz
    let mut adsr = Adsr::new(10_000);
    adsr.set_input(Input::Attack(TimePeriod::from(0)));
    adsr.gate_on();
    for _ in 0..10 {
        adsr.tick();
    }
    assert_eq!(adsr.state(), State::Attack);
    adsr.tick();
    assert_eq!(adsr.state(), State::Decay);

    // a very long attack is clamped to 20 s: a step of 838, so 20021 ticks at 1 kHz
    let mut adsr = Adsr::new(1_000);
    adsr.set_input(Input::Attack(TimePeriod::from(u32::MAX)));
    adsr.gate_on();
    for _ in 0..20_020 {
        adsr.tick();
    }
    assert_eq!(adsr.state(), State::Attack);
    adsr.tick();
    assert_eq!(adsr.state(), State::Decay);
}

#[test]
fn sustain_level_is_held() {
    let mut adsr = Adsr::new(1_000);
    adsr.set_input(Input::Attack(10_000.into()));
    adsr.set_input(Input::Decay(10_000.into()));
    adsr.set_input(Input::Sustain(SustainLevel::from(1234)));
    adsr.gate_on();
    for _ in 0..30 {
        adsr.tick();
    }
    assert_eq!(adsr.state(), State::Sustain);
    assert_eq!(adsr.value(), 1234);
    // a new level shows on the next tick
    adsr.set_input(Input::Sustain(SustainLevel::from(UNIT)));
    assert_eq!(adsr.value(), 1234);
    adsr.tick();
    assert_eq!(adsr.value(), UNIT);
}

#[test]
fn value_stays_in_range_under_random_gates() {
    let mut adsr = Adsr::new(1_000);
    adsr.set_input(Input::Attack(7_000.into()));
    adsr.set_input(Input::Decay(13_000.into()));
    adsr.set_input(Input::Sustain((UNIT / 3).into()));
    adsr.set_input(Input::Release(11_000.into()));
    let mut seed: u32 = 12345;
    for _ in 0..20_000 {
        seed = seed.wrapping_mul(1_103_515_245).wrapping_add(12_345);
        match seed >> 28 {
            0 => adsr.gate_on(),
            1 => adsr.gate_off(),
            _ => {}
        }
        adsr.tick();
        let v = adsr.value() as f64 / UNIT as f64;
        assert!((0.0..=1.0).contains(&v));
    }
}
