use synth_utils::lfo::{Lfo, Waveshape, LFO_ONE};

fn get_f32(lfo: &Lfo, ws: Waveshape) -> f32 {
    (lfo.get(ws) as f64 / LFO_ONE as f64) as f32
}

fn is_almost(v1: f32, v2: f32, eps: f32) -> bool {
    (v1 - v2).abs() <= eps
}

#[test]
fn sqr_starts_high_and_then_goes_low() {
    let mut lfo = Lfo::new(1_000);
    lfo.set_frequency(1_000);

    assert_eq!(get_f32(&lfo, Waveshape::Square), 1.0);

    // tick halfway through 1 cycle
    for _ in 0..500 {
        lfo.tick();
    }
    assert_eq!(get_f32(&lfo, Waveshape::Square), 1.0);

    // one mode tick makes it flop the low half of the cycle
    lfo.tick();
    assert_eq!(get_f32(&lfo, Waveshape::Square), -1.0);
}

#[test]
fn triangle_goes_up_then_down_then_back_up() {
    let epsilon = 0.0001;

    let mut lfo = Lfo::new(1_000);
    lfo.set_frequency(1_000);

    assert_eq!(get_f32(&lfo, Waveshape::Triangle), 0.0);

    // tick 1/4 through 1 cycle, just hit the positive peak
    for _ in 0..250 {
        lfo.tick();
    }
    assert!(is_almost(get_f32(&lfo, Waveshape::Triangle), 1.0, epsilon));

    // tick to the halfway point, back to zero
    for _ in 0..250 {
        lfo.tick();
    }
    assert!(is_almost(get_f32(&lfo, Waveshape::Triangle), 0.0, epsilon));

    // another quarter cycle puts us at the lowest point
    for _ in 0..250 {
        lfo.tick();
    }
    assert!(is_almost(get_f32(&lfo, Waveshape::Triangle), -1.0, epsilon));
}

#[test]
fn check_a_few_sine_points() {
    let epsilon = 0.001;

    let mut lfo = Lfo::new(10_000);
    lfo.set_frequency(1_000);

    // tick 1/10 through 1 cycle
    for _ in 0..1_000 {
        lfo.tick();
    }

    assert!(is_almost(
        get_f32(&lfo, Waveshape::Sine),
        f32::sin(core::f32::consts::PI / 5.),
        epsilon
    ));

    // tick to about 45 degrees, but we won't hit it exactly
    for _ in 0..250 {
        lfo.tick();
    }
    assert!(
        (1. / 2.) < get_f32(&lfo, Waveshape::Sine)
            && get_f32(&lfo, Waveshape::Sine) < (f32::sqrt(3.) / 2.)
    );

    // tick a bit past 330 degrees
    for _ in 0..7915 {
        lfo.tick();
    }
    assert!(
        (-1. / 2.) < get_f32(&lfo, Waveshape::Sine) && get_f32(&lfo, Waveshape::Sine) < 0.
    );
}

#[test]
fn up_saw_is_monotonic_rising() {
    let mut lfo = Lfo::new(100);
    lfo.set_frequency(1_000);

    let mut last_val = -1.1;

    for _ in 0..100 {
        lfo.tick();
        assert!(last_val < get_f32(&lfo, Waveshape::UpSaw));
        last_val = get_f32(&lfo, Waveshape::UpSaw);
    }

    // one more tick rolls it over
    lfo.tick();
    assert!(get_f32(&lfo, Waveshape::UpSaw) < last_val);
}

#[test]
fn down_saw_is_just_negated_up_saw() {
    let mut lfo = Lfo::new(100);
    lfo.set_frequency(1_000);

    for _ in 0..100 {
        lfo.tick();
        assert_eq!(lfo.get(Waveshape::UpSaw), -lfo.get(Waveshape::DownSaw));
    }
}

#[test]
fn shapes_at_phase_zero() {
    let lfo = Lfo::new(1_000);
    assert_eq!(lfo.get(Waveshape::Sine), 0);
    assert_eq!(lfo.get(Waveshape::Triangle), 0);
    assert_eq!(lfo.get(Waveshape::UpSaw), -LFO_ONE);
    assert_eq!(lfo.get(Waveshape::DownSaw), LFO_ONE);
    assert_eq!(lfo.get(Waveshape::Square), LFO_ONE);
}

#[test]
fn triangle_hits_exact_extremes_at_quarter_points() {
    // 250 Hz at 1 kHz: a quarter cycle per tick, exactly
    let mut lfo = Lfo::new(1_000);
    lfo.set_frequency(250_000);
    lfo.tick();
    assert_eq!(lfo.get(Waveshape::Triangle), LFO_ONE);
    assert_eq!(lfo.get(Waveshape::Square), LFO_ONE);
    assert_eq!(lfo.get(Waveshape::UpSaw), -LFO_ONE / 2);
    lfo.tick();
    assert_eq!(lfo.get(Waveshape::Triangle), 0);
    assert_eq!(lfo.get(Waveshape::Square), -LFO_ONE);
    assert_eq!(lfo.get(Waveshape::UpSaw), 0);
    lfo.tick();
    assert_eq!(lfo.get(Waveshape::Triangle), -LFO_ONE);
    assert_eq!(lfo.get(Waveshape::Square), -LFO_ONE);
    lfo.tick();
    assert_eq!(lfo.get(Waveshape::Triangle), 0);
    assert_eq!(lfo.get(Waveshape::Square), LFO_ONE);
}

#[test]
fn sine_peaks_a_quarter_cycle_in() {
    let mut lfo = Lfo::new(1_000);
    lfo.set_frequency(250_000);
    lfo.tick();
    assert!(is_almost(get_f32(&lfo, Waveshape::Sine), 1.0, 0.0001));
    lfo.tick();
    lfo.tick();
    assert!(is_almost(get_f32(&lfo, Waveshape::Sine), -1.0, 0.0001));
}

#[test]
fn all_shapes_stay_in_range() {
    let mut lfo = Lfo::new(997);
    lfo.set_frequency(123_456);
    for _ in 0..5000 {
        lfo.tick();
        for ws in [
            Waveshape::Sine,
            Waveshape::Triangle,
            Waveshape::UpSaw,
            Waveshape::DownSaw,
            Waveshape::Square,
        ] {
            let v = lfo.get(ws);
            assert!(-LFO_ONE <= v && v <= LFO_ONE);
        }
    }
}
