//! # Attack, Decay, Sustain, Release generator
//!
//! The envelope imitates the RC curves of analog ADSRs: the attack is a truncated rising RC
//! curve, decay and release are falling RC curves. One phase accumulator, reprogrammed with the
//! period of the current phase on every tick, walks the curve tables.
//!
//! Inputs: attack, decay and release times, and the sustain level. Events: gate-on starts an
//! attack (from wherever the output is, so a retrigger does not click), gate-off starts a
//! release. Output: the current level, in fixed point where `UNIT` stands for 1.0.

use crate::lookup_tables::{ADSR_ATTACK_TABLE, ADSR_CURVE_LUT_SIZE, ADSR_DECAY_TABLE};
use crate::phase_accumulator::{lemma_pow2_bounds, step_size, AccumulatorView, PhaseAccumulator};
use crate::utils::{ilog_2, interp, lemma_interp_between, linear_interp, UNIT};
use vstd::arithmetic::div_mod::{lemma_div_is_ordered, lemma_div_multiples_vanish};
use vstd::arithmetic::mul::{lemma_mul_inequality, lemma_mul_is_commutative};
use vstd::arithmetic::power2::{lemma2_to64, lemma_pow2_strictly_increases, pow2};
use vstd::prelude::*;

verus! {

/// The shortest time period of an envelope phase, in microseconds.
pub const MIN_TIME_PERIOD_MICROS: u32 = 1_000;

/// The longest time period of an envelope phase, in microseconds.
pub const MAX_TIME_PERIOD_MICROS: u32 = 20_000_000;

/// The total number of bits of the envelope's phase accumulator.
const TOT_NUM_ACCUM_BITS: u32 = 24;

/// `p` clamped to `[MIN_TIME_PERIOD_MICROS, MAX_TIME_PERIOD_MICROS]`.
pub open spec fn clamp_period(p: nat) -> nat {
    if p < MIN_TIME_PERIOD_MICROS {
        MIN_TIME_PERIOD_MICROS as nat
    } else if p > MAX_TIME_PERIOD_MICROS {
        MAX_TIME_PERIOD_MICROS as nat
    } else {
        p
    }
}

/// A time period in microseconds, always within
/// `[MIN_TIME_PERIOD_MICROS, MAX_TIME_PERIOD_MICROS]`.
pub struct TimePeriod(u32);

impl TimePeriod {
    #[verifier::type_invariant]
    spec fn in_range(self) -> bool {
        MIN_TIME_PERIOD_MICROS <= self.0 <= MAX_TIME_PERIOD_MICROS
    }

    /// The period in microseconds.
    pub closed spec fn micros(self) -> nat {
        self.0 as nat
    }

    /// `TimePeriod::from(p)` holds `p` clamped to the allowed range.
    pub proof fn lemma_from(p: u32)
        ensures
            <TimePeriod as vstd::std_specs::convert::FromSpec<u32>>::from_spec(p).micros()
                == clamp_period(p as nat),
    {
    }

    fn get(&self) -> (r: u32)
        ensures
            r == self.micros(),
            MIN_TIME_PERIOD_MICROS <= r <= MAX_TIME_PERIOD_MICROS,
    {
        proof {
            use_type_invariant(self);
        }
        self.0
    }
}

impl From<u32> for TimePeriod {
    /// `TimePeriod::from(p)` is `p` microseconds, clamped to the allowed range.
    fn from(p: u32) -> Self {
        let c: u32 = if p < MIN_TIME_PERIOD_MICROS {
            MIN_TIME_PERIOD_MICROS
        } else if p > MAX_TIME_PERIOD_MICROS {
            MAX_TIME_PERIOD_MICROS
        } else {
            p
        };
        TimePeriod(c)
    }
}

impl vstd::std_specs::convert::FromSpecImpl<u32> for TimePeriod {
    open spec fn obeys_from_spec() -> bool {
        true
    }

    closed spec fn from_spec(v: u32) -> Self {
        TimePeriod(clamp_period(v as nat) as u32)
    }
}

/// A sustain level in fixed point where `UNIT` stands for 1.0; every `u32` is a level in `[0, 1]`.
pub struct SustainLevel(u32);

impl SustainLevel {
    /// The level, where `UNIT` stands for 1.0.
    pub closed spec fn level(self) -> nat {
        self.0 as nat
    }

    /// `SustainLevel::from(l)` holds `l` unchanged.
    pub proof fn lemma_from(l: u32)
        ensures
            <SustainLevel as vstd::std_specs::convert::FromSpec<u32>>::from_spec(l).level() == l,
    {
    }

    fn get(&self) -> (r: u32)
        ensures
            r == self.level(),
    {
        self.0
    }
}

impl From<u32> for SustainLevel {
    /// `SustainLevel::from(l)` is the level `l / UNIT`.
    fn from(l: u32) -> Self {
        SustainLevel(l)
    }
}

impl vstd::std_specs::convert::FromSpecImpl<u32> for SustainLevel {
    open spec fn obeys_from_spec() -> bool {
        true
    }

    closed spec fn from_spec(v: u32) -> Self {
        SustainLevel(v)
    }
}

/// ADSR inputs: attack, decay and release times, and the sustain level.
pub enum Input {
    Attack(TimePeriod),
    Decay(TimePeriod),
    Sustain(SustainLevel),
    Release(TimePeriod),
}

/// ADSR states; an ADSR is in exactly one of them at any time.
#[derive(Clone, Copy, PartialEq, Eq, Debug, Structural)]
pub enum State {
    AtRest,
    Attack,
    Decay,
    Sustain,
    Release,
}

/// The states that run through a curve and tick the accumulator.
pub open spec fn is_ticking(s: State) -> bool {
    s == State::Attack || s == State::Decay || s == State::Release
}

/// The state that follows `s` when its curve has run to the end.
pub open spec fn next_state(s: State) -> State {
    match s {
        State::Attack => State::Decay,
        State::Decay => State::Sustain,
        State::Release => State::AtRest,
        State::Sustain => State::Sustain,
        State::AtRest => State::AtRest,
    }
}

/// A curve table interpolated at the accumulator's index and fraction; the next slot is
/// clamped to the last entry, since the curves do not repeat.
pub open spec fn curve_at(table: Seq<u32>, v: AccumulatorView) -> int {
    let i = v.index() as int;
    let j = if i + 1 < ADSR_CURVE_LUT_SIZE {
        i + 1
    } else {
        ADSR_CURVE_LUT_SIZE - 1
    };
    interp(table[i] as int, table[j] as int, v.fraction() as int)
}

/// The contents of an ADSR as mathematical values.
pub struct AdsrView {
    pub attack_micros: nat,
    pub decay_micros: nat,
    pub sustain_level: nat,
    pub release_micros: nat,
    pub accumulator: AccumulatorView,
    pub state: State,
    pub gate_on_value: nat,
    pub gate_off_value: nat,
    pub value: nat,
}

impl AdsrView {
    pub open spec fn wf(self) -> bool {
        &&& self.accumulator.wf()
        &&& self.accumulator.total_bits == 24
        &&& self.accumulator.index_bits == 8
        &&& !self.accumulator.rolled_over
        &&& self.sustain_level <= UNIT
        &&& self.gate_on_value <= UNIT
        &&& self.gate_off_value <= UNIT
        &&& self.value <= UNIT
        &&& self.attack_micros <= u32::MAX
        &&& self.decay_micros <= u32::MAX
        &&& self.release_micros <= u32::MAX
    }

    /// The time period of the phase `s`, in microseconds.
    pub open spec fn period_of(self, s: State) -> nat {
        match s {
            State::Attack => self.attack_micros,
            State::Decay => self.decay_micros,
            State::Release => self.release_micros,
            _ => MIN_TIME_PERIOD_MICROS as nat,
        }
    }

    /// The level the envelope computes for its state and accumulator position:
    /// `coefficient * sample + offset`, with the products in fixed point rounded down.
    pub open spec fn output(self) -> int {
        let u = UNIT as int;
        match self.state {
            State::Attack => (u - self.gate_on_value) * curve_at(ADSR_ATTACK_TABLE@, self.accumulator)
                / u + self.gate_on_value,
            State::Decay => (u - self.sustain_level) * curve_at(ADSR_DECAY_TABLE@, self.accumulator)
                / u + self.sustain_level,
            State::Sustain => self.sustain_level as int,
            State::Release => self.gate_off_value * curve_at(ADSR_DECAY_TABLE@, self.accumulator) / u,
            State::AtRest => 0,
        }
    }

    /// The state after one tick: in a ticking state the accumulator is set to the phase's period
    /// and stepped, and a wrap moves on to the next state; then the output is recomputed.
    pub open spec fn ticked(self) -> AdsrView {
        let moved = if is_ticking(self.state) {
            let stepped = self.accumulator.with_increment(
                step_size(24, self.accumulator.sample_rate_hz, 1_000_000, self.period_of(self.state)),
            ).ticked();
            AdsrView {
                accumulator: AccumulatorView { rolled_over: false, ..stepped },
                state: if stepped.rolled_over {
                    next_state(self.state)
                } else {
                    self.state
                },
                ..self
            }
        } else {
            self
        };
        AdsrView { value: moved.output() as nat, ..moved }
    }

    /// The state after a gate-on: outside an attack, the current value becomes the attack's
    /// starting point, the accumulator restarts and the attack begins.
    pub open spec fn gated_on(self) -> AdsrView {
        if self.state == State::Attack {
            self
        } else {
            AdsrView {
                gate_on_value: self.value,
                accumulator: self.accumulator.reset(),
                state: State::Attack,
                ..self
            }
        }
    }

    /// The state after a gate-off: in attack, decay or sustain, the current value becomes the
    /// release's starting point, the accumulator restarts and the release begins.
    pub open spec fn gated_off(self) -> AdsrView {
        if self.state == State::Release || self.state == State::AtRest {
            self
        } else {
            AdsrView {
                gate_off_value: self.value,
                accumulator: self.accumulator.reset(),
                state: State::Release,
                ..self
            }
        }
    }

    /// The state with one input changed.
    pub open spec fn with_input(self, input: Input) -> AdsrView {
        match input {
            Input::Attack(a) => AdsrView { attack_micros: a.micros(), ..self },
            Input::Decay(d) => AdsrView { decay_micros: d.micros(), ..self },
            Input::Sustain(l) => AdsrView { sustain_level: l.level(), ..self },
            Input::Release(r) => AdsrView { release_micros: r.micros(), ..self },
        }
    }
}

/// An ADSR envelope generator.
pub struct Adsr {
    attack_time: TimePeriod,
    decay_time: TimePeriod,
    sustain_level: SustainLevel,
    release_time: TimePeriod,
    phase_accumulator: PhaseAccumulator,
    state: State,
    value_when_gate_on_received: u32,
    value_when_gate_off_received: u32,
    value: u32,
}

impl View for Adsr {
    type V = AdsrView;

    closed spec fn view(&self) -> AdsrView {
        AdsrView {
            attack_micros: self.attack_time.micros(),
            decay_micros: self.decay_time.micros(),
            sustain_level: self.sustain_level.level(),
            release_micros: self.release_time.micros(),
            accumulator: self.phase_accumulator@,
            state: self.state,
            gate_on_value: self.value_when_gate_on_received as nat,
            gate_off_value: self.value_when_gate_off_received as nat,
            value: self.value as nat,
        }
    }
}

impl Adsr {
    pub closed spec fn inner_wf(&self) -> bool {
        self.phase_accumulator.wf()
    }

    pub open spec fn wf(&self) -> bool {
        self.inner_wf() && self@.wf()
    }

    /// `Adsr::new(sr)` is a new ADSR ticked `sr` times a second, at rest, with the shortest
    /// times and full sustain.
    pub fn new(sample_rate_hz: u32) -> (r: Adsr)
        requires
            sample_rate_hz > 0,
        ensures
            r.wf(),
            r@ == (AdsrView {
                attack_micros: MIN_TIME_PERIOD_MICROS as nat,
                decay_micros: MIN_TIME_PERIOD_MICROS as nat,
                sustain_level: UNIT as nat,
                release_micros: MIN_TIME_PERIOD_MICROS as nat,
                accumulator: AccumulatorView {
                    sample_rate_hz: sample_rate_hz as nat,
                    total_bits: 24,
                    index_bits: 8,
                    accumulator: 0,
                    last_accumulator: 0,
                    increment: 0,
                    rolled_over: false,
                },
                state: State::AtRest,
                gate_on_value: 0,
                gate_off_value: 0,
                value: 0,
            }),
    {
        let index_bits = ilog_2(ADSR_CURVE_LUT_SIZE);
        proof {
            lemma2_to64();
            if index_bits > 9 {
                lemma_pow2_strictly_increases(9, index_bits as nat);
            }
            if index_bits < 7 {
                lemma_pow2_strictly_increases(index_bits as nat + 1, 8);
            }
        }
        let pa = PhaseAccumulator::new(TOT_NUM_ACCUM_BITS, index_bits, sample_rate_hz);
        Adsr {
            attack_time: TimePeriod::from(MIN_TIME_PERIOD_MICROS),
            decay_time: TimePeriod::from(MIN_TIME_PERIOD_MICROS),
            sustain_level: SustainLevel::from(UNIT),
            release_time: TimePeriod::from(MIN_TIME_PERIOD_MICROS),
            phase_accumulator: pa.unwrap(),
            state: State::AtRest,
            value_when_gate_on_received: 0,
            value_when_gate_off_received: 0,
            value: 0,
        }
    }

    /// `adsr.tick()` advances the ADSR by one sample: in attack, decay or release the accumulator
    /// is set to that phase's period and stepped, a wrap moves on to the next state, and then
    /// the output is recomputed.
    pub fn tick(&mut self)
        requires
            old(self).wf(),
        ensures
            final(self).wf(),
            final(self)@ == old(self)@.ticked(),
    {
        if self.state == State::Attack || self.state == State::Decay || self.state == State::Release {
            let period_of_this_phase: u32 = match self.state {
                State::Attack => self.attack_time.get(),
                State::Decay => self.decay_time.get(),
                State::Release => self.release_time.get(),
                State::Sustain => MIN_TIME_PERIOD_MICROS,
                State::AtRest => MIN_TIME_PERIOD_MICROS,
            };
            self.phase_accumulator.set_period(period_of_this_phase);
            self.phase_accumulator.tick();
            if self.phase_accumulator.rolled_over() {
                self.state = match self.state {
                    State::Attack => State::Decay,
                    State::Decay => State::Sustain,
                    State::Release => State::AtRest,
                    State::Sustain => State::Sustain,
                    State::AtRest => State::AtRest,
                };
            }
        }
        self.value = self.calc_value();
    }

    /// `adsr.gate_on()` starts an attack from the current value, unless already in attack.
    pub fn gate_on(&mut self)
        requires
            old(self).wf(),
        ensures
            final(self).wf(),
            final(self)@ == old(self)@.gated_on(),
    {
        match self.state {
            State::AtRest | State::Decay | State::Sustain | State::Release => {
                self.value_when_gate_on_received = self.value;
                self.phase_accumulator.reset();
                self.state = State::Attack;
            },
            State::Attack => {},
        }
    }

    /// `adsr.gate_off()` starts a release from the current value, unless already in release or
    /// at rest.
    pub fn gate_off(&mut self)
        requires
            old(self).wf(),
        ensures
            final(self).wf(),
            final(self)@ == old(self)@.gated_off(),
    {
        match self.state {
            State::Attack | State::Decay | State::Sustain => {
                self.value_when_gate_off_received = self.value;
                self.phase_accumulator.reset();
                self.state = State::Release;
            },
            State::Release | State::AtRest => {},
        }
    }

    /// `adsr.value()` is the current output level, where `UNIT` stands for 1.0.
    pub fn value(&self) -> (r: u32)
        requires
            self.wf(),
        ensures
            r == self@.value,
    {
        self.value
    }

    /// `adsr.state()` is the current state.
    pub fn state(&self) -> (r: State)
        requires
            self.wf(),
        ensures
            r == self@.state,
    {
        self.state
    }

    /// `adsr.set_input(i)` sets one input; it takes effect from the next tick on.
    pub fn set_input(&mut self, input: Input)
        requires
            old(self).wf(),
        ensures
            final(self).wf(),
            final(self)@ == old(self)@.with_input(input),
    {
        match input {
            Input::Attack(a) => self.attack_time = a,
            Input::Decay(d) => self.decay_time = d,
            Input::Sustain(s) => self.sustain_level = s,
            Input::Release(r) => self.release_time = r,
        }
    }

    /// `coefficient * sample` in fixed point, rounded down.
    fn scale(coefficient: u32, sample: i64) -> (r: u32)
        requires
            0 <= sample <= UNIT,
        ensures
            r == coefficient * sample / (UNIT as int),
            r <= coefficient,
    {
        proof {
            lemma_scaled_le(coefficient as int, sample as int);
            assert(coefficient as int * sample as int <= 0xffff_ffff * 0xffff_ffff) by (nonlinear_arith)
                requires
                    0 <= coefficient <= 0xffff_ffff,
                    0 <= sample <= 0xffff_ffff,
            ;
        }
        ((coefficient as u64 * sample as u64) / (UNIT as u64)) as u32
    }

    /// The output level for the current state and accumulator position.
    fn calc_value(&self) -> (r: u32)
        requires
            self.wf(),
        ensures
            r == self@.output(),
    {
        proof {
            lemma_output_in_unit_range(self@);
            lemma2_to64();
        }
        let lut_idx = self.phase_accumulator.index();
        // the curves do not repeat: clamp the next index at the end instead of wrapping
        let next_lut_idx = if lut_idx + 1 < ADSR_CURVE_LUT_SIZE {
            lut_idx + 1
        } else {
            ADSR_CURVE_LUT_SIZE - 1
        };
        let frac = self.phase_accumulator.fraction();
        match self.state {
            State::Attack => {
                proof {
                    lemma_curve_in_unit_range(ADSR_ATTACK_TABLE@, self@.accumulator);
                }
                let y0 = ADSR_ATTACK_TABLE[lut_idx];
                let y1 = ADSR_ATTACK_TABLE[next_lut_idx];
                let sample = linear_interp(y0 as i64, y1 as i64, frac);
                let coefficient = UNIT - self.value_when_gate_on_received;
                Self::scale(coefficient, sample) + self.value_when_gate_on_received
            },
            State::Decay => {
                proof {
                    lemma_curve_in_unit_range(ADSR_DECAY_TABLE@, self@.accumulator);
                }
                let y0 = ADSR_DECAY_TABLE[lut_idx];
                let y1 = ADSR_DECAY_TABLE[next_lut_idx];
                let sample = linear_interp(y0 as i64, y1 as i64, frac);
                let sustain = self.sustain_level.get();
                Self::scale(UNIT - sustain, sample) + sustain
            },
            State::Sustain => self.sustain_level.get(),
            State::Release => {
                proof {
                    lemma_curve_in_unit_range(ADSR_DECAY_TABLE@, self@.accumulator);
                }
                let y0 = ADSR_DECAY_TABLE[lut_idx];
                let y1 = ADSR_DECAY_TABLE[next_lut_idx];
                let sample = linear_interp(y0 as i64, y1 as i64, frac);
                Self::scale(self.value_when_gate_off_received, sample)
            },
            State::AtRest => 0,
        }
    }
}

/// The sample a curve gives stays within `[0, UNIT]`, at every accumulator position.
pub proof fn lemma_curve_in_unit_range(table: Seq<u32>, v: AccumulatorView)
    requires
        table.len() == ADSR_CURVE_LUT_SIZE,
        v.wf(),
        v.total_bits == 24,
        v.index_bits == 8,
    ensures
        0 <= curve_at(table, v) <= UNIT,
        v.accumulator == 0 ==> curve_at(table, v) == table[0],
{
    lemma2_to64();
    lemma_pow2_bounds(24);
    vstd::arithmetic::div_mod::lemma_multiply_divide_lt(v.accumulator as int, pow2(16) as int, pow2(8) as int);
    vstd::arithmetic::power2::lemma_pow2_adds(16, 8);
    let i = v.index() as int;
    assert(0 <= i < 256);
    let m = pow2(24) - 1;
    assert(v.fraction() <= UNIT) by {
        lemma_mul_inequality(v.accumulator as int, m, UNIT as int);
        lemma_div_is_ordered(v.accumulator * (UNIT as int), m * (UNIT as int), m);
        lemma_div_multiples_vanish(UNIT as int, m);
        lemma_mul_is_commutative(m, UNIT as int);
    }
    let j = if i + 1 < 256 { i + 1 } else { 255 };
    lemma_interp_between(table[i] as int, table[j] as int, v.fraction() as int);
    if v.accumulator == 0 {
        assert(v.fraction() == 0);
        vstd::arithmetic::div_mod::lemma_div_of0(pow2(16) as int);
    }
}

/// `coefficient * sample / UNIT` never exceeds the coefficient when the sample is in `[0, UNIT]`.
proof fn lemma_scaled_le(coefficient: int, sample: int)
    requires
        0 <= coefficient,
        0 <= sample <= UNIT,
    ensures
        0 <= coefficient * sample / (UNIT as int) <= coefficient,
{
    let u = UNIT as int;
    lemma_mul_inequality(sample, u, coefficient);
    lemma_mul_inequality(0, sample, coefficient);
    lemma_mul_is_commutative(sample, coefficient);
    lemma_mul_is_commutative(u, coefficient);
    lemma_div_is_ordered(0, coefficient * sample, u);
    lemma_div_is_ordered(coefficient * sample, coefficient * u, u);
    lemma_div_multiples_vanish(coefficient, u);
}

/// Every state the envelope can be in computes a level within `[0, 1]`.
pub proof fn lemma_output_in_unit_range(v: AdsrView)
    requires
        v.wf(),
    ensures
        0 <= v.output() <= UNIT,
{
    let u = UNIT as int;
    match v.state {
        State::Attack => {
            lemma_curve_in_unit_range(ADSR_ATTACK_TABLE@, v.accumulator);
            lemma_scaled_le(u - v.gate_on_value, curve_at(ADSR_ATTACK_TABLE@, v.accumulator));
        },
        State::Decay => {
            lemma_curve_in_unit_range(ADSR_DECAY_TABLE@, v.accumulator);
            lemma_scaled_le(u - v.sustain_level, curve_at(ADSR_DECAY_TABLE@, v.accumulator));
        },
        State::Release => {
            lemma_curve_in_unit_range(ADSR_DECAY_TABLE@, v.accumulator);
            lemma_scaled_le(v.gate_off_value as int, curve_at(ADSR_DECAY_TABLE@, v.accumulator));
        },
        _ => {},
    }
}

/// Every state the envelope can reach keeps its value within `[0, 1]`: each operation takes a
/// well-formed state, whose value is at most `UNIT`, to another.
pub proof fn lemma_value_stays_in_unit_range(v: AdsrView, input: Input)
    requires
        v.wf(),
    ensures
        v.value <= UNIT,
        v.ticked().wf(),
        v.ticked().value <= UNIT,
        v.gated_on().wf(),
        v.gated_off().wf(),
        v.with_input(input).wf(),
{
    lemma_pow2_bounds(24);
    let moved = if is_ticking(v.state) {
        let stepped = v.accumulator.with_increment(
            step_size(24, v.accumulator.sample_rate_hz, 1_000_000, v.period_of(v.state)),
        ).ticked();
        vstd::arithmetic::div_mod::lemma_mod_bound(
            (v.accumulator.accumulator + stepped.increment) as int,
            pow2(24) as int,
        );
        AdsrView {
            accumulator: AccumulatorView { rolled_over: false, ..stepped },
            state: if stepped.rolled_over {
                next_state(v.state)
            } else {
                v.state
            },
            ..v
        }
    } else {
        v
    };
    assert(moved.wf());
    lemma_output_in_unit_range(moved);
    match input {
        Input::Attack(a) => assert(a.micros() <= u32::MAX),
        Input::Decay(d) => assert(d.micros() <= u32::MAX),
        Input::Sustain(l) => assert(l.level() <= UNIT),
        Input::Release(r) => assert(r.micros() <= u32::MAX),
    }
}

/// A gate-on in decay, sustain or release switches to attack at once, and the attack curve
/// starts exactly at the level the envelope had: the output does not jump.
pub proof fn lemma_retrigger_is_continuous(v: AdsrView)
    requires
        v.wf(),
        v.state == State::Decay || v.state == State::Sustain || v.state == State::Release,
    ensures
        v.gated_on().state == State::Attack,
        v.gated_on().value == v.value,
        v.gated_on().output() == v.value,
{
    let w = v.gated_on();
    lemma_curve_in_unit_range(ADSR_ATTACK_TABLE@, w.accumulator);
    assert(ADSR_ATTACK_TABLE@[0] == 0);
    assert((UNIT as int - w.gate_on_value) * 0 == 0);
}

/// A gate-off at rest changes nothing.
pub proof fn lemma_gate_off_at_rest_is_ignored(v: AdsrView)
    requires
        v.state == State::AtRest,
    ensures
        v.gated_off() == v,
{
}

} // verus!
