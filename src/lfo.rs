//! # Low Frequency Oscillator
//!
//! A Direct Digital Synthesis oscillator with five waveshapes, all read from the same ramp.
//! Outputs are fixed point: `LFO_ONE` stands for +1.0 and every shape stays within
//! `[-LFO_ONE, LFO_ONE]`.
//!
//! Since this oscillator is intended as a low frequency control source, no attempt at
//! antialiasing is made: the harmonically rich shapes alias well below half the sample rate.

use crate::lookup_tables::{SINE_LUT_SIZE, SINE_TABLE};
use crate::phase_accumulator::{lemma_pow2_bounds, step_size, AccumulatorView, PhaseAccumulator};
use crate::utils::{ilog_2, interp, lemma_interp_between, linear_interp};
use vstd::arithmetic::power2::{lemma2_to64, lemma_pow2_strictly_increases, pow2};
use vstd::prelude::*;

verus! {

/// The output value that stands for +1.0.
pub const LFO_ONE: i64 = 2147483648;

/// The total number of bits of the oscillator's phase accumulator.
const TOT_NUM_ACCUM_BITS: u32 = 24;

/// LFO waveshapes; all of them are available at once.
#[derive(Clone, Copy, Debug)]
pub enum Waveshape {
    Sine,
    Triangle,
    UpSaw,
    DownSaw,
    Square,
}

/// The sine table interpolated at the accumulator's index and fraction; the next slot wraps.
pub open spec fn sine_of(v: AccumulatorView) -> int {
    let i = v.index() as int;
    interp(
        SINE_TABLE@[i] as int,
        SINE_TABLE@[(i + 1) % (SINE_LUT_SIZE as int)] as int,
        v.fraction() as int,
    )
}

/// With `r = 4 * ramp`: `r` below 1, `2 - r` below 3, `r - 4` above; `ramp` is in units of `2^-32`.
pub open spec fn triangle_of(ramp: int) -> int {
    if ramp < 0x4000_0000 {
        2 * ramp
    } else if ramp < 0xc000_0000 {
        0x1_0000_0000 - 2 * ramp
    } else {
        2 * ramp - 0x2_0000_0000
    }
}

/// `2 * ramp - 1`; `ramp` is in units of `2^-32`.
pub open spec fn up_saw_of(ramp: int) -> int {
    ramp - LFO_ONE
}

/// `+1` while the ramp is below one half, else `-1`.
pub open spec fn square_of(ramp: int) -> int {
    if ramp < 0x8000_0000 {
        LFO_ONE as int
    } else {
        -LFO_ONE
    }
}

/// The value of waveshape `ws` at the accumulator position `v`.
pub open spec fn shape_value(ws: Waveshape, v: AccumulatorView) -> int {
    match ws {
        Waveshape::Sine => sine_of(v),
        Waveshape::Triangle => triangle_of(v.ramp() as int),
        Waveshape::UpSaw => up_saw_of(v.ramp() as int),
        Waveshape::DownSaw => -up_saw_of(v.ramp() as int),
        Waveshape::Square => square_of(v.ramp() as int),
    }
}

/// A Low Frequency Oscillator.
pub struct Lfo {
    phase_accumulator: PhaseAccumulator,
}

impl View for Lfo {
    type V = AccumulatorView;

    closed spec fn view(&self) -> AccumulatorView {
        self.phase_accumulator@
    }
}

impl Lfo {
    pub closed spec fn inner_wf(&self) -> bool {
        self.phase_accumulator.wf()
    }

    pub open spec fn wf(&self) -> bool {
        &&& self.inner_wf()
        &&& self@.wf()
        &&& self@.total_bits == 24
        &&& self@.index_bits == 9
    }

    /// `Lfo::new(sr)` is a new LFO ticked `sr` times a second, at phase zero with a zero frequency.
    pub fn new(sample_rate_hz: u32) -> (r: Lfo)
        requires
            sample_rate_hz > 0,
        ensures
            r.wf(),
            r@ == (AccumulatorView {
                sample_rate_hz: sample_rate_hz as nat,
                total_bits: 24,
                index_bits: 9,
                accumulator: 0,
                last_accumulator: 0,
                increment: 0,
                rolled_over: false,
            }),
    {
        let index_bits = ilog_2(SINE_LUT_SIZE);
        proof {
            lemma2_to64();
            if index_bits > 10 {
                lemma_pow2_strictly_increases(10, index_bits as nat);
            }
            if index_bits < 8 {
                lemma_pow2_strictly_increases(index_bits as nat + 1, 9);
            }
        }
        let pa = PhaseAccumulator::new(TOT_NUM_ACCUM_BITS, index_bits, sample_rate_hz);
        Lfo { phase_accumulator: pa.unwrap() }
    }

    /// `lfo.tick()` advances the LFO by one sample.
    pub fn tick(&mut self)
        requires
            old(self).wf(),
        ensures
            final(self).wf(),
            final(self)@ == old(self)@.ticked(),
    {
        self.phase_accumulator.tick()
    }

    /// `lfo.set_frequency(f)` sets the frequency of the LFO to `f` millihertz.
    pub fn set_frequency(&mut self, freq_millihertz: u32)
        requires
            old(self).wf(),
        ensures
            final(self).wf(),
            final(self)@ == old(self)@.with_increment(
                step_size(24, old(self)@.sample_rate_hz, freq_millihertz as nat, 1000),
            ),
    {
        self.phase_accumulator.set_frequency(freq_millihertz)
    }

    fn up_saw(&self) -> (r: i64)
        requires
            self.wf(),
        ensures
            r == up_saw_of(self@.ramp() as int),
    {
        self.phase_accumulator.ramp() as i64 - LFO_ONE
    }

    /// `lfo.get(ws)` is the current value of waveshape `ws`, within `[-LFO_ONE, LFO_ONE]`.
    pub fn get(&self, waveshape: Waveshape) -> (r: i64)
        requires
            self.wf(),
        ensures
            r == shape_value(waveshape, self@),
            -LFO_ONE <= r <= LFO_ONE,
    {
        proof {
            lemma_output_in_range(waveshape, self@);
        }
        match waveshape {
            Waveshape::Sine => {
                let lut_idx = self.phase_accumulator.index();
                proof {
                    lemma2_to64();
                }
                let next_lut_idx = (lut_idx + 1) % SINE_LUT_SIZE;
                let y0 = SINE_TABLE[lut_idx];
                let y1 = SINE_TABLE[next_lut_idx];
                let frac = self.phase_accumulator.fraction();
                proof {
                    lemma_interp_between(y0 as int, y1 as int, frac as int);
                }
                linear_interp(y0 as i64, y1 as i64, frac)
            },
            Waveshape::Triangle => {
                let raw_ramp = self.phase_accumulator.ramp() as i64;
                if raw_ramp < 0x4000_0000 {
                    2 * raw_ramp
                } else if raw_ramp < 0xc000_0000 {
                    0x1_0000_0000 - 2 * raw_ramp
                } else {
                    2 * raw_ramp - 0x2_0000_0000
                }
            },
            Waveshape::UpSaw => self.up_saw(),
            Waveshape::DownSaw => -self.up_saw(),
            Waveshape::Square => {
                if self.phase_accumulator.ramp() < 0x8000_0000 {
                    LFO_ONE
                } else {
                    -LFO_ONE
                }
            },
        }
    }
}

/// Every shape stays within `[-LFO_ONE, LFO_ONE]`.
pub proof fn lemma_output_in_range(ws: Waveshape, v: AccumulatorView)
    requires
        v.wf(),
        v.total_bits == 24,
        v.index_bits == 9,
    ensures
        -LFO_ONE <= shape_value(ws, v) <= LFO_ONE,
{
    lemma_pow2_bounds(24);
    lemma_pow2_bounds(8);
    vstd::arithmetic::mul::lemma_mul_strict_inequality(v.accumulator as int, pow2(24) as int, pow2(8) as int);
    vstd::arithmetic::power2::lemma_pow2_adds(24, 8);
    lemma2_to64();
    assert(v.ramp() < 0x1_0000_0000);
    match ws {
        Waveshape::Sine => {
            let i = v.index() as int;
            vstd::arithmetic::div_mod::lemma_multiply_divide_lt(v.accumulator as int, pow2(15) as int, pow2(9) as int);
            vstd::arithmetic::power2::lemma_pow2_adds(15, 9);
            assert(0 <= i < 512);
            let y0 = SINE_TABLE@[i] as int;
            let y1 = SINE_TABLE@[(i + 1) % 512] as int;
            assert(v.fraction() <= crate::utils::UNIT) by {
                vstd::arithmetic::div_mod::lemma_div_is_ordered(
                    v.accumulator * (crate::utils::UNIT as int),
                    (pow2(24) - 1) * (crate::utils::UNIT as int),
                    pow2(24) - 1,
                );
                vstd::arithmetic::mul::lemma_mul_inequality(v.accumulator as int, pow2(24) - 1, crate::utils::UNIT as int);
                vstd::arithmetic::div_mod::lemma_div_multiples_vanish(crate::utils::UNIT as int, pow2(24) - 1);
                vstd::arithmetic::mul::lemma_mul_is_commutative(pow2(24) - 1, crate::utils::UNIT as int);
            }
            lemma_interp_between(y0, y1, v.fraction() as int);
        },
        _ => {},
    }
}

/// The falling saw is the rising saw negated, at every accumulator position.
pub proof fn lemma_down_saw_is_negated_up_saw(v: AccumulatorView)
    ensures
        shape_value(Waveshape::DownSaw, v) == -shape_value(Waveshape::UpSaw, v),
{
}

/// The triangle peaks at +1 a quarter of the way through the cycle and bottoms out at -1
/// three quarters of the way through.
pub proof fn lemma_triangle_extremes(v: AccumulatorView)
    ensures
        v.ramp() == 0x4000_0000 ==> shape_value(Waveshape::Triangle, v) == LFO_ONE,
        v.ramp() == 0xc000_0000 ==> shape_value(Waveshape::Triangle, v) == -LFO_ONE,
{
}

/// The square is +1 while the ramp is below one half and -1 from one half on.
pub proof fn lemma_square_halves(v: AccumulatorView)
    ensures
        v.ramp() < 0x8000_0000 ==> shape_value(Waveshape::Square, v) == LFO_ONE,
        v.ramp() >= 0x8000_0000 ==> shape_value(Waveshape::Square, v) == -LFO_ONE,
{
}

} // verus!
