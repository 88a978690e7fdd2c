//! # Phase accumulator
//!
//! A fixed-point ramp generator for Direct Digital Synthesis. The accumulator is `total_bits`
//! wide and wraps modulo `2^total_bits`; its top `index_bits` address a lookup table.

use crate::utils::UNIT;
use vstd::arithmetic::div_mod::{lemma_div_is_ordered, lemma_multiply_divide_lt};
use vstd::arithmetic::mul::{lemma_mul_inequality, lemma_mul_strict_inequality};
use vstd::arithmetic::power2::{
    lemma2_to64, lemma2_to64_rest, lemma_pow2_adds, lemma_pow2_pos, lemma_pow2_strictly_increases,
    pow2,
};
use vstd::bits::{
    low_bits_mask, lemma_u32_low_bits_mask_is_mod, lemma_u32_shr_is_div, lemma_u64_low_bits_mask_is_mod,
    lemma_u64_shl_is_mul,
};
use vstd::prelude::*;

verus! {

/// `valid_bits(n, m)` holds of a usable accumulator width `n` and index width `m`.
pub open spec fn valid_bits(total_bits: int, index_bits: int) -> bool {
    1 <= index_bits <= total_bits <= 31
}

/// The per-tick step for a frequency of `cycles / seconds` Hz on a `total_bits` wide accumulator
/// ticked `sample_rate_hz` times a second: `2^total_bits * frequency / sample_rate_hz`, rounded down
/// and saturated at `u32::MAX` (an infinite frequency saturates too).
pub open spec fn step_size(total_bits: nat, sample_rate_hz: nat, cycles: nat, seconds: nat) -> nat {
    if seconds * sample_rate_hz == 0 {
        u32::MAX as nat
    } else {
        let s = pow2(total_bits) * cycles / (seconds * sample_rate_hz);
        if s > u32::MAX {
            u32::MAX as nat
        } else {
            s
        }
    }
}

/// The contents of a phase accumulator as mathematical values.
pub struct AccumulatorView {
    pub sample_rate_hz: nat,
    pub total_bits: nat,
    pub index_bits: nat,
    pub accumulator: nat,
    pub last_accumulator: nat,
    pub increment: nat,
    pub rolled_over: bool,
}

impl AccumulatorView {
    pub open spec fn wf(self) -> bool {
        &&& valid_bits(self.total_bits as int, self.index_bits as int)
        &&& 0 < self.sample_rate_hz <= u32::MAX
        &&& self.accumulator < pow2(self.total_bits)
        &&& self.last_accumulator < pow2(self.total_bits)
        &&& self.increment <= u32::MAX
    }

    /// The accumulator value one tick later: one increment on, modulo `2^total_bits`.
    pub open spec fn next_accumulator(self) -> nat {
        (self.accumulator + self.increment) % pow2(self.total_bits)
    }

    /// The state after one tick; the rollover flag latches when the value wrapped.
    pub open spec fn ticked(self) -> AccumulatorView {
        AccumulatorView {
            accumulator: self.next_accumulator(),
            last_accumulator: self.accumulator,
            rolled_over: self.rolled_over || self.next_accumulator() < self.accumulator,
            ..self
        }
    }

    /// The state after a reset: position, previous position and flag cleared.
    pub open spec fn reset(self) -> AccumulatorView {
        AccumulatorView { accumulator: 0, last_accumulator: 0, rolled_over: false, ..self }
    }

    /// The state after the rollover flag has been read.
    pub open spec fn cleared(self) -> AccumulatorView {
        AccumulatorView { rolled_over: false, ..self }
    }

    /// The state with the per-tick step changed.
    pub open spec fn with_increment(self, increment: nat) -> AccumulatorView {
        AccumulatorView { increment, ..self }
    }

    /// The ramp `accumulator / 2^total_bits` in fixed point where `2^32` stands for 1.0.
    pub open spec fn ramp(self) -> nat {
        self.accumulator * pow2((32 - self.total_bits) as nat)
    }

    /// The top `index_bits` of the accumulator.
    pub open spec fn index(self) -> nat {
        self.accumulator / pow2((self.total_bits - self.index_bits) as nat)
    }

    /// `accumulator / (2^total_bits - 1)` in fixed point where `UNIT` stands for 1.0, rounded down.
    pub open spec fn fraction(self) -> nat {
        self.accumulator * (UNIT as nat) / ((pow2(self.total_bits) - 1) as nat)
    }
}

/// Facts about the powers of two up to the accumulator widths used here.
pub proof fn lemma_pow2_bounds(n: nat)
    requires
        n <= 32,
    ensures
        1 <= pow2(n) <= 0x1_0000_0000,
        n <= 31 ==> pow2(n) <= 0x8000_0000,
        n >= 1 ==> pow2(n) >= 2,
{
    lemma2_to64();
    lemma_pow2_pos(n);
    if n < 32 {
        lemma_pow2_strictly_increases(n, 32);
    }
    if n < 31 {
        lemma_pow2_strictly_increases(n, 31);
    }
    if n > 1 {
        lemma_pow2_strictly_increases(1, n);
    }
}

/// A phase accumulator: a counter that wraps modulo a power of two.
pub struct PhaseAccumulator {
    sample_rate_hz: u32,
    total_bits: u32,
    index_bits: u32,
    rollover_mask: u32,
    accumulator: u32,
    last_accumulator: u32,
    increment: u32,
    rolled_over: bool,
}

impl View for PhaseAccumulator {
    type V = AccumulatorView;

    closed spec fn view(&self) -> AccumulatorView {
        AccumulatorView {
            sample_rate_hz: self.sample_rate_hz as nat,
            total_bits: self.total_bits as nat,
            index_bits: self.index_bits as nat,
            accumulator: self.accumulator as nat,
            last_accumulator: self.last_accumulator as nat,
            increment: self.increment as nat,
            rolled_over: self.rolled_over,
        }
    }
}

impl PhaseAccumulator {
    pub closed spec fn mask_wf(&self) -> bool {
        self.rollover_mask as nat == low_bits_mask(self.total_bits as nat)
    }

    pub open spec fn wf(&self) -> bool {
        self@.wf() && self.mask_wf()
    }

    /// `PhaseAccumulator::new(n, m, sr)` is a new accumulator `n` bits wide with `m` index bits,
    /// ticked `sr` times a second, at rest with a zero step; `None` unless `1 <= m <= n <= 31`.
    pub fn new(total_bits: u32, index_bits: u32, sample_rate_hz: u32) -> (r: Option<PhaseAccumulator>)
        requires
            sample_rate_hz > 0,
        ensures
            r.is_some() <==> valid_bits(total_bits as int, index_bits as int),
            r matches Some(pa) ==> pa.wf() && pa@ == (AccumulatorView {
                sample_rate_hz: sample_rate_hz as nat,
                total_bits: total_bits as nat,
                index_bits: index_bits as nat,
                accumulator: 0,
                last_accumulator: 0,
                increment: 0,
                rolled_over: false,
            }),
    {
        if !(1 <= index_bits && index_bits <= total_bits && total_bits <= 31) {
            return None;
        }
        proof {
            lemma_pow2_bounds(total_bits as nat);
            lemma_u64_shl_is_mul(1, total_bits as u64);
        }
        let modulus: u64 = 1u64 << total_bits;
        Some(
            PhaseAccumulator {
                sample_rate_hz,
                total_bits,
                index_bits,
                rollover_mask: (modulus - 1) as u32,
                accumulator: 0,
                last_accumulator: 0,
                increment: 0,
                rolled_over: false,
            },
        )
    }

    /// `pa.tick()` advances the accumulator by one step, wrapping modulo `2^total_bits`;
    /// the rollover flag latches when the new value is below the value before the tick.
    pub fn tick(&mut self)
        requires
            old(self).wf(),
        ensures
            final(self).wf(),
            final(self)@ == old(self)@.ticked(),
    {
        let sum: u64 = self.accumulator as u64 + self.increment as u64;
        proof {
            lemma_pow2_bounds(self.total_bits as nat);
            lemma_u64_low_bits_mask_is_mod(sum, self.total_bits as nat);
        }
        let next: u64 = sum & (self.rollover_mask as u64);
        proof {
            assert(next < pow2(self.total_bits as nat));
        }
        self.last_accumulator = self.accumulator;
        self.accumulator = next as u32;
        if self.accumulator < self.last_accumulator {
            self.rolled_over = true;
        }
    }

    /// The step for a frequency of `cycles / seconds` Hz.
    fn step_for(&self, cycles: u64, seconds: u64) -> (r: u32)
        requires
            self.wf(),
            cycles <= u32::MAX,
            seconds <= u32::MAX,
        ensures
            r == step_size(self@.total_bits, self@.sample_rate_hz, cycles as nat, seconds as nat),
    {
        proof {
            assert(seconds as u128 * self.sample_rate_hz as u128 <= 0xffff_ffffu128 * 0xffff_ffffu128)
                by (nonlinear_arith)
                requires
                    seconds <= 0xffff_ffff,
                    self.sample_rate_hz <= 0xffff_ffff,
            ;
        }
        let den: u128 = seconds as u128 * self.sample_rate_hz as u128;
        if den == 0 {
            return u32::MAX;
        }
        proof {
            lemma_pow2_bounds(self.total_bits as nat);
            assert((self.rollover_mask as u128 + 1) * cycles as u128 <= 0x8000_0000 * 0xffff_ffffu128)
                by (nonlinear_arith)
                requires
                    self.rollover_mask as u128 + 1 <= 0x8000_0000,
                    cycles <= 0xffff_ffff,
            ;
        }
        let num: u128 = (self.rollover_mask as u128 + 1) * cycles as u128;
        let q: u128 = num / den;
        if q > u32::MAX as u128 {
            u32::MAX
        } else {
            q as u32
        }
    }

    /// `pa.set_frequency(f)` sets the step for a frequency of `f` millihertz:
    /// `2^total_bits * f / (1000 * sample_rate_hz)`, rounded down, saturated at `u32::MAX`.
    pub fn set_frequency(&mut self, freq_millihertz: u32)
        requires
            old(self).wf(),
        ensures
            final(self).wf(),
            final(self)@ == old(self)@.with_increment(
                step_size(old(self)@.total_bits, old(self)@.sample_rate_hz, freq_millihertz as nat, 1000),
            ),
    {
        self.increment = self.step_for(freq_millihertz as u64, 1000);
    }

    /// `pa.set_period(p)` sets the step for a period of `p` microseconds, that is a frequency of
    /// `1 / p`; a zero period saturates the step.
    pub fn set_period(&mut self, period_micros: u32)
        requires
            old(self).wf(),
        ensures
            final(self).wf(),
            final(self)@ == old(self)@.with_increment(
                step_size(old(self)@.total_bits, old(self)@.sample_rate_hz, 1_000_000, period_micros as nat),
            ),
    {
        self.increment = self.step_for(1_000_000, period_micros as u64);
    }

    /// `pa.set_phase(p)` resets the accumulator and then places it at phase `p / UNIT`:
    /// `rollover_mask * p / UNIT`, rounded down.
    pub fn set_phase(&mut self, phase: u32)
        requires
            old(self).wf(),
        ensures
            final(self).wf(),
            final(self)@ == (AccumulatorView {
                accumulator: ((pow2(old(self)@.total_bits) - 1) as nat) * (phase as nat) / (UNIT as nat),
                ..old(self)@.reset()
            }),
    {
        self.reset();
        proof {
            lemma_pow2_bounds(self.total_bits as nat);
            lemma_mul_inequality(phase as int, UNIT as int, self.rollover_mask as int);
            vstd::arithmetic::mul::lemma_mul_is_commutative(phase as int, self.rollover_mask as int);
            vstd::arithmetic::mul::lemma_mul_is_commutative(UNIT as int, self.rollover_mask as int);
            lemma_div_is_ordered(
                self.rollover_mask as int * phase as int,
                self.rollover_mask as int * UNIT as int,
                UNIT as int,
            );
            vstd::arithmetic::div_mod::lemma_div_multiples_vanish(self.rollover_mask as int, UNIT as int);
        }
        let pos: u64 = (self.rollover_mask as u64 * phase as u64) / (UNIT as u64);
        self.accumulator = pos as u32;
    }

    /// `pa.ramp()` is the position in the cycle, `accumulator / 2^total_bits`, in fixed point where
    /// `2^32` stands for 1.0; it is exact.
    pub fn ramp(&self) -> (r: u32)
        requires
            self.wf(),
        ensures
            r == self@.ramp(),
    {
        let shift: u32 = 32 - self.total_bits;
        proof {
            let n = self.total_bits as nat;
            let s = shift as nat;
            lemma_pow2_bounds(n);
            lemma_pow2_bounds(s);
            lemma_pow2_adds(n, s);
            lemma2_to64_rest();
            lemma_mul_strict_inequality(self.accumulator as int, pow2(n) as int, pow2(s) as int);
            vstd::arithmetic::mul::lemma_mul_is_commutative(self.accumulator as int, pow2(s) as int);
            vstd::arithmetic::mul::lemma_mul_is_commutative(pow2(n) as int, pow2(s) as int);
            assert(pow2(32) == 0x1_0000_0000) by {
                lemma2_to64();
            }
            lemma_u64_shl_is_mul(self.accumulator as u64, shift as u64);
        }
        ((self.accumulator as u64) << (shift as u64)) as u32
    }

    /// `pa.index()` is the top `index_bits` of the accumulator, a table index below `2^index_bits`.
    pub fn index(&self) -> (r: usize)
        requires
            self.wf(),
        ensures
            r == self@.index(),
            r < pow2(self@.index_bits),
    {
        let shift: u32 = self.total_bits - self.index_bits;
        proof {
            let n = self.total_bits as nat;
            let m = self.index_bits as nat;
            let s = shift as nat;
            lemma_pow2_bounds(n);
            lemma_pow2_bounds(m);
            lemma_pow2_bounds(s);
            lemma_pow2_adds(s, m);
            lemma_u32_shr_is_div(self.accumulator, shift);
            lemma_multiply_divide_lt(self.accumulator as int, pow2(s) as int, pow2(m) as int);
        }
        (self.accumulator >> shift) as usize
    }

    /// `pa.fraction()` is `(accumulator & rollover_mask) / rollover_mask` in fixed point where
    /// `UNIT` stands for 1.0, rounded down.
    pub fn fraction(&self) -> (r: u32)
        requires
            self.wf(),
        ensures
            r == self@.fraction(),
            r <= UNIT,
    {
        proof {
            lemma_pow2_bounds(self.total_bits as nat);
            lemma_u32_low_bits_mask_is_mod(self.accumulator, self.total_bits as nat);
            vstd::arithmetic::div_mod::lemma_small_mod(self.accumulator as nat, pow2(self.total_bits as nat));
        }
        let masked: u32 = self.accumulator & self.rollover_mask;
        proof {
            let a = masked as int;
            let m = self.rollover_mask as int;
            lemma_mul_inequality(a, m, UNIT as int);
            lemma_div_is_ordered(a * UNIT as int, m * UNIT as int, m);
            vstd::arithmetic::div_mod::lemma_div_multiples_vanish(UNIT as int, m);
            vstd::arithmetic::mul::lemma_mul_is_commutative(m, UNIT as int);
            assert(a * (UNIT as int) <= 0x8000_0000 * 0xffff_ffff) by (nonlinear_arith)
                requires
                    0 <= a <= 0x8000_0000,
            ;
        }
        ((masked as u64 * UNIT as u64) / (self.rollover_mask as u64)) as u32
    }

    /// `pa.rolled_over()` is true iff the accumulator has wrapped since the flag was last read;
    /// reading clears the flag.
    pub fn rolled_over(&mut self) -> (r: bool)
        requires
            old(self).wf(),
        ensures
            final(self).wf(),
            r == old(self)@.rolled_over,
            final(self)@ == old(self)@.cleared(),
    {
        if self.rolled_over {
            self.rolled_over = false;
            true
        } else {
            false
        }
    }

    /// `pa.reset()` puts the accumulator back to zero and clears the rollover flag.
    pub fn reset(&mut self)
        requires
            old(self).wf(),
        ensures
            final(self).wf(),
            final(self)@ == old(self)@.reset(),
    {
        proof {
            lemma_pow2_bounds(self.total_bits as nat);
        }
        self.accumulator = 0;
        self.last_accumulator = 0;
        self.rolled_over = false;
    }
}

/// For a frequency of at most half the sample rate, each tick moves the ramp up by exactly one
/// step until it passes the end of the cycle; the tick that passes it wraps the ramp to a
/// position below one step, close to zero, and latches the rollover flag.
pub proof fn lemma_ramp_rises_until_wrap(v: AccumulatorView, freq_millihertz: nat)
    requires
        v.wf(),
        2 * freq_millihertz <= 1000 * v.sample_rate_hz,
    ensures
        ({
            let step = step_size(v.total_bits, v.sample_rate_hz, freq_millihertz, 1000);
            let w = v.with_increment(step).ticked();
            &&& 2 * step <= pow2(v.total_bits)
            &&& v.accumulator + step < pow2(v.total_bits) ==> {
                &&& w.accumulator == v.accumulator + step
                &&& w.ramp() >= v.ramp()
                &&& w.rolled_over == v.rolled_over
            }
            &&& v.accumulator + step >= pow2(v.total_bits) ==> {
                &&& w.accumulator < step
                &&& w.ramp() < v.ramp()
                &&& w.rolled_over
            }
        }),
{
    let n = v.total_bits;
    let p = pow2(n) as int;
    let f = freq_millihertz as int;
    let den = 1000 * v.sample_rate_hz as int;
    lemma_pow2_bounds(n);
    lemma_pow2_bounds((32 - n) as nat);
    vstd::arithmetic::power2::lemma_pow2_unfold(n);
    let half = pow2((n - 1) as nat) as int;
    assert(p == 2 * half);
    lemma_pow2_bounds((n - 1) as nat);
    assert(den > 0) by (nonlinear_arith)
        requires
            den == 1000 * v.sample_rate_hz as int,
            v.sample_rate_hz > 0,
    ;
    assert(1000 * v.sample_rate_hz * 1 > 0);
    assert(p * f <= half * den) by (nonlinear_arith)
        requires
            p == 2 * half,
            2 * f <= den,
            half >= 0,
    ;
    lemma_div_is_ordered(p * f, half * den, den);
    vstd::arithmetic::div_mod::lemma_div_multiples_vanish(half, den);
    vstd::arithmetic::div_mod::lemma_div_pos_is_pos(p * f, den);
    let step = step_size(n, v.sample_rate_hz, freq_millihertz, 1000);
    assert(freq_millihertz * 1000 >= 0);
    assert(1000 * v.sample_rate_hz == v.sample_rate_hz * 1000) by (nonlinear_arith);
    assert(step == p * f / den);
    assert(2 * step <= p);
    let a = v.accumulator as int;
    let w = v.with_increment(step).ticked();
    let s = pow2((32 - n) as nat) as int;
    if a + step < p {
        vstd::arithmetic::div_mod::lemma_small_mod((a + step) as nat, p as nat);
        lemma_mul_inequality(a, a + step, s);
    } else {
        vstd::arithmetic::div_mod::lemma_mod_sub_multiples_vanish(a + step, p);
        vstd::arithmetic::div_mod::lemma_small_mod((a + step - p) as nat, p as nat);
        vstd::arithmetic::div_mod::lemma_mod_self_0(p);
        assert((a + step) % p == (a + step - p)) by {
            vstd::arithmetic::div_mod::lemma_fundamental_div_mod_converse(a + step, p, 1, a + step - p);
        }
        lemma_mul_strict_inequality(a + step - p, a, s);
    }
}

/// Read once per tick, the rollover flag is true exactly on the ticks that complete a cycle,
/// and a tick completes at most one cycle when the step is below a full cycle; a second read
/// with no tick in between is false.
pub proof fn lemma_rollover_flag_marks_each_cycle(v: AccumulatorView)
    requires
        v.wf(),
        !v.rolled_over,
        v.increment < pow2(v.total_bits),
    ensures
        v.ticked().rolled_over <==> v.accumulator + v.increment >= pow2(v.total_bits),
        (v.accumulator + v.increment) / pow2(v.total_bits) == (if v.ticked().rolled_over {
            1int
        } else {
            0int
        }),
        !v.ticked().cleared().rolled_over,
        v.ticked().cleared().accumulator == v.ticked().accumulator,
{
    let p = pow2(v.total_bits) as int;
    let t = v.accumulator + v.increment;
    lemma_pow2_bounds(v.total_bits);
    if t < p {
        vstd::arithmetic::div_mod::lemma_small_mod(t as nat, p as nat);
        vstd::arithmetic::div_mod::lemma_basic_div(t as int, p);
    } else {
        vstd::arithmetic::div_mod::lemma_fundamental_div_mod_converse(t as int, p, 1, t - p);
    }
}

/// Counted from a reset, with a step below a full cycle, the ticks that latch the rollover flag
/// are exactly the ticks that complete a cycle: after `k` ticks the accumulator stands at
/// `k * step mod 2^total_bits`, and tick `k + 1` wraps iff it raises the count of completed
/// cycles, `k * step / 2^total_bits`, by one; otherwise the count stays.
pub proof fn lemma_wraps_count_cycles(v: AccumulatorView, k: nat)
    requires
        v.wf(),
        !v.rolled_over,
        v.increment < pow2(v.total_bits),
        v.accumulator == (k * v.increment) % pow2(v.total_bits),
    ensures
        v.ticked().accumulator == ((k + 1) * v.increment) % pow2(v.total_bits),
        v.ticked().rolled_over ==> ((k + 1) * v.increment) / pow2(v.total_bits) == (k * v.increment)
            / pow2(v.total_bits) + 1,
        !v.ticked().rolled_over ==> ((k + 1) * v.increment) / pow2(v.total_bits) == (k
            * v.increment) / pow2(v.total_bits),
{
    let p = pow2(v.total_bits) as int;
    let inc = v.increment as int;
    let a = k * inc;
    lemma_pow2_bounds(v.total_bits);
    vstd::arithmetic::div_mod::lemma_fundamental_div_mod(a, p);
    vstd::arithmetic::div_mod::lemma_mod_bound(a, p);
    let q = a / p;
    let r = a % p;
    assert((k + 1) * inc == a + inc) by (nonlinear_arith)
        requires
            a == k * inc,
    ;
    assert(p * q + r == a) by {
        vstd::arithmetic::mul::lemma_mul_is_commutative(p, q);
    }
    if r + inc < p {
        vstd::arithmetic::div_mod::lemma_fundamental_div_mod_converse(a + inc, p, q, r + inc);
        vstd::arithmetic::div_mod::lemma_small_mod((r + inc) as nat, p as nat);
    } else {
        vstd::arithmetic::div_mod::lemma_fundamental_div_mod_converse(r + inc, p, 1, r + inc - p);
        assert(p * (q + 1) + (r + inc - p) == a + inc) by (nonlinear_arith)
            requires
                p * q + r == a,
        ;
        vstd::arithmetic::div_mod::lemma_fundamental_div_mod_converse(a + inc, p, q + 1, r + inc - p);
    }
}

} // verus!
