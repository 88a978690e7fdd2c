//! # Softpot resistive ribbon controller: buffer sizing
//!
//! The ribbon controller averages its most recent samples, ignoring a few at the start of a
//! press (while the ribbon settles) and at the end (while it shoots up after a release). The
//! averaging itself works on floating-point samples and lives with the firmware; this module
//! sizes its sample buffer from the sample rate and decides, sample by sample, what is done
//! with each one and when a press or a release has happened.

use vstd::prelude::*;

verus! {

/// The approximate time it takes the ribbon to settle after a finger press, in microseconds.
pub const RIBBON_FALL_TIME_USEC: u32 = 1_000;

/// The approximate time it takes the ribbon to rise to the pull-up value after a finger is
/// lifted, in microseconds.
pub const RIBBON_RISE_TIME_USEC: u32 = 2_000;

/// The minimum time needed to capture a reading, in microseconds: five times the rise and
/// fall times together.
pub const MIN_CAPTURE_TIME_USEC: u32 = 15_000;

/// The number of samples that span `micros` microseconds at `sample_rate_hz`, rounded down.
pub open spec fn samples_in(sample_rate_hz: nat, micros: nat) -> nat {
    sample_rate_hz * micros / 1_000_000
}

/// `sample_rate_to_capacity(sr)` is the capacity the ribbon's sample buffer needs at sample
/// rate `sr`: the samples of one capture, the samples discarded at the end, and one more.
pub fn sample_rate_to_capacity(sample_rate_hz: u32) -> (r: usize)
    ensures
        r == samples_in(sample_rate_hz as nat, MIN_CAPTURE_TIME_USEC as nat) + samples_in(
            sample_rate_hz as nat,
            RIBBON_RISE_TIME_USEC as nat,
        ) + 1,
{
    let num_main_samples_to_care_about = samples_for(sample_rate_hz, MIN_CAPTURE_TIME_USEC);
    let num_to_discard_at_end = samples_for(sample_rate_hz, RIBBON_RISE_TIME_USEC);
    num_main_samples_to_care_about + num_to_discard_at_end + 1
}

/// The number of samples that span `micros` microseconds at `sample_rate_hz`, rounded down.
fn samples_for(sample_rate_hz: u32, micros: u32) -> (r: usize)
    requires
        micros <= MIN_CAPTURE_TIME_USEC,
    ensures
        r == samples_in(sample_rate_hz as nat, micros as nat),
        r <= 64_424_509,
{
    proof {
        assert(sample_rate_hz as int * micros as int <= 0xffff_ffffint * 15_000) by (nonlinear_arith)
            requires
                sample_rate_hz <= 0xffff_ffff,
                micros <= 15_000,
        ;
        vstd::arithmetic::div_mod::lemma_div_is_ordered(
            sample_rate_hz as int * micros as int,
            0xffff_ffffint * 15_000,
            1_000_000,
        );
    }
    ((sample_rate_hz as u64 * micros as u64) / 1_000_000) as usize
}

/// What the ribbon controller does with a sample.
#[derive(Clone, Copy, PartialEq, Eq, Debug, Structural)]
pub enum PollAction {
    /// Nothing: the sample is not from a press, or falls in the settling time of one.
    Ignore,
    /// Write the sample to the buffer.
    Store,
    /// Write the sample to the buffer, which is full: average it into a new position.
    StoreAndAverage,
}

/// The press tracking of a ribbon controller as mathematical values.
pub struct RibbonGateView {
    pub num_to_ignore_up_front: nat,
    pub num_to_discard_at_end: nat,
    pub capacity: nat,
    pub finger_is_pressing: bool,
    pub finger_just_pressed: bool,
    pub finger_just_released: bool,
    pub num_samples_received: nat,
    pub num_samples_written: nat,
}

/// `min(a, b)`.
pub open spec fn min_nat(a: nat, b: nat) -> nat {
    if a < b {
        a
    } else {
        b
    }
}

impl RibbonGateView {
    pub open spec fn wf(self) -> bool {
        &&& self.num_to_discard_at_end < self.capacity
        &&& self.num_samples_received <= self.num_to_ignore_up_front
        &&& self.num_samples_written <= self.capacity
        &&& self.capacity <= usize::MAX
    }

    /// The state after a sample, pressed or not, and what is to be done with the sample.
    /// A press counts its samples; once the settling samples are past, each sample is stored,
    /// and once the buffer has filled, each is averaged in and the first such sample marks the
    /// press. A sample that is not pressed ends a press, marking the release.
    pub open spec fn polled(self, pressed: bool) -> (RibbonGateView, PollAction) {
        if pressed {
            let received = min_nat(self.num_samples_received + 1, self.num_to_ignore_up_front);
            if self.num_to_ignore_up_front <= received {
                let written = min_nat(self.num_samples_written + 1, self.capacity);
                if written == self.capacity {
                    (
                        RibbonGateView {
                            num_samples_received: received,
                            num_samples_written: written,
                            finger_just_pressed: self.finger_just_pressed || !self.finger_is_pressing,
                            finger_is_pressing: true,
                            ..self
                        },
                        PollAction::StoreAndAverage,
                    )
                } else {
                    (
                        RibbonGateView {
                            num_samples_received: received,
                            num_samples_written: written,
                            ..self
                        },
                        PollAction::Store,
                    )
                }
            } else {
                (RibbonGateView { num_samples_received: received, ..self }, PollAction::Ignore)
            }
        } else if self.finger_is_pressing {
            (
                RibbonGateView {
                    finger_just_released: true,
                    num_samples_received: 0,
                    num_samples_written: 0,
                    finger_is_pressing: false,
                    ..self
                },
                PollAction::Ignore,
            )
        } else {
            (self, PollAction::Ignore)
        }
    }
}

/// The press tracking of a ribbon controller: which samples count, and the finger gate.
pub struct RibbonGate {
    num_to_ignore_up_front: usize,
    num_to_discard_at_end: usize,
    capacity: usize,
    finger_is_pressing: bool,
    finger_just_pressed: bool,
    finger_just_released: bool,
    // samples received since the finger went down, up to the settling count
    num_samples_received: usize,
    // samples written to the buffer since the finger went down, up to its capacity
    num_samples_written: usize,
}

impl View for RibbonGate {
    type V = RibbonGateView;

    closed spec fn view(&self) -> RibbonGateView {
        RibbonGateView {
            num_to_ignore_up_front: self.num_to_ignore_up_front as nat,
            num_to_discard_at_end: self.num_to_discard_at_end as nat,
            capacity: self.capacity as nat,
            finger_is_pressing: self.finger_is_pressing,
            finger_just_pressed: self.finger_just_pressed,
            finger_just_released: self.finger_just_released,
            num_samples_received: self.num_samples_received as nat,
            num_samples_written: self.num_samples_written as nat,
        }
    }
}

impl RibbonGate {
    pub open spec fn wf(&self) -> bool {
        self@.wf()
    }

    /// `RibbonGate::new(sr, c)` tracks presses at sample rate `sr` for a buffer of `c` samples,
    /// which must hold more than the samples discarded at the end of a press.
    pub fn new(sample_rate_hz: u32, capacity: usize) -> (r: RibbonGate)
        requires
            capacity > samples_in(sample_rate_hz as nat, RIBBON_RISE_TIME_USEC as nat),
        ensures
            r.wf(),
            r@ == (RibbonGateView {
                num_to_ignore_up_front: samples_in(sample_rate_hz as nat, RIBBON_FALL_TIME_USEC as nat),
                num_to_discard_at_end: samples_in(sample_rate_hz as nat, RIBBON_RISE_TIME_USEC as nat),
                capacity: capacity as nat,
                finger_is_pressing: false,
                finger_just_pressed: false,
                finger_just_released: false,
                num_samples_received: 0,
                num_samples_written: 0,
            }),
    {
        let num_to_ignore_up_front = samples_for(sample_rate_hz, RIBBON_FALL_TIME_USEC);
        let num_to_discard_at_end = samples_for(sample_rate_hz, RIBBON_RISE_TIME_USEC);
        RibbonGate {
            num_to_ignore_up_front,
            num_to_discard_at_end,
            capacity,
            finger_is_pressing: false,
            finger_just_pressed: false,
            finger_just_released: false,
            num_samples_received: 0,
            num_samples_written: 0,
        }
    }

    /// `g.poll(p)` takes the next sample, `p` telling whether it is from a press, and says what
    /// to do with it.
    pub fn poll(&mut self, pressed: bool) -> (r: PollAction)
        requires
            old(self).wf(),
        ensures
            final(self).wf(),
            (final(self)@, r) == old(self)@.polled(pressed),
    {
        if pressed {
            self.num_samples_received = if self.num_samples_received < self.num_to_ignore_up_front {
                self.num_samples_received + 1
            } else {
                self.num_to_ignore_up_front
            };
            // only count samples after a few possibly spurious ones at the start of a press
            if self.num_to_ignore_up_front <= self.num_samples_received {
                self.num_samples_written = if self.num_samples_written < self.capacity {
                    self.num_samples_written + 1
                } else {
                    self.capacity
                };
                if self.num_samples_written == self.capacity {
                    if !self.finger_is_pressing {
                        self.finger_just_pressed = true;
                        self.finger_is_pressing = true;
                    }
                    return PollAction::StoreAndAverage;
                }
                return PollAction::Store;
            }
            PollAction::Ignore
        } else {
            if self.finger_is_pressing {
                self.finger_just_released = true;
                self.num_samples_received = 0;
                self.num_samples_written = 0;
                self.finger_is_pressing = false;
            }
            PollAction::Ignore
        }
    }

    /// The number of samples averaged into a position: the buffer less those discarded at the
    /// end of a press.
    pub fn num_to_average(&self) -> (r: usize)
        requires
            self.wf(),
        ensures
            r == self@.capacity - self@.num_to_discard_at_end,
            r >= 1,
    {
        self.capacity - self.num_to_discard_at_end
    }

    /// `g.finger_is_pressing()` is true iff a finger is on the ribbon.
    pub fn finger_is_pressing(&self) -> (r: bool)
        ensures
            r == self@.finger_is_pressing,
    {
        self.finger_is_pressing
    }

    /// `g.finger_just_pressed()` is true iff a finger was put down since the last read; reading
    /// clears it.
    pub fn finger_just_pressed(&mut self) -> (r: bool)
        ensures
            r == old(self)@.finger_just_pressed,
            final(self)@ == (RibbonGateView { finger_just_pressed: false, ..old(self)@ }),
    {
        if self.finger_just_pressed {
            self.finger_just_pressed = false;
            true
        } else {
            false
        }
    }

    /// `g.finger_just_released()` is true iff the finger was lifted since the last read;
    /// reading clears it.
    pub fn finger_just_released(&mut self) -> (r: bool)
        ensures
            r == old(self)@.finger_just_released,
            final(self)@ == (RibbonGateView { finger_just_released: false, ..old(self)@ }),
    {
        if self.finger_just_released {
            self.finger_just_released = false;
            true
        } else {
            false
        }
    }
}

} // verus!
