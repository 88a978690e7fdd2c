//! Waveform and envelope generators for modular-synthesizer firmware, in fixed point.
//!
//! - `phase_accumulator`: the Direct Digital Synthesis ramp that drives the generators
//! - `lfo`: a low frequency oscillator with five waveshapes
//! - `adsr`: an attack, decay, sustain, release envelope generator
//! - `lookup_tables`: the sine and envelope curve tables
//! - `quantizer`, `mono_midi_receiver`, `ribbon_controller`: control inputs around them
//!
//! Fixed-point conventions: unipolar levels and weights are `u32` where `utils::UNIT` stands
//! for 1.0; bipolar outputs are `i64` where `2^31` stands for 1.0; frequencies are millihertz,
//! times microseconds, voltages microvolts.

pub mod adsr;
mod heapless_vec;
pub mod lfo;
pub mod lookup_tables;
pub mod mono_midi_receiver;
pub mod phase_accumulator;
pub mod quantizer;
pub mod ribbon_controller;
pub mod utils;
