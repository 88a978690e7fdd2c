//! # Monophonic MIDI receiver
//!
//! Monophonic means that only one note sounds at a time. The receiver is fed MIDI bytes one
//! at a time and turns them into common synthesizer control signals: a note number, a gate
//! with rising and falling edges, velocity, pitch bend and a few controllers. Not every part of
//! the MIDI protocol is handled.
//!
//! Levels are fixed point: `UNIT` stands for 1.0 in unipolar values, `BIPOLAR_ONE` for +1.0 in
//! the pitch bend.

use crate::heapless_vec::{
    lemma_without, note_list_as_slice, note_list_clear, note_list_new, note_list_push, note_list_remove,
    notes_held, without,
};
use crate::utils::UNIT;
use midi_convert::midi_types::MidiMessage;
use midi_convert::parse::MidiParser;
use vstd::prelude::*;

verus! {

#[verifier::external_type_specification]
#[verifier::external_body]
pub struct ExMidiParser(MidiParser);

/// The pitch bend value that stands for +1.0.
pub const BIPOLAR_ONE: i64 = 2147483648;

// Common MIDI CC numbers
pub const CC_MOD_WHEEL: u8 = 0x01;
pub const CC_VOLUME: u8 = 0x07;
pub const CC_VCF_CUTOFF: u8 = 0x47;
pub const CC_VCF_RESONANCE: u8 = 0x4A;
pub const CC_SUSTAIN_SWITCH: u8 = 0x40;
pub const CC_PORTAMENTO_SWITCH: u8 = 0x41;
pub const CC_PORTAMENTO_TIME: u8 = 0x05;
pub const CC_ALL_CONTROLLERS_OFF: u8 = 0x79;
pub const CC_ALL_NOTES_OFF: u8 = 0x7B;

/// Controllers used as switches are on from half scale up.
pub const U7_HALF_SCALE: u8 = 64;

/// The number of held-down notes remembered; notes beyond it are lost.
pub const HELD_DOWN_NOTE_BUFFER_LEN: usize = 32;

/// A MIDI message as the receiver reads it.
#[derive(Clone, Copy, PartialEq, Eq, Debug, Structural)]
pub enum MidiEvent {
    /// Channel, note, velocity.
    NoteOn(u8, u8, u8),
    /// Channel, note, velocity.
    NoteOff(u8, u8, u8),
    /// Channel, 14-bit value with the centre at 8192.
    PitchBend(u8, u16),
    /// Channel, controller, value.
    ControlChange(u8, u8, u8),
    /// Any other message, or none.
    Other,
}

impl MidiEvent {
    /// Channels take 4 bits, data values 7 bits, a pitch bend 14 bits.
    pub open spec fn wf(self) -> bool {
        match self {
            MidiEvent::NoteOn(c, n, v) => c <= 15 && n <= 127 && v <= 127,
            MidiEvent::NoteOff(c, n, v) => c <= 15 && n <= 127 && v <= 127,
            MidiEvent::PitchBend(c, v) => c <= 15 && v <= 16383,
            MidiEvent::ControlChange(c, k, v) => c <= 15 && k <= 127 && v <= 127,
            MidiEvent::Other => true,
        }
    }
}

/// Relies on `midi_convert::parse::MidiParser::new`: a parser waiting for a status byte.
#[verifier::external_body]
fn new_parser() -> MidiParser {
    MidiParser::new()
}

/// Relies on `midi_convert::parse::MidiParser::parse`, which returns a message when `byte`
/// completes one; `midi_types` keeps channels within 4 bits and data within 7 (14 for a
/// pitch bend).
#[verifier::external_body]
fn parse_byte(parser: &mut MidiParser, byte: u8) -> (r: MidiEvent)
    ensures
        r.wf(),
{
    match parser.parse(byte) {
        Some(MidiMessage::NoteOn(c, n, v)) => MidiEvent::NoteOn(c.into(), n.into(), v.into()),
        Some(MidiMessage::NoteOff(c, n, v)) => MidiEvent::NoteOff(c.into(), n.into(), v.into()),
        Some(MidiMessage::PitchBendChange(c, v)) => MidiEvent::PitchBend(c.into(), v.into()),
        Some(MidiMessage::ControlChange(c, k, v)) => MidiEvent::ControlChange(c.into(), k.into(), v.into()),
        _ => MidiEvent::Other,
    }
}

/// Retrigger mode: whether a note played before the last one is released raises a new gate.
#[derive(Clone, Copy, PartialEq, Eq, Debug, Structural)]
pub enum RetriggerMode {
    AllowRetrigger,
    NoRetrigger,
}

/// Note priority: which of several held notes sounds.
///
/// - `Last`: the one played most recently
/// - `High`: the highest
/// - `Low`: the lowest
#[derive(Clone, Copy, PartialEq, Eq, Debug, Structural)]
pub enum NotePriority {
    Last,
    High,
    Low,
}

/// A 7-bit value as a level where `UNIT` stands for 1.0, rounded down.
pub open spec fn unit_of_value7(v: nat) -> nat {
    v * UNIT as nat / 127
}

/// A 14-bit pitch bend value as a level where `BIPOLAR_ONE` stands for +1.0: the value less
/// 8192, over 8191 above the centre and over 8192 below it, rounded down.
pub open spec fn bend_of(raw: nat) -> int {
    let v = raw - 8192;
    if v > 0 {
        v * BIPOLAR_ONE / 8191
    } else {
        v * BIPOLAR_ONE / 8192
    }
}

/// The largest entry of `s`; zero for an empty `s`.
pub open spec fn max_of(s: Seq<u8>) -> u8
    decreases s.len(),
{
    if s.len() == 0 {
        0
    } else if s.len() == 1 {
        s[0]
    } else if s.last() > max_of(s.drop_last()) {
        s.last()
    } else {
        max_of(s.drop_last())
    }
}

/// The smallest entry of `s`; zero for an empty `s`.
pub open spec fn min_of(s: Seq<u8>) -> u8
    decreases s.len(),
{
    if s.len() == 0 {
        0
    } else if s.len() == 1 {
        s[0]
    } else if s.last() < min_of(s.drop_last()) {
        s.last()
    } else {
        min_of(s.drop_last())
    }
}

/// The note that sounds among the held notes `held` under priority `p`; zero when none is held.
pub open spec fn next_note(p: NotePriority, held: Seq<u8>) -> u8 {
    match p {
        NotePriority::Last => if held.len() == 0 {
            0
        } else {
            held.last()
        },
        NotePriority::High => max_of(held),
        NotePriority::Low => min_of(held),
    }
}

/// The contents of a MIDI receiver as mathematical values, but for its byte parser.
pub struct ReceiverView {
    pub channel: u8,
    pub note_num: u8,
    pub velocity: nat,
    pub pitch_bend: int,
    pub mod_wheel: nat,
    pub volume: nat,
    pub vcf_cutoff: nat,
    pub vcf_resonance: nat,
    pub portamento_time: nat,
    pub portamento_enabled: bool,
    pub sustain_enabled: bool,
    pub gate: bool,
    pub rising_gate: bool,
    pub falling_gate: bool,
    pub retrigger_mode: RetriggerMode,
    pub note_priority: NotePriority,
    pub held: Seq<u8>,
}

impl ReceiverView {
    pub open spec fn wf(self) -> bool {
        &&& self.channel <= 15
        &&& self.held.len() <= HELD_DOWN_NOTE_BUFFER_LEN
        &&& self.velocity <= UNIT
        &&& -BIPOLAR_ONE <= self.pitch_bend <= BIPOLAR_ONE
        &&& self.mod_wheel <= UNIT
        &&& self.volume <= UNIT
        &&& self.vcf_cutoff <= UNIT
        &&& self.vcf_resonance <= UNIT
        &&& self.portamento_time <= UNIT
    }

    /// After a note-on with a non-zero velocity: the note joins the held notes (if there is room),
    /// the sounding note is picked anew and its gate opens; a rising edge is raised when
    /// retriggering is allowed or no other note was held.
    pub open spec fn note_on(self, note: u8, velocity: u8) -> ReceiverView {
        let held = if self.held.len() < HELD_DOWN_NOTE_BUFFER_LEN {
            self.held.push(note)
        } else {
            self.held
        };
        ReceiverView {
            velocity: unit_of_value7(velocity as nat),
            held,
            note_num: next_note(self.note_priority, held),
            gate: true,
            falling_gate: false,
            rising_gate: if self.retrigger_mode == RetriggerMode::AllowRetrigger || held.len() == 1 {
                true
            } else {
                self.rising_gate
            },
            ..self
        }
    }

    /// After a note-off: the note leaves the held notes. With none left its gate closes with
    /// a falling edge; otherwise the sounding note is picked anew.
    pub open spec fn note_off(self, note: u8) -> ReceiverView {
        let held = without(self.held, note);
        if held.len() == 0 {
            ReceiverView { held, gate: false, rising_gate: false, falling_gate: true, ..self }
        } else {
            ReceiverView { held, note_num: next_note(self.note_priority, held), ..self }
        }
    }

    /// After resetting all controllers to their defaults.
    pub open spec fn controllers_reset(self) -> ReceiverView {
        ReceiverView {
            pitch_bend: 0,
            mod_wheel: 0,
            volume: 0,
            vcf_cutoff: 0,
            vcf_resonance: 0,
            portamento_time: 0,
            portamento_enabled: true,
            sustain_enabled: true,
            ..self
        }
    }

    /// After controller `cc` is set to `v`.
    pub open spec fn control_changed(self, cc: u8, v: u8) -> ReceiverView {
        if cc == CC_MOD_WHEEL {
            ReceiverView { mod_wheel: unit_of_value7(v as nat), ..self }
        } else if cc == CC_VOLUME {
            ReceiverView { volume: unit_of_value7(v as nat), ..self }
        } else if cc == CC_VCF_CUTOFF {
            ReceiverView { vcf_cutoff: unit_of_value7(v as nat), ..self }
        } else if cc == CC_VCF_RESONANCE {
            ReceiverView { vcf_resonance: unit_of_value7(v as nat), ..self }
        } else if cc == CC_PORTAMENTO_TIME {
            ReceiverView { portamento_time: unit_of_value7(v as nat), ..self }
        } else if cc == CC_PORTAMENTO_SWITCH {
            ReceiverView { portamento_enabled: U7_HALF_SCALE <= v, ..self }
        } else if cc == CC_SUSTAIN_SWITCH {
            ReceiverView { sustain_enabled: U7_HALF_SCALE <= v, ..self }
        } else if cc == CC_ALL_CONTROLLERS_OFF {
            self.controllers_reset()
        } else if cc == CC_ALL_NOTES_OFF {
            ReceiverView {
                held: Seq::<u8>::empty(),
                gate: false,
                rising_gate: false,
                falling_gate: false,
                ..self
            }
        } else {
            self
        }
    }

    /// After the message `e`; messages on other channels are ignored, and a note-on with zero
    /// velocity is a note-off.
    pub open spec fn handled(self, e: MidiEvent) -> ReceiverView {
        match e {
            MidiEvent::NoteOn(ch, note, vel) => if ch != self.channel {
                self
            } else if vel == 0 {
                self.note_off(note)
            } else {
                self.note_on(note, vel)
            },
            MidiEvent::NoteOff(ch, note, _) => if ch != self.channel {
                self
            } else {
                self.note_off(note)
            },
            MidiEvent::PitchBend(ch, v) => if ch != self.channel {
                self
            } else {
                ReceiverView { pitch_bend: bend_of(v as nat), ..self }
            },
            MidiEvent::ControlChange(ch, cc, v) => if ch != self.channel {
                self
            } else {
                self.control_changed(cc, v)
            },
            MidiEvent::Other => self,
        }
    }
}

/// `v * UNIT / 127`: a 7-bit value as a unipolar level.
fn value7_to_unit(v: u8) -> (r: u32)
    requires
        v <= 127,
    ensures
        r == unit_of_value7(v as nat),
        r <= UNIT,
{
    proof {
        assert(v as int * UNIT as int <= 127 * UNIT as int) by (nonlinear_arith)
            requires
                v <= 127,
        ;
        vstd::arithmetic::div_mod::lemma_div_is_ordered(v as int * UNIT as int, 127 * UNIT as int, 127);
    }
    ((v as u64 * UNIT as u64) / 127) as u32
}

/// A 14-bit pitch bend value as a bipolar level.
fn value14_to_bend(raw: u16) -> (r: i64)
    requires
        raw <= 16383,
    ensures
        r == bend_of(raw as nat),
        -BIPOLAR_ONE <= r <= BIPOLAR_ONE,
{
    let v: i64 = raw as i64 - 8192;
    if v > 0 {
        proof {
            assert(v * BIPOLAR_ONE <= 8191 * BIPOLAR_ONE) by (nonlinear_arith)
                requires
                    0 < v <= 8191,
            ;
            vstd::arithmetic::div_mod::lemma_div_is_ordered(v * BIPOLAR_ONE, 8191 * BIPOLAR_ONE, 8191);
            vstd::arithmetic::div_mod::lemma_div_pos_is_pos(v * BIPOLAR_ONE, 8191);
        }
        (v * BIPOLAR_ONE) / 8191
    } else {
        // exact: the divisor divides the scale
        proof {
            assert(v * BIPOLAR_ONE == (v * 262144) * 8192) by (nonlinear_arith);
            vstd::arithmetic::div_mod::lemma_div_multiples_vanish(v * 262144, 8192);
            vstd::arithmetic::mul::lemma_mul_is_commutative(v * 262144, 8192);
        }
        v * 262144
    }
}

/// A monophonic MIDI receiver.
pub struct MonoMidiReceiver {
    parser: MidiParser,
    // the MIDI channel listened to, in `[0, 15]`
    channel: u8,
    note_num: u8,
    velocity: u32,
    pitch_bend: i64,
    mod_wheel: u32,
    volume: u32,
    vcf_cutoff: u32,
    vcf_resonance: u32,
    portamento_time: u32,
    portamento_enabled: bool,
    sustain_enabled: bool,
    gate: bool,
    rising_gate: bool,
    falling_gate: bool,
    retrigger_mode: RetriggerMode,
    note_priority: NotePriority,
    // the notes held down; the sounding one is chosen among them by note priority
    held_down_notes: heapless::Vec<u8, 32>,
}

impl View for MonoMidiReceiver {
    type V = ReceiverView;

    closed spec fn view(&self) -> ReceiverView {
        ReceiverView {
            channel: self.channel,
            note_num: self.note_num,
            velocity: self.velocity as nat,
            pitch_bend: self.pitch_bend as int,
            mod_wheel: self.mod_wheel as nat,
            volume: self.volume as nat,
            vcf_cutoff: self.vcf_cutoff as nat,
            vcf_resonance: self.vcf_resonance as nat,
            portamento_time: self.portamento_time as nat,
            portamento_enabled: self.portamento_enabled,
            sustain_enabled: self.sustain_enabled,
            gate: self.gate,
            rising_gate: self.rising_gate,
            falling_gate: self.falling_gate,
            retrigger_mode: self.retrigger_mode,
            note_priority: self.note_priority,
            held: notes_held(self.held_down_notes),
        }
    }
}

impl MonoMidiReceiver {
    pub open spec fn wf(&self) -> bool {
        self@.wf()
    }

    /// `MonoMidiReceiver::new(c)` is a new receiver listening on the zero-based MIDI channel `c`,
    /// clamped to `[0, 15]`; all other channels are ignored.
    pub fn new(channel: u8) -> (r: MonoMidiReceiver)
        ensures
            r.wf(),
            r@ == (ReceiverView {
                channel: if channel > 15 {
                    15
                } else {
                    channel
                },
                note_num: 0,
                velocity: 0,
                pitch_bend: 0,
                mod_wheel: 0,
                volume: 0,
                vcf_cutoff: 0,
                vcf_resonance: 0,
                portamento_time: 0,
                portamento_enabled: true,
                sustain_enabled: true,
                gate: false,
                rising_gate: false,
                falling_gate: false,
                retrigger_mode: RetriggerMode::NoRetrigger,
                note_priority: NotePriority::Last,
                held: Seq::<u8>::empty(),
            }),
    {
        MonoMidiReceiver {
            parser: new_parser(),
            channel: if channel > 15 {
                15
            } else {
                channel
            },
            note_num: 0,
            velocity: 0,
            pitch_bend: 0,
            mod_wheel: 0,
            volume: 0,
            vcf_cutoff: 0,
            vcf_resonance: 0,
            portamento_time: 0,
            portamento_enabled: true,
            sustain_enabled: true,
            gate: false,
            rising_gate: false,
            falling_gate: false,
            retrigger_mode: RetriggerMode::NoRetrigger,
            note_priority: NotePriority::Last,
            held_down_notes: note_list_new(),
        }
    }

    /// `mr.parse(b)` feeds the next MIDI byte `b` to the receiver; when it completes a message,
    /// the receiver's state follows that message as `handle_event` describes.
    pub fn parse(&mut self, byte: u8)
        requires
            old(self).wf(),
        ensures
            final(self).wf(),
            exists|e: MidiEvent| e.wf() && final(self)@ == old(self)@.handled(e),
    {
        let event = parse_byte(&mut self.parser, byte);
        self.handle_event(event);
    }

    /// `mr.handle_event(e)` updates the receiver for the message `e`: messages on other channels
    /// are ignored, a note-on with zero velocity is a note-off.
    pub fn handle_event(&mut self, event: MidiEvent)
        requires
            old(self).wf(),
            event.wf(),
        ensures
            final(self).wf(),
            final(self)@ == old(self)@.handled(event),
    {
        match event {
            MidiEvent::NoteOn(ch, note, vel) => {
                if ch == self.channel {
                    // note-on with velocity of zero is interpreted as note-off
                    if vel == 0 {
                        self.handle_note_off(note);
                    } else {
                        self.handle_note_on(note, vel);
                    }
                }
            },
            MidiEvent::NoteOff(ch, note, _) => {
                if ch == self.channel {
                    self.handle_note_off(note);
                }
            },
            MidiEvent::PitchBend(ch, value) => {
                if ch == self.channel {
                    self.pitch_bend = value14_to_bend(value);
                }
            },
            MidiEvent::ControlChange(ch, cc, val7) => {
                if ch == self.channel {
                    if cc == CC_MOD_WHEEL {
                        self.mod_wheel = value7_to_unit(val7);
                    } else if cc == CC_VOLUME {
                        self.volume = value7_to_unit(val7);
                    } else if cc == CC_VCF_CUTOFF {
                        self.vcf_cutoff = value7_to_unit(val7);
                    } else if cc == CC_VCF_RESONANCE {
                        self.vcf_resonance = value7_to_unit(val7);
                    } else if cc == CC_PORTAMENTO_TIME {
                        self.portamento_time = value7_to_unit(val7);
                    } else if cc == CC_PORTAMENTO_SWITCH {
                        self.portamento_enabled = U7_HALF_SCALE <= val7;
                    } else if cc == CC_SUSTAIN_SWITCH {
                        self.sustain_enabled = U7_HALF_SCALE <= val7;
                    } else if cc == CC_ALL_CONTROLLERS_OFF {
                        self.reset_controllers();
                    } else if cc == CC_ALL_NOTES_OFF {
                        note_list_clear(&mut self.held_down_notes);
                        self.gate = false;
                        self.rising_gate = false;
                        self.falling_gate = false;
                    }
                }
            },
            MidiEvent::Other => {},
        }
    }

    /// Updates the state after a note-on message.
    fn handle_note_on(&mut self, note: u8, velocity: u8)
        requires
            old(self).wf(),
            velocity <= 127,
        ensures
            final(self).wf(),
            final(self)@ == old(self)@.note_on(note, velocity),
    {
        self.velocity = value7_to_unit(velocity);
        let _ = note_list_push(&mut self.held_down_notes, note);
        self.note_num = self.choose_next_note();
        self.gate = true;
        self.falling_gate = false;
        let num_held = note_list_as_slice(&self.held_down_notes).len();
        if self.retrigger_mode == RetriggerMode::AllowRetrigger || num_held == 1 {
            self.rising_gate = true;
        }
    }

    /// Updates the state after a note-off message.
    fn handle_note_off(&mut self, note: u8)
        requires
            old(self).wf(),
        ensures
            final(self).wf(),
            final(self)@ == old(self)@.note_off(note),
    {
        // the note is no longer held down
        proof {
            lemma_without(notes_held(self.held_down_notes), note);
        }
        note_list_remove(&mut self.held_down_notes, note);
        if note_list_as_slice(&self.held_down_notes).len() == 0 {
            self.gate = false;
            self.rising_gate = false;
            self.falling_gate = true;
        } else {
            self.note_num = self.choose_next_note();
        }
    }

    /// The note to sound among those held down, by note priority; zero when none is held.
    fn choose_next_note(&self) -> (r: u8)
        ensures
            r == next_note(self@.note_priority, self@.held),
    {
        let held = note_list_as_slice(&self.held_down_notes);
        let ghost s = held@;
        if held.len() == 0 {
            return 0;
        }
        match self.note_priority {
            NotePriority::Last => held[held.len() - 1],
            NotePriority::High => {
                let mut m: u8 = held[0];
                let mut i: usize = 1;
                assert(s.subrange(0, 1).drop_last() =~= Seq::<u8>::empty());
                while i < held.len()
                    invariant
                        s == held@,
                        1 <= i <= s.len(),
                        m == max_of(s.subrange(0, i as int)),
                    decreases s.len() - i,
                {
                    assert(s.subrange(0, i + 1).drop_last() =~= s.subrange(0, i as int));
                    if held[i] > m {
                        m = held[i];
                    }
                    i += 1;
                }
                assert(s.subrange(0, s.len() as int) =~= s);
                m
            },
            NotePriority::Low => {
                let mut m: u8 = held[0];
                let mut i: usize = 1;
                assert(s.subrange(0, 1).drop_last() =~= Seq::<u8>::empty());
                while i < held.len()
                    invariant
                        s == held@,
                        1 <= i <= s.len(),
                        m == min_of(s.subrange(0, i as int)),
                    decreases s.len() - i,
                {
                    assert(s.subrange(0, i + 1).drop_last() =~= s.subrange(0, i as int));
                    if held[i] < m {
                        m = held[i];
                    }
                    i += 1;
                }
                assert(s.subrange(0, s.len() as int) =~= s);
                m
            },
        }
    }

    /// `mr.note_num()` is the current note number.
    pub fn note_num(&self) -> (r: u8)
        ensures
            r == self@.note_num,
    {
        self.note_num
    }

    /// `mr.pitch_bend()` is the current pitch bend in `[-BIPOLAR_ONE, BIPOLAR_ONE]`.
    pub fn pitch_bend(&self) -> (r: i64)
        ensures
            r == self@.pitch_bend,
    {
        self.pitch_bend
    }

    /// `mr.velocity()` is the velocity of the last note-on, where `UNIT` stands for 1.0.
    pub fn velocity(&self) -> (r: u32)
        ensures
            r == self@.velocity,
    {
        self.velocity
    }

    /// `mr.mod_wheel()` is the mod-wheel level, where `UNIT` stands for 1.0.
    pub fn mod_wheel(&self) -> (r: u32)
        ensures
            r == self@.mod_wheel,
    {
        self.mod_wheel
    }

    /// `mr.volume()` is the volume level, where `UNIT` stands for 1.0.
    pub fn volume(&self) -> (r: u32)
        ensures
            r == self@.volume,
    {
        self.volume
    }

    /// `mr.vcf_cutoff()` is the filter cutoff level, where `UNIT` stands for 1.0.
    pub fn vcf_cutoff(&self) -> (r: u32)
        ensures
            r == self@.vcf_cutoff,
    {
        self.vcf_cutoff
    }

    /// `mr.vcf_resonance()` is the filter resonance level, where `UNIT` stands for 1.0.
    pub fn vcf_resonance(&self) -> (r: u32)
        ensures
            r == self@.vcf_resonance,
    {
        self.vcf_resonance
    }

    /// `mr.portamento_time()` is the portamento time level, where `UNIT` stands for 1.0.
    pub fn portamento_time(&self) -> (r: u32)
        ensures
            r == self@.portamento_time,
    {
        self.portamento_time
    }

    /// `mr.portamento_enabled()` is true if portamento is on.
    pub fn portamento_enabled(&self) -> (r: bool)
        ensures
            r == self@.portamento_enabled,
    {
        self.portamento_enabled
    }

    /// `mr.sustain_enabled()` is true if sustain is on.
    pub fn sustain_enabled(&self) -> (r: bool)
        ensures
            r == self@.sustain_enabled,
    {
        self.sustain_enabled
    }

    /// `mr.gate()` is true while any note is held.
    pub fn gate(&self) -> (r: bool)
        ensures
            r == self@.gate,
    {
        self.gate
    }

    /// `mr.rising_gate()` is true if a new note was triggered since the last read; reading
    /// clears it.
    pub fn rising_gate(&mut self) -> (r: bool)
        ensures
            r == old(self)@.rising_gate,
            final(self)@ == (ReceiverView { rising_gate: false, ..old(self)@ }),
    {
        if self.rising_gate {
            self.rising_gate = false;
            true
        } else {
            false
        }
    }

    /// `mr.falling_gate()` is true if all notes were released since the last read; reading
    /// clears it.
    pub fn falling_gate(&mut self) -> (r: bool)
        ensures
            r == old(self)@.falling_gate,
            final(self)@ == (ReceiverView { falling_gate: false, ..old(self)@ }),
    {
        if self.falling_gate {
            self.falling_gate = false;
            true
        } else {
            false
        }
    }

    /// `mr.set_retrigger_mode(m)` sets the retrigger mode.
    pub fn set_retrigger_mode(&mut self, mode: RetriggerMode)
        ensures
            final(self)@ == (ReceiverView { retrigger_mode: mode, ..old(self)@ }),
    {
        self.retrigger_mode = mode;
    }

    /// `mr.set_note_priority(p)` sets the note priority.
    pub fn set_note_priority(&mut self, priority: NotePriority)
        ensures
            final(self)@ == (ReceiverView { note_priority: priority, ..old(self)@ }),
    {
        self.note_priority = priority;
    }

    /// Resets all controllers to their defaults.
    fn reset_controllers(&mut self)
        ensures
            final(self)@ == old(self)@.controllers_reset(),
    {
        self.pitch_bend = 0;
        self.mod_wheel = 0;
        self.volume = 0;
        self.vcf_cutoff = 0;
        self.vcf_resonance = 0;
        self.portamento_time = 0;
        self.portamento_enabled = true;
        self.sustain_enabled = true;
    }
}

} // verus!
