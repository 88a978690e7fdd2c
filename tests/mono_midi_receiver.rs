use synth_utils::mono_midi_receiver::{
    MidiEvent, MonoMidiReceiver, NotePriority, RetriggerMode, BIPOLAR_ONE,
};
use synth_utils::utils::UNIT;

#[test]
fn should_listen_on_correct_channel() {
    let mut mr = MonoMidiReceiver::new(1);
    mr.parse(0x91); // note-on on channel 1
    mr.parse(42); // note number 42
    mr.parse(127);

    assert_eq!(mr.note_num(), 42);
    assert_eq!(mr.velocity(), UNIT);
}

#[test]
fn should_not_list_on_wrong_channel() {
    let mut mr = MonoMidiReceiver::new(1);
    assert_eq!(mr.note_num(), 0);

    mr.parse(0x92); // wrong channel
    mr.parse(43); // try to change the note
    mr.parse(127);

    // note stays the same
    assert_eq!(mr.note_num(), 0);
}

#[test]
fn should_handle_running_status() {
    let mut mr = MonoMidiReceiver::new(1);
    mr.parse(0x91);
    mr.parse(42);
    mr.parse(127);
    // change the note with running status
    mr.parse(43);
    mr.parse(127);

    // note updates without a new note-on byte
    assert_eq!(mr.note_num(), 43);
}

#[test]
fn gate_goes_on_with_note_on() {
    let mut mr = MonoMidiReceiver::new(1);
    mr.parse(0x91);
    mr.parse(42);
    mr.parse(127);
    assert!(mr.gate());
}

#[test]
fn gate_goes_off_with_note_off() {
    let mut mr = MonoMidiReceiver::new(1);
    mr.parse(0x91);
    mr.parse(42);
    mr.parse(127);

    mr.parse(0x81); // note off
    mr.parse(42);
    mr.parse(0);
    assert!(!mr.gate());
}

#[test]
fn gate_stays_on_if_any_notes_left_on() {
    let mut mr = MonoMidiReceiver::new(1);
    mr.parse(0x91);
    mr.parse(42);
    mr.parse(127);
    mr.parse(43);
    mr.parse(127);
    mr.parse(44);
    mr.parse(127);

    mr.parse(0x81);
    mr.parse(42);
    mr.parse(0);
    mr.parse(44);
    mr.parse(0);

    // note 43 is still on
    assert!(mr.gate());
}

#[test]
fn gate_turns_off_when_all_notes_are_off() {
    let mut mr = MonoMidiReceiver::new(1);
    mr.parse(0x91);
    mr.parse(42);
    mr.parse(127);
    mr.parse(43);
    mr.parse(127);
    mr.parse(44);
    mr.parse(127);

    mr.parse(0x81);
    mr.parse(42);
    mr.parse(0);
    mr.parse(43);
    mr.parse(0);
    mr.parse(44);
    mr.parse(0);

    assert!(!mr.gate());
}

#[test]
fn channel_clamps_if_too_big() {
    let mut mr = MonoMidiReceiver::new(200); // 200 is way too big

    mr.parse(0x9F); // note on on channel 15
    mr.parse(11);
    mr.parse(127);

    assert_eq!(mr.note_num(), 11);
}

#[test]
fn velocity_of_0_is_treated_as_note_off() {
    let mut mr = MonoMidiReceiver::new(1);
    mr.parse(0x91);
    mr.parse(42);
    mr.parse(0); // velocity is zero
    assert!(!mr.gate());
}

#[test]
fn rising_gate_is_self_clearing() {
    let mut mr = MonoMidiReceiver::new(1);
    mr.parse(0x91);
    mr.parse(42);
    mr.parse(1); // velocity is greater than zero
    assert!(mr.rising_gate());
    // if we check the rising gate twice it will be cleared
    assert!(!mr.rising_gate());
}

#[test]
fn can_retrigger_when_retrigger_mode_is_on() {
    let mut mr = MonoMidiReceiver::new(1);

    mr.set_retrigger_mode(RetriggerMode::AllowRetrigger);

    mr.parse(0x91);
    mr.parse(42);
    mr.parse(1);
    assert!(mr.rising_gate());

    mr.parse(43); // new running status note-on
    mr.parse(1);
    assert!(mr.rising_gate());
}

#[test]
fn can_not_retrigger_when_retrigger_mode_is_off() {
    let mut mr = MonoMidiReceiver::new(1);

    mr.set_retrigger_mode(RetriggerMode::NoRetrigger);

    mr.parse(0x91);
    mr.parse(42);
    mr.parse(1);
    assert!(mr.rising_gate());

    mr.parse(43); // new running status note-on
    mr.parse(1);
    // we didn't let go of all notes first, so no new retrigger
    assert!(!mr.rising_gate());
}

#[test]
fn note_priority_last_gets_the_last_note() {
    let mut mr = MonoMidiReceiver::new(1);

    mr.set_note_priority(NotePriority::Last);

    mr.parse(0x91);
    mr.parse(42);
    mr.parse(1);
    mr.parse(43);
    mr.parse(1);
    mr.parse(44);
    mr.parse(1);
    assert_eq!(mr.note_num(), 44);
}

#[test]
fn note_priority_high_gets_the_highest_note() {
    let mut mr = MonoMidiReceiver::new(1);

    mr.set_note_priority(NotePriority::High);

    mr.parse(0x91);
    mr.parse(42);
    mr.parse(1);
    mr.parse(43);
    mr.parse(1);
    mr.parse(44);
    mr.parse(1);
    mr.parse(66); // this one is the highest note
    mr.parse(1);
    mr.parse(10);
    mr.parse(1);
    assert_eq!(mr.note_num(), 66);
}

#[test]
fn note_priority_low_gets_the_lowest_note() {
    let mut mr = MonoMidiReceiver::new(1);

    mr.set_note_priority(NotePriority::Low);

    mr.parse(0x91);
    mr.parse(42);
    mr.parse(1);
    mr.parse(5); // this one is the lowest note
    mr.parse(1);
    mr.parse(44);
    mr.parse(1);
    mr.parse(66);
    mr.parse(1);
    mr.parse(10);
    mr.parse(1);
    assert_eq!(mr.note_num(), 5);
}

#[test]
fn note_off_keeps_the_last_note() {
    let mut mr = MonoMidiReceiver::new(1);
    mr.parse(0x91);
    mr.parse(42);
    mr.parse(1);

    mr.parse(0x81); // turn the note off
    mr.parse(42);
    mr.parse(0);

    // but it's still retained as the last valid note
    assert_eq!(mr.note_num(), 42);
}

#[test]
fn falling_gate_after_last_note_off() {
    let mut mr = MonoMidiReceiver::new(0);
    mr.handle_event(MidiEvent::NoteOn(0, 60, 100));
    assert!(!mr.falling_gate());
    mr.handle_event(MidiEvent::NoteOff(0, 60, 0));
    assert!(mr.falling_gate());
    assert!(!mr.falling_gate());
}

#[test]
fn releasing_the_sounding_note_falls_back_to_a_held_one() {
    let mut mr = MonoMidiReceiver::new(0);
    mr.handle_event(MidiEvent::NoteOn(0, 60, 100));
    mr.handle_event(MidiEvent::NoteOn(0, 64, 100));
    assert_eq!(mr.note_num(), 64);
    mr.handle_event(MidiEvent::NoteOff(0, 64, 0));
    assert_eq!(mr.note_num(), 60);
    assert!(mr.gate());
}

#[test]
fn pitch_bend_scales_to_bipolar_range() {
    let mut mr = MonoMidiReceiver::new(2);
    // centre
    mr.parse(0xE2);
    mr.parse(0x00);
    mr.parse(0x40);
    assert_eq!(mr.pitch_bend(), 0);
    // full up: lsb then msb
    mr.parse(0x7F);
    mr.parse(0x7F);
    assert_eq!(mr.pitch_bend(), BIPOLAR_ONE);
    // full down
    mr.parse(0x00);
    mr.parse(0x00);
    assert_eq!(mr.pitch_bend(), -BIPOLAR_ONE);
    // a quarter down is exact
    mr.handle_event(MidiEvent::PitchBend(2, 8192 - 2048));
    assert_eq!(mr.pitch_bend(), -BIPOLAR_ONE / 4);
}

#[test]
fn controllers_update_and_reset() {
    let mut mr = MonoMidiReceiver::new(0);
    mr.parse(0xB0);
    mr.parse(0x01);
    mr.parse(127);
    assert_eq!(mr.mod_wheel(), UNIT);
    // running status
    mr.parse(0x07);
    mr.parse(0);
    assert_eq!(mr.volume(), 0);
    mr.handle_event(MidiEvent::ControlChange(0, 0x47, 127));
    mr.handle_event(MidiEvent::ControlChange(0, 0x4A, 127));
    mr.handle_event(MidiEvent::ControlChange(0, 0x05, 127));
    assert_eq!(mr.vcf_cutoff(), UNIT);
    assert_eq!(mr.vcf_resonance(), UNIT);
    assert_eq!(mr.portamento_time(), UNIT);
    mr.handle_event(MidiEvent::ControlChange(0, 0x41, 63));
    mr.handle_event(MidiEvent::ControlChange(0, 0x40, 63));
    assert!(!mr.portamento_enabled());
    assert!(!mr.sustain_enabled());
    mr.handle_event(MidiEvent::ControlChange(0, 0x41, 64));
    assert!(mr.portamento_enabled());
    mr.handle_event(MidiEvent::ControlChange(0, 0x79, 0));
    assert_eq!(mr.mod_wheel(), 0);
    assert_eq!(mr.vcf_cutoff(), 0);
    assert!(mr.sustain_enabled());
    // half scale, rounded down
    mr.handle_event(MidiEvent::ControlChange(0, 0x01, 64));
    assert_eq!(mr.mod_wheel(), (64u64 * UNIT as u64 / 127) as u32);
}

#[test]
fn all_notes_off_clears_the_gate() {
    let mut mr = MonoMidiReceiver::new(0);
    mr.handle_event(MidiEvent::NoteOn(0, 60, 100));
    mr.handle_event(MidiEvent::NoteOn(0, 62, 100));
    mr.handle_event(MidiEvent::ControlChange(0, 0x7B, 0));
    assert!(!mr.gate());
    assert!(!mr.rising_gate());
    assert!(!mr.falling_gate());
    // the next note raises a fresh gate even without retrigger
    mr.handle_event(MidiEvent::NoteOn(0, 64, 100));
    assert!(mr.rising_gate());
}

#[test]
fn other_messages_are_ignored() {
    let mut mr = MonoMidiReceiver::new(0);
    mr.handle_event(MidiEvent::Other);
    mr.handle_event(MidiEvent::NoteOn(3, 60, 100));
    mr.parse(0xC0); // program change
    mr.parse(5);
    assert!(!mr.gate());
    assert_eq!(mr.note_num(), 0);
}

#[test]
fn a_full_note_buffer_drops_new_notes() {
    let mut mr = MonoMidiReceiver::new(0);
    mr.set_note_priority(NotePriority::High);
    for n in 0..32u8 {
        mr.handle_event(MidiEvent::NoteOn(0, n, 100));
    }
    assert_eq!(mr.note_num(), 31);
    // the 33rd note is not remembered
    mr.handle_event(MidiEvent::NoteOn(0, 100, 100));
    assert_eq!(mr.note_num(), 31);
}
