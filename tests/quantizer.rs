use synth_utils::quantizer::{Conversion, Note, Quantizer, V_MAX_MICROVOLTS};

/// One twelfth of an octave, in microvolts.
const SEMITONE_WIDTH: f64 = 1_000_000.0 / 12.0;
const HALF_SEMITONE_WIDTH: f64 = SEMITONE_WIDTH / 2.0;
const HYSTERESIS: f64 = SEMITONE_WIDTH * 0.1;

fn uv(v: f64) -> u32 {
    v as u32
}

const ALL_BUT_B: [Note; 11] = [
    Note::C,
    Note::CSHARP,
    Note::D,
    Note::DSHARP,
    Note::E,
    Note::F,
    Note::FSHARP,
    Note::G,
    Note::GSHARP,
    Note::A,
    Note::ASHARP,
];

const ALL_BUT_DSHARP: [Note; 11] = [
    Note::C,
    Note::CSHARP,
    Note::D,
    Note::E,
    Note::F,
    Note::FSHARP,
    Note::G,
    Note::GSHARP,
    Note::A,
    Note::ASHARP,
    Note::B,
];

#[test]
fn vin_0_is_note_num_zero_with_all_allowed() {
    let mut q = Quantizer::new();
    assert_eq!(q.convert(0).note_num, 0);
}

#[test]
fn vin_point_08333_is_note_num_1_with_all_allowed() {
    let mut q = Quantizer::new();
    assert_eq!(q.convert(uv(1_000_000. / 12.)).note_num, 1);
}

#[test]
fn vin_1_is_note_num_12_with_all_allowed() {
    let mut q = Quantizer::new();
    assert_eq!(q.convert(1_000_000).note_num, 12);
}

#[test]
fn vin_2_point_08333_is_note_num_25_with_all_allowed() {
    let mut q = Quantizer::new();
    assert_eq!(q.convert(uv(2_000_000. + 1_000_000. / 12.)).note_num, 25);
}

#[test]
#[allow(non_snake_case)]
fn when_C_is_forbidden_vin_0_is_1() {
    let mut q = Quantizer::new();
    q.forbid(&[Note::C]);
    assert_eq!(q.convert(0).note_num, 1);
}

#[test]
#[allow(non_snake_case)]
fn when_only_B_is_allowed_vin_0_is_11() {
    let mut q = Quantizer::new();
    q.forbid(&ALL_BUT_B);
    assert_eq!(q.convert(0).note_num, 11);
}

#[test]
#[allow(non_snake_case)]
fn when_only_Dsharp_is_allowed_vin_8_12ths_is_3() {
    let mut q = Quantizer::new();
    q.forbid(&ALL_BUT_DSHARP);
    // it picks the D# in octave zero
    assert_eq!(q.convert(uv(8. * 1_000_000. / 12.)).note_num, 3);
}

#[test]
#[allow(non_snake_case)]
fn when_only_Dsharp_is_allowed_vin_10_12ths_is_15() {
    let mut q = Quantizer::new();
    q.forbid(&ALL_BUT_DSHARP);
    // it picks the D# in octave 1
    assert_eq!(q.convert(uv(10. * 1_000_000. / 12.)).note_num, 15);
}

#[test]
fn can_not_forbid_every_note() {
    let mut q = Quantizer::new();
    // try to forbid every note
    let mut all = ALL_BUT_B.to_vec();
    all.push(Note::B);
    q.forbid(&all);
    // B is still left, because it is the last one we tried to forbid
    assert_eq!(q.convert(500_000).note_num, 11);
}

#[test]
fn hysteresis_widens_window() {
    let mut q = Quantizer::new();

    // register a conversion with note number 1
    assert_eq!(q.convert(uv(SEMITONE_WIDTH + HALF_SEMITONE_WIDTH * 0.99)).note_num, 1);

    // it is now a little harder to get back out of 1, due to hysteresis
    assert_eq!(q.convert(uv(SEMITONE_WIDTH - HYSTERESIS * 0.99)).note_num, 1);
    assert_eq!(q.convert(uv(SEMITONE_WIDTH + SEMITONE_WIDTH + HYSTERESIS * 0.99)).note_num, 1);

    // starting from scratch the same input values map to the below and above semitones
    let mut q = Quantizer::new();
    assert_eq!(q.convert(uv(SEMITONE_WIDTH - HYSTERESIS * 0.99)).note_num, 0);

    let mut q = Quantizer::new();
    assert_eq!(q.convert(uv(SEMITONE_WIDTH + SEMITONE_WIDTH + HYSTERESIS * 0.99)).note_num, 2);
}

#[test]
fn stairstep_and_fraction_add_back_to_the_input() {
    let mut q = Quantizer::new();
    // the search settles on the first allowed note within a semitone, walking upwards
    let c = q.convert(1_234_567);
    assert_eq!(c.note_num, 14);
    assert_eq!(c.stairstep, 1_166_666);
    assert_eq!(c.stairstep as i64 + c.fraction as i64, 1_234_567);
    assert_eq!(c.fraction, 67_901);
}

#[test]
fn input_is_clamped_to_the_top() {
    let mut q = Quantizer::new();
    let c = q.convert(20_000_000);
    assert_eq!(c.note_num, 120);
    assert_eq!(c.stairstep as i64 + c.fraction as i64, V_MAX_MICROVOLTS as i64);
}

#[test]
fn allow_and_is_allowed() {
    let mut q = Quantizer::default();
    q.forbid(&[Note::E, Note::F]);
    assert!(!q.is_allowed(Note::E));
    assert!(!q.is_allowed(Note::F));
    assert!(q.is_allowed(Note::G));
    q.allow(&[Note::F]);
    assert!(!q.is_allowed(Note::E));
    assert!(q.is_allowed(Note::F));
    // a forbidden note is skipped: exactly between D# and F, the lower one wins
    assert_eq!(q.convert(4 * 83_333).note_num, 3);
    let mut q2 = Quantizer::new();
    q2.forbid(&[Note::E]);
    assert_eq!(q2.convert(4 * 83_333 + 2).note_num, 5);
}

#[test]
fn forbid_nothing_changes_nothing() {
    let mut q = Quantizer::new();
    q.forbid(&[]);
    for n in 0..12u8 {
        assert!(q.is_allowed(Note::new(n)));
    }
}

#[test]
fn notes_clamp_and_convert() {
    assert_eq!(Note::new(3), Note::DSHARP);
    assert_eq!(Note::new(12), Note::B);
    assert_eq!(Note::from(200u8), Note::B);
    assert_eq!(u8::from(Note::GSHARP), 8);
    assert_eq!(Note::A.num(), 9);
}

#[test]
fn default_conversion_is_zero() {
    let c = Conversion::default();
    assert_eq!(c, Conversion { note_num: 0, stairstep: 0, fraction: 0 });
}
