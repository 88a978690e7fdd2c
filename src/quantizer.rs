//! # Quantizer
//!
//! Quantizers force continuous inputs into discrete steps, to make in-tune outputs from any
//! input. This one uses 1 volt per octave scaling: each octave spans 1 volt and each semitone
//! 1/12 volt. Voltages are microvolts here. Notes may be allowed or forbidden, to play user
//! defined scales.

use crate::heapless_vec::{octave_list_as_slice, octave_list_new, octave_list_push};
use vstd::prelude::*;

verus! {

/// A note name within the octave, `C` (0) to `B` (11).
#[allow(non_camel_case_types)]
#[derive(Clone, Copy, PartialEq, Eq, Debug, Structural)]
pub enum Note {
    C,
    CSHARP,
    D,
    DSHARP,
    E,
    F,
    FSHARP,
    G,
    GSHARP,
    A,
    ASHARP,
    B,
}

impl View for Note {
    type V = nat;

    open spec fn view(&self) -> nat {
        match self {
            Note::C => 0,
            Note::CSHARP => 1,
            Note::D => 2,
            Note::DSHARP => 3,
            Note::E => 4,
            Note::F => 5,
            Note::FSHARP => 6,
            Note::G => 7,
            Note::GSHARP => 8,
            Note::A => 9,
            Note::ASHARP => 10,
            Note::B => 11,
        }
    }
}

/// `n` clamped to `[0, 11]`.
pub open spec fn clamp_note(n: nat) -> nat {
    if n <= 11 {
        n
    } else {
        11
    }
}

impl Note {
    /// `Note::new(n)` is the note `n`, clamped to `[0, 11]`.
    pub fn new(n: u8) -> (r: Note)
        ensures
            r@ == clamp_note(n as nat),
    {
        match n {
            0 => Note::C,
            1 => Note::CSHARP,
            2 => Note::D,
            3 => Note::DSHARP,
            4 => Note::E,
            5 => Note::F,
            6 => Note::FSHARP,
            7 => Note::G,
            8 => Note::GSHARP,
            9 => Note::A,
            10 => Note::ASHARP,
            _ => Note::B,
        }
    }

    /// The note's number within the octave.
    pub fn num(self) -> (r: u8)
        ensures
            r == self@,
    {
        match self {
            Note::C => 0,
            Note::CSHARP => 1,
            Note::D => 2,
            Note::DSHARP => 3,
            Note::E => 4,
            Note::F => 5,
            Note::FSHARP => 6,
            Note::G => 7,
            Note::GSHARP => 8,
            Note::A => 9,
            Note::ASHARP => 10,
            Note::B => 11,
        }
    }
}

/// The note numbered `n` within the octave, for `n <= 11`.
pub open spec fn note_of(n: nat) -> Note {
    if n == 0 {
        Note::C
    } else if n == 1 {
        Note::CSHARP
    } else if n == 2 {
        Note::D
    } else if n == 3 {
        Note::DSHARP
    } else if n == 4 {
        Note::E
    } else if n == 5 {
        Note::F
    } else if n == 6 {
        Note::FSHARP
    } else if n == 7 {
        Note::G
    } else if n == 8 {
        Note::GSHARP
    } else if n == 9 {
        Note::A
    } else if n == 10 {
        Note::ASHARP
    } else {
        Note::B
    }
}

impl From<u8> for Note {
    /// `Note::from(n)` is `Note::new(n)`.
    fn from(n: u8) -> Self {
        Note::new(n)
    }
}

impl vstd::std_specs::convert::FromSpecImpl<u8> for Note {
    open spec fn obeys_from_spec() -> bool {
        true
    }

    open spec fn from_spec(v: u8) -> Self {
        note_of(clamp_note(v as nat))
    }
}

impl From<Note> for u8 {
    /// `u8::from(n)` is the note's number within the octave.
    fn from(n: Note) -> Self {
        n.num()
    }
}

impl vstd::std_specs::convert::FromSpecImpl<Note> for u8 {
    open spec fn obeys_from_spec() -> bool {
        true
    }

    open spec fn from_spec(v: Note) -> Self {
        v@ as u8
    }
}

/// One octave, in microvolts.
pub const ONE_OCTAVE_IN_MICROVOLTS: u32 = 1_000_000;

/// One semitone, in microvolts, rounded down.
pub const HALF_STEP_IN_MICROVOLTS: u32 = 83_333;

/// The highest octave.
pub const MAX_OCTAVE: u32 = 10;

/// The highest input, in microvolts; higher inputs are clamped to it.
pub const V_MAX_MICROVOLTS: u32 = 10_000_000;

/// One semitone, in twelfths of a microvolt.
pub const SEMITONE_WIDTH_TWELFTHS: u32 = 1_000_000;

/// The hysteresis around the last conversion, a tenth of a semitone, in twelfths of a microvolt.
pub const HYSTERESIS_TWELFTHS: u32 = 100_000;

/// The bit field `bits` allows note `n`.
pub open spec fn allows(bits: u16, n: nat) -> bool {
    n < 16 && (bits >> (n as u16)) & 1u16 == 1u16
}

/// Some note of `notes` is `m`.
pub open spec fn listed(notes: Seq<Note>, m: nat) -> bool {
    exists|j: int| 0 <= j < notes.len() && notes[j]@ == m
}

/// `|a - b|`.
pub open spec fn abs_diff(a: int, b: int) -> nat {
    if a < b {
        (b - a) as nat
    } else {
        (a - b) as nat
    }
}

/// The octaves searched for the nearest note, in order: the input's own, then the one below
/// and the one above where they exist.
pub open spec fn search_octaves(octave: nat) -> Seq<nat> {
    seq![octave] + (if octave >= 1 {
        seq![(octave - 1) as nat]
    } else {
        Seq::<nat>::empty()
    }) + (if octave < MAX_OCTAVE {
        seq![octave + 1]
    } else {
        Seq::<nat>::empty()
    })
}

/// Note `n` of octave `octave`, in microvolts.
pub open spec fn candidate(octave: nat, n: nat) -> nat {
    n * HALF_STEP_IN_MICROVOLTS as nat + octave * ONE_OCTAVE_IN_MICROVOLTS as nat
}

/// The note number the search settles on, walking the twelve notes of each octave of `octs` in
/// order from position `k` on, with `nearest` the closest allowed candidate so far and
/// `smallest` its distance. An allowed candidate within a semitone ends the search; so does
/// one farther off than the closest so far.
pub open spec fn search_from(
    bits: u16,
    vin: nat,
    octs: Seq<nat>,
    k: nat,
    nearest: nat,
    smallest: nat,
) -> nat
    decreases 12 * octs.len() - k,
{
    if k >= 12 * octs.len() {
        nearest / HALF_STEP_IN_MICROVOLTS as nat
    } else {
        let c = candidate(octs[(k / 12) as int], k % 12);
        let d = abs_diff(vin as int, c as int);
        if !allows(bits, k % 12) {
            search_from(bits, vin, octs, k + 1, nearest, smallest)
        } else if d < HALF_STEP_IN_MICROVOLTS {
            c / HALF_STEP_IN_MICROVOLTS as nat
        } else if smallest < d {
            nearest / HALF_STEP_IN_MICROVOLTS as nat
        } else if d < smallest {
            search_from(bits, vin, octs, k + 1, c, d)
        } else {
            search_from(bits, vin, octs, k + 1, nearest, smallest)
        }
    }
}

/// The note number `vin` microvolts quantize to under the allowed notes `bits`.
pub open spec fn nearest_note(bits: u16, vin: nat) -> nat {
    search_from(bits, vin, search_octaves(vin / ONE_OCTAVE_IN_MICROVOLTS as nat), 0, 0, u32::MAX as nat)
}

/// `n` semitones, in microvolts, rounded down.
pub open spec fn stairstep_of(n: nat) -> nat {
    n * ONE_OCTAVE_IN_MICROVOLTS as nat / 12
}

/// The last conversion still holds for `vin` microvolts: its note is allowed and `vin` lies
/// within its semitone widened by the hysteresis on both sides.
pub open spec fn within_window(cached: Option<Conversion>, bits: u16, vin: nat) -> bool {
    match cached {
        Some(c) => {
            &&& allows(bits, clamp_note(c.note_num as nat))
            &&& c.note_num * SEMITONE_WIDTH_TWELFTHS - HYSTERESIS_TWELFTHS < 12 * vin
            &&& 12 * vin < c.note_num * SEMITONE_WIDTH_TWELFTHS + SEMITONE_WIDTH_TWELFTHS
                + HYSTERESIS_TWELFTHS
        },
        None => false,
    }
}

/// A quantizer conversion: the input split into a stairstep and the remainder.
#[derive(Clone, Copy, PartialEq, Eq, Debug, Structural)]
pub struct Conversion {
    /// The note number of the conversion.
    pub note_num: u8,
    /// The note as a voltage, in microvolts, rounded down.
    pub stairstep: u32,
    /// The input minus the stairstep, in microvolts.
    pub fraction: i32,
}

impl Conversion {
    /// `Conversion::default()` is note zero with nothing left over.
    pub fn default() -> (r: Conversion)
        ensures
            r == (Conversion { note_num: 0, stairstep: 0, fraction: 0 }),
    {
        Conversion { note_num: 0, stairstep: 0, fraction: 0 }
    }
}

/// A quantizer, which turns smooth inputs into stairsteps.
pub struct Quantizer {
    // the last conversion, for hysteresis
    cached_conversion: Option<Conversion>,
    // the 12 lowest bits stand for C, C#, D, ... B; a set bit allows the note
    allowed: u16,
}

/// Bit facts about setting, clearing and reading the bits of a note field.
proof fn lemma_bits(a: u16, n: u16, m: u16)
    requires
        n < 12,
        m < 16,
    ensures
        ((a | (1u16 << n)) >> m) & 1u16 == 1u16 <==> (m == n || (a >> m) & 1u16 == 1u16),
        ((a & !(1u16 << n)) >> m) & 1u16 == 1u16 <==> (m != n && (a >> m) & 1u16 == 1u16),
        a < 4096 ==> (a | (1u16 << n)) < 4096 && (a & !(1u16 << n)) < 4096,
        a < 4096 && m >= 12 ==> (a >> m) & 1u16 == 0,
        (a | (1u16 << n)) != 0,
{
    assert(((a | (1u16 << n)) >> m) & 1u16 == 1u16 <==> (m == n || (a >> m) & 1u16 == 1u16))
        by (bit_vector)
        requires
            n < 12,
            m < 16,
    ;
    assert(((a & !(1u16 << n)) >> m) & 1u16 == 1u16 <==> (m != n && (a >> m) & 1u16 == 1u16))
        by (bit_vector)
        requires
            n < 12,
            m < 16,
    ;
    assert(a < 4096 ==> (a | (1u16 << n)) < 4096 && (a & !(1u16 << n)) < 4096) by (bit_vector)
        requires
            n < 12,
    ;
    assert(a < 4096 && m >= 12 ==> (a >> m) & 1u16 == 0) by (bit_vector)
        requires
            m < 16,
    ;
    assert((a | (1u16 << n)) != 0) by (bit_vector)
        requires
            n < 12,
    ;
}

/// A non-zero field of twelve bits allows some note.
proof fn lemma_nonzero_allows_some(a: u16)
    requires
        0 < a < 4096,
    ensures
        exists|m: nat| m < 12 && allows(a, m),
{
    assert((a >> 0u16) & 1 == 1 || (a >> 1u16) & 1 == 1 || (a >> 2u16) & 1 == 1 || (a >> 3u16) & 1 == 1
        || (a >> 4u16) & 1 == 1 || (a >> 5u16) & 1 == 1 || (a >> 6u16) & 1 == 1 || (a >> 7u16) & 1
        == 1 || (a >> 8u16) & 1 == 1 || (a >> 9u16) & 1 == 1 || (a >> 10u16) & 1 == 1 || (a
        >> 11u16) & 1 == 1) by (bit_vector)
        requires
            0 < a < 4096,
    ;
    if allows(a, 0) {
    } else if allows(a, 1) {
    } else if allows(a, 2) {
    } else if allows(a, 3) {
    } else if allows(a, 4) {
    } else if allows(a, 5) {
    } else if allows(a, 6) {
    } else if allows(a, 7) {
    } else if allows(a, 8) {
    } else if allows(a, 9) {
    } else if allows(a, 10) {
    } else {
        assert(allows(a, 11));
    }
}

/// `|v1 - v2|`.
fn delta(v1: u32, v2: u32) -> (r: u32)
    ensures
        r == abs_diff(v1 as int, v2 as int),
{
    if v1 < v2 {
        v2 - v1
    } else {
        v1 - v2
    }
}

impl Quantizer {
    /// The allowed notes as a bit field.
    pub closed spec fn allowed_bits(&self) -> u16 {
        self.allowed
    }

    /// The last conversion, if any.
    pub closed spec fn cached(&self) -> Option<Conversion> {
        self.cached_conversion
    }

    /// At least one note is allowed, and only the twelve note bits are used.
    pub open spec fn wf(&self) -> bool {
        0 < self.allowed_bits() < 4096
    }

    /// `Quantizer::new()` is a new quantizer with all notes allowed.
    pub fn new() -> (r: Quantizer)
        ensures
            r.wf(),
            r.allowed_bits() == 0x0fff,
            r.cached() is None,
    {
        Quantizer { cached_conversion: None, allowed: 0x0fff }
    }

    /// `q.convert(v)` quantizes `v` microvolts. While `v` stays within the last conversion's
    /// window that conversion is returned again; otherwise `v`, clamped to `V_MAX_MICROVOLTS`,
    /// goes to its nearest allowed note.
    pub fn convert(&mut self, v_in: u32) -> (r: Conversion)
        requires
            old(self).wf(),
        ensures
            final(self).wf(),
            final(self).allowed_bits() == old(self).allowed_bits(),
            within_window(old(self).cached(), old(self).allowed_bits(), v_in as nat) ==> {
                &&& Some(r) == old(self).cached()
                &&& final(self).cached() == old(self).cached()
            },
            !within_window(old(self).cached(), old(self).allowed_bits(), v_in as nat) ==> {
                let v = if v_in > V_MAX_MICROVOLTS {
                    V_MAX_MICROVOLTS as nat
                } else {
                    v_in as nat
                };
                &&& r.note_num == nearest_note(old(self).allowed_bits(), v)
                &&& r.stairstep == stairstep_of(r.note_num as nat)
                &&& r.stairstep + r.fraction == v
                &&& final(self).cached() == Some(r)
            },
    {
        // return early if the input is within the window of the last conversion plus a little hysteresis
        if let Some(cached) = self.cached_conversion {
            if self.is_allowed(Note::new(cached.note_num)) {
                let low_bound: u64 = cached.note_num as u64 * SEMITONE_WIDTH_TWELFTHS as u64;
                let high_bound: u64 = low_bound + SEMITONE_WIDTH_TWELFTHS as u64 + HYSTERESIS_TWELFTHS as u64;
                let v12: u64 = 12 * v_in as u64;
                if low_bound < v12 + HYSTERESIS_TWELFTHS as u64 && v12 < high_bound {
                    return cached;
                }
            }
        }
        let v_in = if v_in > V_MAX_MICROVOLTS {
            V_MAX_MICROVOLTS
        } else {
            v_in
        };
        let note_num = self.find_nearest_note(v_in);
        let stairstep: u32 = ((note_num as u64 * ONE_OCTAVE_IN_MICROVOLTS as u64) / 12) as u32;
        let conversion = Conversion {
            note_num,
            stairstep,
            fraction: (v_in as i64 - stairstep as i64) as i32,
        };
        self.cached_conversion = Some(conversion);
        conversion
    }

    /// `q.find_nearest_note(v)` is the note number `v` microvolts quantize to.
    fn find_nearest_note(&self, vin_microvolts: u32) -> (r: u8)
        requires
            self.wf(),
            vin_microvolts <= V_MAX_MICROVOLTS,
        ensures
            r == nearest_note(self.allowed_bits(), vin_microvolts as nat),
            r <= 143,
    {
        let octave_num_of_vin = vin_microvolts / ONE_OCTAVE_IN_MICROVOLTS;
        let ghost octs = search_octaves(octave_num_of_vin as nat);
        proof {
            vstd::arithmetic::div_mod::lemma_div_is_ordered(vin_microvolts as int, 10_000_000, 1_000_000);
            assert(octave_num_of_vin <= 10);
            assert(forall|j: int| 0 <= j < octs.len() ==> octs[j] <= 11);
        }

        // the nearest note is in the input's octave or in the one below or above it, where they exist
        let mut octave_list = octave_list_new();
        let _ = octave_list_push(&mut octave_list, octave_num_of_vin);
        if 1 <= octave_num_of_vin {
            let _ = octave_list_push(&mut octave_list, octave_num_of_vin - 1);
        }
        if octave_num_of_vin < MAX_OCTAVE {
            let _ = octave_list_push(&mut octave_list, octave_num_of_vin + 1);
        }
        let octaves_to_search = octave_list_as_slice(&octave_list);
        assert(octaves_to_search@.len() == octs.len());
        assert(forall|j: int| 0 <= j < octs.len() ==> octaves_to_search@[j] == octs[j]);

        let mut nearest_note_so_far_microvolts: u32 = 0;
        let mut smallest_delta_so_far: u32 = u32::MAX;
        let mut i: usize = 0;
        while i < octaves_to_search.len()
            invariant
                self.wf(),
                vin_microvolts <= V_MAX_MICROVOLTS,
                octs == search_octaves(vin_microvolts as nat / ONE_OCTAVE_IN_MICROVOLTS as nat),
                octaves_to_search@.len() == octs.len(),
                forall|j: int| 0 <= j < octs.len() ==> octaves_to_search@[j] == octs[j],
                forall|j: int| 0 <= j < octs.len() ==> octs[j] <= 11,
                octs.len() <= 3,
                0 <= i <= octs.len(),
                nearest_note_so_far_microvolts <= 11 * ONE_OCTAVE_IN_MICROVOLTS + 11 * HALF_STEP_IN_MICROVOLTS,
                nearest_note(self.allowed_bits(), vin_microvolts as nat) == search_from(
                    self.allowed_bits(),
                    vin_microvolts as nat,
                    octs,
                    12 * i as nat,
                    nearest_note_so_far_microvolts as nat,
                    smallest_delta_so_far as nat,
                ),
            decreases octs.len() - i,
        {
            let octave = octaves_to_search[i];
            assert(octave == octaves_to_search@[i as int]);
            assert(octave == octs[i as int]);
            assert(octave <= 11);
            let mut n: u32 = 0;
            while n < 12
                invariant
                    self.wf(),
                    octs.len() <= 3,
                    0 <= i < octs.len(),
                    octave == octs[i as int],
                    octave <= 11,
                    0 <= n <= 12,
                    nearest_note_so_far_microvolts <= 11 * ONE_OCTAVE_IN_MICROVOLTS + 11 * HALF_STEP_IN_MICROVOLTS,
                    nearest_note(self.allowed_bits(), vin_microvolts as nat) == search_from(
                        self.allowed_bits(),
                        vin_microvolts as nat,
                        octs,
                        (12 * i + n) as nat,
                        nearest_note_so_far_microvolts as nat,
                        smallest_delta_so_far as nat,
                    ),
                decreases 12 - n,
            {
                let ghost k: nat = (12 * i + n) as nat;
                assert(k / 12 == i && k % 12 == n) by (nonlinear_arith)
                    requires
                        k == 12 * i + n,
                        0 <= n < 12,
                ;
                let this_note_is_enabled = (self.allowed >> (n as u16)) & 1u16 == 1u16;
                if this_note_is_enabled {
                    let candidate_note_microvolts = n * HALF_STEP_IN_MICROVOLTS + octave * ONE_OCTAVE_IN_MICROVOLTS;
                    let delta = delta(vin_microvolts, candidate_note_microvolts);

                    // a note within a semitone must be the one
                    if delta < HALF_STEP_IN_MICROVOLTS {
                        return (candidate_note_microvolts / HALF_STEP_IN_MICROVOLTS) as u8;
                    }
                    // a growing distance means the right note has been passed
                    if smallest_delta_so_far < delta {
                        return (nearest_note_so_far_microvolts / HALF_STEP_IN_MICROVOLTS) as u8;
                    }
                    if delta < smallest_delta_so_far {
                        smallest_delta_so_far = delta;
                        nearest_note_so_far_microvolts = candidate_note_microvolts;
                    }
                }
                n += 1;
            }
            i += 1;
        }
        (nearest_note_so_far_microvolts / HALF_STEP_IN_MICROVOLTS) as u8
    }

    /// `q.allow(ns)` allows the notes `ns`; notes already allowed stay allowed.
    pub fn allow(&mut self, notes: &[Note])
        requires
            old(self).wf(),
        ensures
            final(self).wf(),
            final(self).cached() == old(self).cached(),
            forall|m: nat|
                m < 12 ==> (#[trigger] allows(final(self).allowed_bits(), m) <==> (allows(
                    old(self).allowed_bits(),
                    m,
                ) || listed(notes@, m))),
    {
        let mut i: usize = 0;
        while i < notes.len()
            invariant
                0 < self.allowed < 4096,
                self.cached_conversion == old(self).cached_conversion,
                0 <= i <= notes.len(),
                forall|m: nat|
                    m < 12 ==> (#[trigger] allows(self.allowed, m) <==> (allows(old(self).allowed, m)
                        || exists|j: int| 0 <= j < i && notes@[j]@ == m)),
            decreases notes.len() - i,
        {
            let n = notes[i].num();
            proof {
                assert forall|m: nat| m < 12 implies (#[trigger] allows(self.allowed | (1u16 << (n as u16)), m)
                    <==> (allows(self.allowed, m) || m == n)) by {
                    lemma_bits(self.allowed, n as u16, m as u16);
                }
                lemma_bits(self.allowed, n as u16, 0);
            }
            self.allowed = self.allowed | (1u16 << (n as u16));
            i += 1;
            proof {
                assert forall|m: nat| m < 12 implies (#[trigger] allows(self.allowed, m) <==> (allows(
                    old(self).allowed,
                    m,
                ) || exists|j: int| 0 <= j < i && notes@[j]@ == m)) by {
                    if notes@[i - 1]@ == m {
                        assert(exists|j: int| 0 <= j < i && notes@[j]@ == m);
                    }
                    if exists|j: int| 0 <= j < i && notes@[j]@ == m {
                        let j = choose|j: int| 0 <= j < i && notes@[j]@ == m;
                        if j < i - 1 {
                            assert(exists|j: int| 0 <= j < i - 1 && notes@[j]@ == m);
                        }
                    }
                }
            }
        }
    }

    /// `q.forbid(ns)` forbids the notes `ns`; notes already forbidden stay forbidden. At least
    /// one note always stays allowed: where `ns` would forbid every note, the last note of `ns`
    /// stays allowed.
    pub fn forbid(&mut self, notes: &[Note])
        requires
            old(self).wf(),
        ensures
            final(self).wf(),
            final(self).cached() == old(self).cached(),
            forall|m: nat|
                m < 12 ==> (#[trigger] allows(final(self).allowed_bits(), m) <==> (
                (allows(old(self).allowed_bits(), m) && !listed(notes@, m)) || (forall|k: nat|
                    k < 12 ==> !(allows(old(self).allowed_bits(), k) && !listed(notes@, k)))
                    && notes@.len() > 0 && m == notes@.last()@)),
    {
        let mut i: usize = 0;
        while i < notes.len()
            invariant
                self.allowed < 4096,
                self.cached_conversion == old(self).cached_conversion,
                0 <= i <= notes.len(),
                i == 0 ==> self.allowed == old(self).allowed,
                forall|m: nat|
                    m < 12 ==> (#[trigger] allows(self.allowed, m) <==> (allows(old(self).allowed, m)
                        && !exists|j: int| 0 <= j < i && notes@[j]@ == m)),
            decreases notes.len() - i,
        {
            let n = notes[i].num();
            proof {
                assert forall|m: nat| m < 12 implies (#[trigger] allows(self.allowed & !(1u16 << (n as u16)), m)
                    <==> (allows(self.allowed, m) && m != n)) by {
                    lemma_bits(self.allowed, n as u16, m as u16);
                }
                lemma_bits(self.allowed, n as u16, 0);
            }
            self.allowed = self.allowed & !(1u16 << (n as u16));
            i += 1;
            proof {
                assert forall|m: nat| m < 12 implies (#[trigger] allows(self.allowed, m) <==> (allows(
                    old(self).allowed,
                    m,
                ) && !exists|j: int| 0 <= j < i && notes@[j]@ == m)) by {
                    if notes@[i - 1]@ == m {
                        assert(exists|j: int| 0 <= j < i && notes@[j]@ == m);
                    }
                    if exists|j: int| 0 <= j < i && notes@[j]@ == m {
                        let j = choose|j: int| 0 <= j < i && notes@[j]@ == m;
                        if j < i - 1 {
                            assert(exists|j: int| 0 <= j < i - 1 && notes@[j]@ == m);
                        }
                    }
                }
            }
        }
        if self.allowed == 0 {
            proof {
                if notes@.len() == 0 {
                    lemma_nonzero_allows_some(old(self).allowed);
                }
                assert forall|k: nat| k < 12 implies !(allows(old(self).allowed, k) && !listed(notes@, k)) by {
                    let kk = k as u16;
                    assert((0u16 >> kk) & 1u16 == 0u16) by (bit_vector);
                    assert(!allows(self.allowed, k));
                }
            }
            let last = notes[notes.len() - 1].num();
            proof {
                assert forall|m: nat| m < 12 implies (#[trigger] allows(self.allowed | (1u16 << (last as u16)), m)
                    <==> (allows(self.allowed, m) || m == last)) by {
                    lemma_bits(self.allowed, last as u16, m as u16);
                }
                lemma_bits(self.allowed, last as u16, 0);
            }
            self.allowed = self.allowed | (1u16 << (last as u16));
        } else {
            proof {
                lemma_nonzero_allows_some(self.allowed);
                let w = choose|m: nat| m < 12 && allows(self.allowed, m);
                assert(allows(old(self).allowed, w) && !listed(notes@, w));
            }
        }
    }

    /// `q.is_allowed(n)` is true iff note `n` is allowed.
    pub fn is_allowed(&self, note: Note) -> (r: bool)
        requires
            self.wf(),
        ensures
            r == allows(self.allowed_bits(), note@),
    {
        (self.allowed >> (note.num() as u16)) & 1u16 == 1u16
    }
}

impl Default for Quantizer {
    /// `Quantizer::default()` is a new quantizer with all notes allowed.
    fn default() -> (r: Quantizer)
        ensures
            r.wf(),
            r.allowed_bits() == 0x0fff,
            r.cached() is None,
    {
        Quantizer::new()
    }
}

} // verus!
