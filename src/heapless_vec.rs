//! The fixed-capacity vector of the `heapless` crate, as the library uses it.

use vstd::prelude::*;

verus! {

#[verifier::external_type_specification]
#[verifier::external_body]
#[verifier::reject_recursive_types(T)]
pub struct ExHeaplessVec<T, const N: usize>(heapless::Vec<T, N>);

/// What a list of up to three octave numbers holds, in order.
pub uninterp spec fn octaves_held(v: heapless::Vec<u32, 3>) -> Seq<u32>;

/// Relies on `heapless::Vec::new`: a new vector is empty.
#[verifier::external_body]
pub(crate) fn octave_list_new() -> (r: heapless::Vec<u32, 3>)
    ensures
        octaves_held(r) == Seq::<u32>::empty(),
{
    heapless::Vec::new()
}

/// Relies on `heapless::Vec::push`: with room left the item is appended and `Ok` returned;
/// a full vector is left as it was and the item handed back.
#[verifier::external_body]
pub(crate) fn octave_list_push(v: &mut heapless::Vec<u32, 3>, item: u32) -> (r: bool)
    ensures
        octaves_held(*old(v)).len() < 3 ==> r && octaves_held(*final(v)) == octaves_held(*old(v)).push(item),
        octaves_held(*old(v)).len() >= 3 ==> !r && octaves_held(*final(v)) == octaves_held(*old(v)),
{
    v.push(item).is_ok()
}

/// Relies on `heapless::Vec::as_slice`: the elements held, in order.
#[verifier::external_body]
pub(crate) fn octave_list_as_slice(v: &heapless::Vec<u32, 3>) -> (r: &[u32])
    ensures
        r@ == octaves_held(*v),
{
    v.as_slice()
}

/// What a buffer of up to 32 held-down note numbers holds, in order.
pub uninterp spec fn notes_held(v: heapless::Vec<u8, 32>) -> Seq<u8>;

/// `s` without any entry equal to `x`, the others kept in order.
pub open spec fn without(s: Seq<u8>, x: u8) -> Seq<u8>
    decreases s.len(),
{
    if s.len() == 0 {
        s
    } else if s.last() == x {
        without(s.drop_last(), x)
    } else {
        without(s.drop_last(), x).push(s.last())
    }
}

/// Removing entries never lengthens a sequence, and no entry equal to `x` is left.
pub proof fn lemma_without(s: Seq<u8>, x: u8)
    ensures
        without(s, x).len() <= s.len(),
        forall|i: int| 0 <= i < without(s, x).len() ==> without(s, x)[i] != x,
    decreases s.len(),
{
    if s.len() > 0 {
        lemma_without(s.drop_last(), x);
    }
}

/// The item a retained entry is tested against is kept when it differs from `note`.
pub fn is_other_note(n: &u8, note: u8) -> (r: bool)
    ensures
        r == (*n != note),
{
    *n != note
}

/// Relies on `heapless::Vec::new`: a new vector is empty.
#[verifier::external_body]
pub(crate) fn note_list_new() -> (r: heapless::Vec<u8, 32>)
    ensures
        notes_held(r) == Seq::<u8>::empty(),
{
    heapless::Vec::new()
}

/// Relies on `heapless::Vec::push`: with room left the item is appended and `Ok` returned;
/// a full vector is left as it was and the item handed back.
#[verifier::external_body]
pub(crate) fn note_list_push(v: &mut heapless::Vec<u8, 32>, item: u8) -> (r: bool)
    ensures
        notes_held(*old(v)).len() < 32 ==> r && notes_held(*final(v)) == notes_held(*old(v)).push(item),
        notes_held(*old(v)).len() >= 32 ==> !r && notes_held(*final(v)) == notes_held(*old(v)),
{
    v.push(item).is_ok()
}

/// Relies on `heapless::Vec::retain`: the entries for which the test holds stay, in order.
#[verifier::external_body]
pub(crate) fn note_list_remove(v: &mut heapless::Vec<u8, 32>, note: u8)
    ensures
        notes_held(*final(v)) == without(notes_held(*old(v)), note),
{
    v.retain(|n| is_other_note(n, note))
}

/// Relies on `heapless::Vec::clear`: nothing is left.
#[verifier::external_body]
pub(crate) fn note_list_clear(v: &mut heapless::Vec<u8, 32>)
    ensures
        notes_held(*final(v)) == Seq::<u8>::empty(),
{
    v.clear()
}

/// Relies on `heapless::Vec::as_slice`: the elements held, in order.
#[verifier::external_body]
pub(crate) fn note_list_as_slice(v: &heapless::Vec<u8, 32>) -> (r: &[u8])
    ensures
        r@ == notes_held(*v),
{
    v.as_slice()
}

} // verus!
