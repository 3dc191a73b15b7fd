//! Fixed-capacity storage for note sequences and encoded chords. The
//! vectors come from the `heapless` crate, so they are declared here as
//! opaque types; `notes_of` and `sdata_of` name what each instantiation
//! holds, and small wrappers give the methods the library uses their
//! contracts over those names.

use vstd::prelude::*;

verus! {

#[verifier::external_type_specification]
#[verifier::external_body]
#[verifier::reject_recursive_types(T)]
pub struct ExHeaplessVec<T, const N: usize>(heapless::Vec<T, N>);

/// The notes a capacity-8 vector holds, front to back.
pub uninterp spec fn notes_of(v: heapless::Vec<u8, 8>) -> Seq<u8>;

/// The bytes a capacity-4 vector holds, front to back.
pub uninterp spec fn sdata_of(v: heapless::Vec<u8, 4>) -> Seq<u8>;

/// Relies on heapless::Vec::new: the new vector is empty.
#[verifier::external_body]
pub(crate) fn notes_new() -> (v: heapless::Vec<u8, 8>)
    ensures
        notes_of(v) == Seq::<u8>::empty(),
{
    heapless::Vec::new()
}

/// Relies on heapless::Vec::push: below capacity it appends the item
/// at the back and succeeds.
#[verifier::external_body]
pub(crate) fn notes_push(v: &mut heapless::Vec<u8, 8>, note: u8)
    requires
        notes_of(*old(v)).len() < 8,
    ensures
        notes_of(*final(v)) == notes_of(*old(v)).push(note),
{
    let _ = v.push(note);
}

/// Relies on heapless::Vec::remove: at index 0 it removes and returns
/// the front element, shifting the rest left.
#[verifier::external_body]
pub(crate) fn notes_remove_front(v: &mut heapless::Vec<u8, 8>) -> (r: u8)
    requires
        notes_of(*old(v)).len() > 0,
    ensures
        r == notes_of(*old(v))[0],
        notes_of(*final(v)) == notes_of(*old(v)).drop_first(),
{
    v.remove(0)
}

/// Relies on heapless::Vec::new: the new vector is empty.
#[verifier::external_body]
pub(crate) fn sdata_new() -> (v: heapless::Vec<u8, 4>)
    ensures
        sdata_of(v) == Seq::<u8>::empty(),
{
    heapless::Vec::new()
}

/// Relies on heapless::Vec::push: below capacity it appends the item
/// at the back and succeeds.
#[verifier::external_body]
pub(crate) fn sdata_push(v: &mut heapless::Vec<u8, 4>, byte: u8)
    requires
        sdata_of(*old(v)).len() < 4,
    ensures
        sdata_of(*final(v)) == sdata_of(*old(v)).push(byte),
{
    let _ = v.push(byte);
}

/// Relies on heapless::Vec::as_slice: it views the whole contents.
#[verifier::external_body]
pub(crate) fn sdata_as_slice(v: &heapless::Vec<u8, 4>) -> (r: &[u8])
    ensures
        r@ == sdata_of(*v),
{
    v.as_slice()
}

} // verus!
