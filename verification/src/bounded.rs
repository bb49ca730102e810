//! Fixed-capacity buffers of the `heapless` crate, with what this library
//! relies on of them stated over the items that they hold.
use vstd::prelude::*;
use crate::event::EventEntry;

verus! {

/// Declares `heapless::Vec`, a vector that lives inline with a capacity
/// fixed by its type.
#[verifier::external_type_specification]
#[verifier::external_body]
#[verifier::reject_recursive_types(T)]
pub struct ExHeaplessVec<T, const N: usize>(heapless::Vec<T, N>);

/// The octets held by a buffer of 34 octets (the longest index).
pub uninterp spec fn index_memory_bytes(v: heapless::Vec<u8, 34>) -> Seq<u8>;

/// The octets held by a buffer of 19 octets (the event memory).
pub uninterp spec fn event_memory_bytes(v: heapless::Vec<u8, 19>) -> Seq<u8>;

/// `heapless::Vec::new`: an empty buffer of 34 octets.
#[verifier::external_body]
pub(crate) fn index_memory_new() -> (r: heapless::Vec<u8, 34>)
    ensures
        index_memory_bytes(r) == Seq::<u8>::empty(),
{
    heapless::Vec::new()
}

/// `heapless::Vec::extend_from_slice` on a buffer of 34 octets: where the
/// octets fit, they are appended and `Ok` comes back; else the buffer is
/// left as it was and `Err` comes back.
#[verifier::external_body]
pub(crate) fn index_memory_extend(v: &mut heapless::Vec<u8, 34>, other: &[u8]) -> (r: Result<
    (),
    (),
>)
    ensures
        index_memory_bytes(*old(v)).len() + other@.len() <= 34 ==> r is Ok
            && index_memory_bytes(*final(v)) == index_memory_bytes(*old(v)) + other@,
        index_memory_bytes(*old(v)).len() + other@.len() > 34 ==> r is Err
            && index_memory_bytes(*final(v)) == index_memory_bytes(*old(v)),
{
    v.extend_from_slice(other)
}

/// `heapless::Vec::new`: an empty buffer of 19 octets.
#[verifier::external_body]
pub(crate) fn event_memory_new() -> (r: heapless::Vec<u8, 19>)
    ensures
        event_memory_bytes(r) == Seq::<u8>::empty(),
{
    heapless::Vec::new()
}

/// `heapless::Vec::push` on a buffer of 19 octets: where there is room the
/// octet is appended and `Ok` comes back; else the buffer is left as it was
/// and the octet comes back in `Err`.
#[verifier::external_body]
pub(crate) fn event_memory_push(v: &mut heapless::Vec<u8, 19>, b: u8) -> (r: Result<(), u8>)
    ensures
        event_memory_bytes(*old(v)).len() < 19 ==> r is Ok && event_memory_bytes(*final(v))
            == event_memory_bytes(*old(v)).push(b),
        event_memory_bytes(*old(v)).len() >= 19 ==> (r matches Err(x) && x == b
            && event_memory_bytes(*final(v)) == event_memory_bytes(*old(v))),
{
    v.push(b)
}

/// `heapless::Vec::clear` on a buffer of 19 octets: it holds nothing after.
#[verifier::external_body]
pub(crate) fn event_memory_clear(v: &mut heapless::Vec<u8, 19>)
    ensures
        event_memory_bytes(*final(v)) == Seq::<u8>::empty(),
{
    v.clear()
}

/// `heapless::Vec::as_slice` on a buffer of 19 octets: the octets it holds.
#[verifier::external_body]
pub(crate) fn event_memory_as_slice(v: &heapless::Vec<u8, 19>) -> (r: &[u8])
    ensures
        r@ == event_memory_bytes(*v),
{
    v.as_slice()
}


/// The events held by a list of at most six events.
pub uninterp spec fn event_entries_items(v: heapless::Vec<EventEntry, 6>) -> Seq<EventEntry>;

/// `heapless::Vec::new`: an empty list of at most six events.
#[verifier::external_body]
pub(crate) fn event_entries_new() -> (r: heapless::Vec<EventEntry, 6>)
    ensures
        event_entries_items(r) == Seq::<EventEntry>::empty(),
{
    heapless::Vec::new()
}

/// `heapless::Vec::extend_from_slice` on a list of at most six events:
/// where the events fit, copies of them are appended and `Ok` comes back;
/// else the list is left as it was and `Err` comes back.
#[verifier::external_body]
pub(crate) fn event_entries_extend(v: &mut heapless::Vec<EventEntry, 6>, other: &[EventEntry]) -> (r:
    Result<(), ()>)
    ensures
        event_entries_items(*old(v)).len() + other@.len() <= 6 ==> r is Ok
            && event_entries_items(*final(v)) == event_entries_items(*old(v)) + other@,
        event_entries_items(*old(v)).len() + other@.len() > 6 ==> r is Err
            && event_entries_items(*final(v)) == event_entries_items(*old(v)),
{
    v.extend_from_slice(other)
}

/// `heapless::Vec::as_slice` on a list of at most six events: the events
/// it holds.
#[verifier::external_body]
pub(crate) fn event_entries_as_slice(v: &heapless::Vec<EventEntry, 6>) -> (r: &[EventEntry])
    ensures
        r@ == event_entries_items(*v),
{
    v.as_slice()
}


/// The octets held by a buffer of 32 octets (input Process Data).
pub uninterp spec fn pd_input_bytes(v: heapless::Vec<u8, 32>) -> Seq<u8>;

/// `heapless::Vec::new`: an empty buffer of 32 octets.
#[verifier::external_body]
pub(crate) fn pd_input_new() -> (r: heapless::Vec<u8, 32>)
    ensures
        pd_input_bytes(r) == Seq::<u8>::empty(),
{
    heapless::Vec::new()
}

/// `heapless::Vec::extend_from_slice` on a buffer of 32 octets: where the
/// octets fit, they are appended and `Ok` comes back; else the buffer is
/// left as it was and `Err` comes back.
#[verifier::external_body]
pub(crate) fn pd_input_extend(v: &mut heapless::Vec<u8, 32>, other: &[u8]) -> (r: Result<(), ()>)
    ensures
        pd_input_bytes(*old(v)).len() + other@.len() <= 32 ==> r is Ok && pd_input_bytes(*final(v))
            == pd_input_bytes(*old(v)) + other@,
        pd_input_bytes(*old(v)).len() + other@.len() > 32 ==> r is Err && pd_input_bytes(*final(v))
            == pd_input_bytes(*old(v)),
{
    v.extend_from_slice(other)
}

/// `heapless::Vec::as_slice` on a buffer of 32 octets: the octets it holds.
#[verifier::external_body]
pub(crate) fn pd_input_as_slice(v: &heapless::Vec<u8, 32>) -> (r: &[u8])
    ensures
        r@ == pd_input_bytes(*v),
{
    v.as_slice()
}

} // verus!
