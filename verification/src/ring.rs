//! Trusted boundary around the heap-backed ring buffer from the
//! `ringbuffer` crate that the revolution window stores its bins in. Each
//! wrapper makes exactly one call into the crate; its contract states, over
//! the two names below, what that crate's source shows the call does.

use ringbuffer::AllocRingBuffer;
use ringbuffer::RingBuffer;
use vstd::prelude::*;

verus! {

#[verifier::external_type_specification]
#[verifier::external_body]
#[verifier::reject_recursive_types(T)]
pub struct ExAllocRingBuffer<T>(AllocRingBuffer<T>);

/// The elements the ring buffer currently holds, oldest first.
pub uninterp spec fn ring_contents(rb: AllocRingBuffer<u32>) -> Seq<u32>;

/// The fixed element capacity the ring buffer was created with.
pub uninterp spec fn ring_capacity(rb: AllocRingBuffer<u32>) -> usize;

/// Relies on `AllocRingBuffer::new`: an empty buffer with the given
/// capacity; the call panics only when the capacity is zero.
#[verifier::external_body]
pub(crate) fn ring_new(capacity: usize) -> (r: AllocRingBuffer<u32>)
    requires
        capacity > 0,
    ensures
        ring_contents(r) == Seq::<u32>::empty(),
        ring_capacity(r) == capacity,
{
    AllocRingBuffer::new(capacity)
}

/// Relies on `RingBuffer::fill_default`: every slot up to the capacity is
/// set to the element type's default value, zero here.
#[verifier::external_body]
pub(crate) fn ring_fill_zero(rb: &mut AllocRingBuffer<u32>)
    ensures
        ring_capacity(*final(rb)) == ring_capacity(*old(rb)),
        ring_contents(*final(rb)) == Seq::new(ring_capacity(*old(rb)) as nat, |i: int| 0u32),
{
    rb.fill_default()
}

/// Relies on `RingBuffer::len`: the number of elements currently held.
#[verifier::external_body]
pub(crate) fn ring_len(rb: &AllocRingBuffer<u32>) -> (r: usize)
    ensures
        r == ring_contents(*rb).len(),
{
    rb.len()
}

/// Relies on `RingBuffer::get`: on a non-empty buffer, the element at
/// `index` counted from the oldest, the index taken modulo the length; on
/// an empty buffer, nothing.
#[verifier::external_body]
pub(crate) fn ring_get(rb: &AllocRingBuffer<u32>, index: usize) -> (r: Option<u32>)
    ensures
        r == if ring_contents(*rb).len() == 0 {
            None::<u32>
        } else {
            Some(ring_contents(*rb)[index as int % ring_contents(*rb).len() as int])
        },
{
    rb.get(index).copied()
}

/// Relies on `RingBuffer::back`: the most recently pushed element, or
/// nothing when the buffer is empty.
#[verifier::external_body]
pub(crate) fn ring_back(rb: &AllocRingBuffer<u32>) -> (r: Option<u32>)
    ensures
        r == if ring_contents(*rb).len() == 0 {
            None::<u32>
        } else {
            Some(ring_contents(*rb).last())
        },
{
    rb.back().copied()
}

/// Relies on `RingBuffer::back_mut`: a reference to the most recently
/// pushed element, or nothing when the buffer is empty; the given value is
/// stored through it.
#[verifier::external_body]
pub(crate) fn ring_set_back(rb: &mut AllocRingBuffer<u32>, value: u32)
    ensures
        ring_capacity(*final(rb)) == ring_capacity(*old(rb)),
        ring_contents(*final(rb)) == if ring_contents(*old(rb)).len() == 0 {
            ring_contents(*old(rb))
        } else {
            ring_contents(*old(rb)).update(ring_contents(*old(rb)).len() - 1, value)
        },
{
    if let Some(slot) = rb.back_mut() {
        *slot = value;
    }
}

/// Relies on `RingBuffer::enqueue`: appends the given value as the newest
/// element; on a full buffer the oldest element leaves first and is
/// returned.
#[verifier::external_body]
pub(crate) fn ring_enqueue(rb: &mut AllocRingBuffer<u32>, value: u32) -> (r: Option<u32>)
    ensures
        ring_capacity(*final(rb)) == ring_capacity(*old(rb)),
        ring_contents(*old(rb)).len() < ring_capacity(*old(rb)) ==> ring_contents(*final(rb))
            == ring_contents(*old(rb)).push(value) && r is None,
        ring_contents(*old(rb)).len() >= ring_capacity(*old(rb)) ==> ring_contents(*final(rb))
            == ring_contents(*old(rb)).subrange(1, ring_contents(*old(rb)).len() as int).push(value)
            && r == Some(ring_contents(*old(rb))[0]),
{
    rb.enqueue(value)
}

} // verus!
