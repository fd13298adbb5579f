//! Lock-free single-producer/single-consumer staging ring for 8-byte response
//! payloads, backed by a queue from the heapless crate.
//!
//! At most one producer and one consumer may operate on an instance at a
//! time; that is a structural precondition of the backing queue, not checked
//! at runtime.

use crate::wire::u64_to_le8;
use vstd::bytes::{spec_u64_from_le_bytes, spec_u64_to_le_bytes, u64_from_le_bytes};
use vstd::prelude::*;

verus! {

/// Wrapper that keeps a value on its own cache line in spirit: the backing
/// queue's control words travel with it, away from unrelated producer or
/// consumer state.
pub struct CacheAligned<T>(pub T);

/// Slot count of the staging ring's backing buffer — a power of two.
pub const RING_SLOTS: usize = 1024;

/// How many payloads the ring can hold: the backing queue keeps one slot
/// free to tell a full ring from an empty one.
pub const RING_CAPACITY: usize = RING_SLOTS - 1;

/// Backing storage of the staging ring, opaque to verification;
/// `ring_contents` names what it holds.
#[verifier::external_body]
pub struct RingBuffer {
    inner: CacheAligned<heapless::spsc::Queue<u64, 1024>>,
}

/// The payloads the backing queue currently holds, oldest first.
pub uninterp spec fn ring_contents(b: RingBuffer) -> Seq<u64>;

/// Relies on heapless::spsc::Queue::new: a fresh queue is empty.
#[verifier::external_body]
fn ring_buffer_new() -> (b: RingBuffer)
    ensures
        ring_contents(b) == Seq::<u64>::empty(),
{
    RingBuffer { inner: CacheAligned(heapless::spsc::Queue::new()) }
}

/// Relies on heapless::spsc::Queue::enqueue: appends at the tail, or hands
/// the item back exactly when the queue already holds its capacity of
/// `RING_SLOTS - 1` items.
#[verifier::external_body]
fn ring_buffer_enqueue(b: &mut RingBuffer, value: u64) -> (accepted: bool)
    ensures
        ring_contents(*old(b)).len() < RING_CAPACITY ==> accepted && ring_contents(*final(b))
            == ring_contents(*old(b)).push(value),
        ring_contents(*old(b)).len() >= RING_CAPACITY ==> !accepted && ring_contents(*final(b))
            == ring_contents(*old(b)),
{
    match b.inner.0.enqueue(value) {
        Ok(()) => true,
        Err(_) => false,
    }
}

/// Relies on heapless::spsc::Queue::dequeue: removes and returns the oldest
/// item, or nothing exactly when the queue is empty.
#[verifier::external_body]
fn ring_buffer_dequeue(b: &mut RingBuffer) -> (item: Option<u64>)
    ensures
        ring_contents(*old(b)).len() == 0 ==> item is None && ring_contents(*final(b))
            == ring_contents(*old(b)),
        ring_contents(*old(b)).len() > 0 ==> item == Some(ring_contents(*old(b))[0])
            && ring_contents(*final(b)) == ring_contents(*old(b)).drop_first(),
{
    b.inner.0.dequeue()
}

/// Fixed-capacity staging ring carrying 8-byte response payloads from the
/// hot path to the transmit path. Never blocks and never allocates after
/// construction.
pub struct ResponseRing {
    buf: RingBuffer,
}

impl View for ResponseRing {
    type V = Seq<u64>;

    /// The staged payloads, oldest first, as the integers their little-endian
    /// bytes decode to.
    closed spec fn view(&self) -> Seq<u64> {
        ring_contents(self.buf)
    }
}

impl ResponseRing {
    /// A fresh, empty ring.
    pub fn new() -> (r: Self)
        ensures
            r@ == Seq::<u64>::empty(),
    {
        ResponseRing { buf: ring_buffer_new() }
    }

    /// Stage a payload. Fails by returning the rejected value exactly when
    /// the ring is full; otherwise the payload joins the tail.
    pub fn enqueue(&mut self, value: [u8; 8]) -> (result: Result<(), [u8; 8]>)
        ensures
            old(self)@.len() < RING_CAPACITY ==> result is Ok && final(self)@ == old(self)@.push(
                spec_u64_from_le_bytes(value@),
            ),
            old(self)@.len() >= RING_CAPACITY ==> result == Err::<(), [u8; 8]>(value)
                && final(self)@ == old(self)@,
    {
        let decoded = u64_from_le_bytes(value.as_slice());
        if ring_buffer_enqueue(&mut self.buf, decoded) {
            Ok(())
        } else {
            Err(value)
        }
    }

    /// Take the oldest staged payload, re-encoded as its 8 little-endian
    /// bytes, or nothing when the ring is empty.
    pub fn dequeue(&mut self) -> (result: Option<[u8; 8]>)
        ensures
            old(self)@.len() == 0 ==> result is None && final(self)@ == old(self)@,
            old(self)@.len() > 0 ==> final(self)@ == old(self)@.drop_first() && (result
                matches Some(bytes) && bytes@ == spec_u64_to_le_bytes(old(self)@[0])),
    {
        match ring_buffer_dequeue(&mut self.buf) {
            Some(v) => Some(u64_to_le8(v)),
            None => None,
        }
    }
}

impl Default for ResponseRing {
    /// Same as `new`: an empty ring.
    fn default() -> (r: Self)
        ensures
            r@ == Seq::<u64>::empty(),
    {
        ResponseRing::new()
    }
}

/// A staged payload drains back byte-identical: `enqueue` records the
/// integer the payload's bytes decode to, `dequeue` re-encodes it, and the
/// round trip through the ring's integer slots is lossless.
pub proof fn lemma_staged_payload_round_trip(value: [u8; 8])
    ensures
        spec_u64_to_le_bytes(spec_u64_from_le_bytes(value@)) == value@,
{
    vstd::bytes::lemma_auto_spec_u64_to_from_le_bytes();
    assert(value@.len() == 8);
}

} // verus!
