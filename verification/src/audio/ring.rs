//! The ring buffer of the `ringbuf` crate, as this library sees it.
//!
//! What this file says of `ringbuf` is assumed, not proved. The structs
//! hide `ringbuf`'s types. The spec functions without a body name what
//! those hold. Each executable function makes one call into `ringbuf`
//! under a contract read off that crate's source; the spec functions with
//! a body give those contracts their words. Everything else in the library
//! is verified against these contracts.
//!
//! An unsplit ring buffer has one owner, so a push or a pop finds exactly
//! what the last call left. The two ends of a split ring buffer work on
//! shared memory: each end keeps its own position and a copy of the other
//! end's, which it refreshes when it is used. Between two calls on one end
//! the other end may have moved on, so the contracts of the ends say what
//! holds for some progress of the other side.

use ringbuf::traits::{Consumer, Producer, Split};
use vstd::prelude::*;

verus! {

/// A `ringbuf::HeapRb<u32>`: a heap-allocated ring buffer that has not been
/// split, so whoever holds it is the only one to push and pop.
#[verifier::external_body]
pub struct Ring {
    inner: ringbuf::HeapRb<u32>,
}

/// A `ringbuf::HeapProd<u32>`: the producer end of a split ring buffer.
#[verifier::external_body]
pub struct RingProducer {
    inner: ringbuf::HeapProd<u32>,
}

/// A `ringbuf::HeapCons<u32>`: the consumer end of a split ring buffer.
#[verifier::external_body]
pub struct RingConsumer {
    inner: ringbuf::HeapCons<u32>,
}

/// The unread samples of a ring buffer, oldest first.
pub uninterp spec fn ring_contents(ring: Ring) -> Seq<u32>;

/// The number of samples the ring buffer was allocated for.
pub uninterp spec fn ring_capacity(ring: Ring) -> nat;

/// The samples between the read position that the producer end last
/// fetched and its own write position, oldest first: what the producer has
/// pushed and does not yet know to be consumed.
pub uninterp spec fn producer_pending(producer: RingProducer) -> Seq<u32>;

/// The capacity of the ring buffer behind a producer end.
pub uninterp spec fn producer_capacity(producer: RingProducer) -> nat;

/// The samples between the consumer end's own read position and the write
/// position that it last fetched, oldest first: what the consumer knows to
/// be waiting for it.
pub uninterp spec fn consumer_available(consumer: RingConsumer) -> Seq<u32>;

/// How many of `offered` samples a ring buffer of `capacity` slots takes
/// while it holds `held`: all of them, or as many as there are free slots.
pub open spec fn accepted(held: nat, capacity: nat, offered: nat) -> nat {
    let free = if held <= capacity {
        (capacity - held) as nat
    } else {
        0
    };
    if offered <= free {
        offered
    } else {
        free
    }
}

/// How many samples a pop into `wanted` slots yields while `held` are
/// waiting: the smaller of the two.
pub open spec fn delivered(held: nat, wanted: nat) -> nat {
    if wanted <= held {
        wanted
    } else {
        held
    }
}

/// A push of `samples` onto the samples `before` in a ring buffer of
/// `capacity` slots, after the `taken` oldest of them have been consumed,
/// leaves `after` and returns `count`: the longest prefix of `samples` that
/// fits is appended behind what is left.
pub open spec fn push_after(
    before: Seq<u32>,
    capacity: nat,
    samples: Seq<u32>,
    after: Seq<u32>,
    count: nat,
    taken: int,
) -> bool {
    &&& 0 <= taken <= before.len()
    &&& count == accepted((before.len() - taken) as nat, capacity, samples.len())
    &&& after == before.skip(taken) + samples.take(count as int)
}

/// A pop from the samples `before`, after the samples `arrived` have been
/// appended to them, into a buffer holding `buffer` leaves `after`, turns
/// the buffer into `filled` and returns `count`: the oldest samples, as many
/// as there are or as the buffer has room for, move to the front of the
/// buffer, and the rest of the buffer is untouched.
pub open spec fn pop_after(
    before: Seq<u32>,
    buffer: Seq<u32>,
    after: Seq<u32>,
    filled: Seq<u32>,
    count: nat,
    arrived: Seq<u32>,
) -> bool {
    &&& count == delivered((before + arrived).len(), buffer.len())
    &&& filled == (before + arrived).take(count as int) + buffer.skip(count as int)
    &&& after == (before + arrived).skip(count as int)
}

/// `ringbuf::HeapRb::<u32>::new`: allocates an empty ring buffer of exactly
/// `capacity` slots. The call panics on a capacity of zero and on one whose
/// byte size exceeds `isize::MAX`, so both are left out.
#[verifier::external_body]
pub(crate) fn ring_new(capacity: usize) -> (ring: Ring)
    requires
        0 < capacity,
        capacity * 4 <= isize::MAX,
    ensures
        ring_contents(ring) == Seq::<u32>::empty(),
        ring_capacity(ring) == capacity,
{
    Ring { inner: ringbuf::HeapRb::<u32>::new(capacity) }
}

/// `Producer::push_slice` on an unsplit ring buffer: copies the longest
/// prefix of `samples` that fits into the free slots behind the unread
/// samples and returns its length. Nobody else can have consumed anything.
/// The call does not panic.
#[verifier::external_body]
pub(crate) fn ring_push_slice(ring: &mut Ring, samples: &[u32]) -> (count: usize)
    ensures
        push_after(
            ring_contents(*old(ring)),
            ring_capacity(*old(ring)),
            samples@,
            ring_contents(*final(ring)),
            count as nat,
            0,
        ),
        ring_capacity(*final(ring)) == ring_capacity(*old(ring)),
    no_unwind
{
    ring.inner.push_slice(samples)
}

/// `Consumer::pop_slice` on an unsplit ring buffer: moves the oldest unread
/// samples into the front of `out`, as many as there are or as `out` has
/// room for, leaves the rest of `out` as it was and returns the number
/// moved. Nobody else can have appended anything. The call does not panic.
#[verifier::external_body]
pub(crate) fn ring_pop_slice(ring: &mut Ring, out: &mut [u32]) -> (count: usize)
    ensures
        pop_after(
            ring_contents(*old(ring)),
            old(out)@,
            ring_contents(*final(ring)),
            final(out)@,
            count as nat,
            Seq::<u32>::empty(),
        ),
        ring_capacity(*final(ring)) == ring_capacity(*old(ring)),
    no_unwind
{
    ring.inner.pop_slice(out)
}

/// `Split::split` on a `HeapRb`: moves the ring buffer behind a shared
/// pointer and hands out its two ends, each starting from the ring buffer's
/// read and write positions.
#[verifier::external_body]
pub(crate) fn ring_split(ring: Ring) -> (ends: (RingProducer, RingConsumer))
    ensures
        producer_pending(ends.0) == ring_contents(ring),
        producer_capacity(ends.0) == ring_capacity(ring),
        consumer_available(ends.1) == ring_contents(ring),
{
    let (producer, consumer) = ring.inner.split();
    (RingProducer { inner: producer }, RingConsumer { inner: consumer })
}

/// `Producer::push_slice` on a producer end. The end first fetches the
/// consumer's read position, which may have moved past any number of the
/// pending samples, then does what the unsplit ring buffer does. The call
/// does not panic.
#[verifier::external_body]
pub(crate) fn producer_push_slice(producer: &mut RingProducer, samples: &[u32]) -> (count: usize)
    ensures
        exists|taken: int|
            push_after(
                producer_pending(*old(producer)),
                producer_capacity(*old(producer)),
                samples@,
                producer_pending(*final(producer)),
                count as nat,
                taken,
            ),
        producer_capacity(*final(producer)) == producer_capacity(*old(producer)),
    no_unwind
{
    producer.inner.push_slice(samples)
}

/// `Consumer::pop_slice` on a consumer end. The end first fetches the
/// producer's write position, behind which any samples may have arrived
/// since the last call, then does what the unsplit ring buffer does. The
/// call does not panic.
#[verifier::external_body]
pub(crate) fn consumer_pop_slice(consumer: &mut RingConsumer, out: &mut [u32]) -> (count: usize)
    ensures
        exists|arrived: Seq<u32>|
            pop_after(
                consumer_available(*old(consumer)),
                old(out)@,
                consumer_available(*final(consumer)),
                final(out)@,
                count as nat,
                arrived,
            ),
    no_unwind
{
    consumer.inner.pop_slice(out)
}

} // verus!
