//! Sample channel: the bounded FIFO between the producer side and the
//! real-time callback.

use crate::audio::ring::{
    accepted, consumer_available, consumer_pop_slice, delivered, pop_after, producer_capacity,
    producer_pending, producer_push_slice, push_after, ring_capacity, ring_contents, ring_new,
    ring_pop_slice, ring_push_slice, ring_split, Ring, RingConsumer, RingProducer,
};
use vstd::prelude::*;

verus! {

/// Capacity of every sample channel, in samples: one second at 48 kHz.
pub const CAPACITY: usize = 48_000;

/// What an unsplit channel holding `held` holds after a push of `samples`:
/// the longest prefix of `samples` that fits is appended, the rest dropped.
pub open spec fn after_push(held: Seq<u32>, samples: Seq<u32>) -> Seq<u32> {
    held + samples.take(accepted(held.len(), CAPACITY as nat, samples.len()) as int)
}

/// What a pop into a buffer of `wanted` slots takes from an unsplit channel
/// holding `held`: its oldest samples, as many as there are or as fit.
pub open spec fn pop_output(held: Seq<u32>, wanted: nat) -> Seq<u32> {
    held.take(delivered(held.len(), wanted) as int)
}

/// What an unsplit channel holding `held` holds after a pop into a buffer of
/// `wanted` slots.
pub open spec fn after_pop(held: Seq<u32>, wanted: nat) -> Seq<u32> {
    held.skip(delivered(held.len(), wanted) as int)
}

/// A sample channel that has not been split: a bounded FIFO of samples with
/// a single owner. Its view is the sequence of unread samples, oldest first.
pub struct SampleChannel {
    ring: Ring,
}

impl View for SampleChannel {
    type V = Seq<u32>;

    closed spec fn view(&self) -> Seq<u32> {
        ring_contents(self.ring)
    }
}

impl SampleChannel {
    #[verifier::type_invariant]
    spec fn inv(self) -> bool {
        &&& ring_capacity(self.ring) == CAPACITY
        &&& ring_contents(self.ring).len() <= CAPACITY
    }

    /// An empty channel of `CAPACITY` samples.
    pub fn new() -> (channel: Self)
        ensures
            channel@ == Seq::<u32>::empty(),
    {
        SampleChannel { ring: ring_new(CAPACITY) }
    }

    /// Appends the longest prefix of `samples` that fits into the free
    /// capacity and returns its length; what does not fit is dropped.
    /// Unread samples are never overwritten.
    pub fn push(&mut self, samples: &[u32]) -> (count: usize)
        ensures
            count == accepted(old(self)@.len(), CAPACITY as nat, samples@.len()),
            final(self)@ == after_push(old(self)@, samples@),
            final(self)@.len() <= CAPACITY,
    {
        proof {
            use_type_invariant(&*self);
        }
        ring_push_slice(&mut self.ring, samples)
    }

    /// Moves the oldest unread samples into the front of `buffer`, as many
    /// as are available or as `buffer` has room for, and returns their
    /// number. The rest of `buffer` keeps its contents.
    pub fn pop(&mut self, buffer: &mut [u32]) -> (count: usize)
        ensures
            count == delivered(old(self)@.len(), old(buffer)@.len()),
            final(buffer)@ == pop_output(old(self)@, old(buffer)@.len()) + old(buffer)@.skip(
                count as int,
            ),
            final(self)@ == after_pop(old(self)@, old(buffer)@.len()),
            final(self)@.len() <= CAPACITY,
    {
        proof {
            use_type_invariant(&*self);
        }
        ring_pop_slice(&mut self.ring, buffer)
    }

    /// Splits the channel into its producer end and its consumer end. Both
    /// start from the samples that the channel holds.
    pub fn split(self) -> (ends: (ProducerEnd, ConsumerEnd))
        ensures
            ends.0.pending() == self@,
            ends.1.available() == self@,
    {
        proof {
            use_type_invariant(&self);
        }
        let (producer, consumer) = ring_split(self.ring);
        (ProducerEnd { end: producer }, ConsumerEnd { end: consumer })
    }
}

/// The producer end of a split sample channel. The consumer end may take
/// samples at any moment, so all that this end knows is which samples it has
/// pushed and not yet seen consumed: its pending samples, oldest first.
pub struct ProducerEnd {
    end: RingProducer,
}

impl ProducerEnd {
    #[verifier::type_invariant]
    spec fn inv(self) -> bool {
        &&& producer_capacity(self.end) == CAPACITY
        &&& producer_pending(self.end).len() <= CAPACITY
    }

    /// The samples pushed through this end that it has not yet seen
    /// consumed, oldest first.
    pub closed spec fn pending(&self) -> Seq<u32> {
        producer_pending(self.end)
    }

    /// Appends the longest prefix of `samples` that fits into the capacity
    /// that is free once the consumer's progress is taken into account, and
    /// returns its length; what does not fit is dropped.
    pub fn push(&mut self, samples: &[u32]) -> (count: usize)
        ensures
            push_outcome(old(self).pending(), samples@, final(self).pending(), count as nat),
            final(self).pending().len() <= CAPACITY,
    {
        proof {
            use_type_invariant(&*self);
        }
        producer_push_slice(&mut self.end, samples)
    }
}

/// The consumer end of a split sample channel. The producer end may add
/// samples at any moment, so all that this end knows is which samples it has
/// seen arrive and not yet taken: its available samples, oldest first.
pub struct ConsumerEnd {
    end: RingConsumer,
}

impl ConsumerEnd {
    /// The samples that this end has seen arrive and not yet taken, oldest
    /// first.
    pub closed spec fn available(&self) -> Seq<u32> {
        consumer_available(self.end)
    }

    /// Moves the oldest unread samples into the front of `buffer`, as many
    /// as are available once the producer's progress is taken into account
    /// or as `buffer` has room for, and returns their number. The rest of
    /// `buffer` keeps its contents.
    pub fn pop(&mut self, buffer: &mut [u32]) -> (count: usize)
        ensures
            pop_outcome(
                old(self).available(),
                old(buffer)@,
                final(self).available(),
                final(buffer)@,
                count as nat,
            ),
    {
        consumer_pop_slice(&mut self.end, buffer)
    }
}

/// A push of `samples` through a producer end with the pending samples
/// `before` may leave it with `after` and return `count`: the consumer has
/// meanwhile taken some number of the oldest pending samples, and of
/// `samples` the longest prefix that then fits has been appended.
pub open spec fn push_outcome(
    before: Seq<u32>,
    samples: Seq<u32>,
    after: Seq<u32>,
    count: nat,
) -> bool {
    exists|taken: int| push_after(before, CAPACITY as nat, samples, after, count, taken)
}

/// A pop through a consumer end with the available samples `before` into a
/// buffer holding `buffer` may leave the end with `after` and the buffer
/// with `filled`, and return `count`: the producer has meanwhile appended
/// some samples, the oldest `count` of all have moved to the front of the
/// buffer, and the rest of the buffer is untouched.
pub open spec fn pop_outcome(
    before: Seq<u32>,
    buffer: Seq<u32>,
    after: Seq<u32>,
    filled: Seq<u32>,
    count: nat,
) -> bool {
    exists|arrived: Seq<u32>| pop_after(before, buffer, after, filled, count, arrived)
}

} // verus!
