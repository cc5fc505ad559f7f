//! Laws of the sample channel as a bounded FIFO. Those of the unsplit
//! channel are stated over the sequence of its unread samples; those of the
//! two ends over what each end knows of the channel.

use crate::audio::channel::{
    after_pop, after_push, pop_outcome, pop_output, push_outcome, CAPACITY,
};
use crate::audio::ring::{accepted, delivered};
use vstd::prelude::*;

verus! {

/// The samples of `batches`, one batch after the other.
pub open spec fn concatenated(batches: Seq<Seq<u32>>) -> Seq<u32>
    decreases batches.len(),
{
    if batches.len() == 0 {
        Seq::empty()
    } else {
        concatenated(batches.drop_last()) + batches.last()
    }
}

/// What a channel holding `held` holds after `batches` have been pushed,
/// one call each, in their order.
pub open spec fn after_pushes(held: Seq<u32>, batches: Seq<Seq<u32>>) -> Seq<u32>
    decreases batches.len(),
{
    if batches.len() == 0 {
        held
    } else {
        after_push(after_pushes(held, batches.drop_last()), batches.last())
    }
}

/// The sum of the buffer sizes `wanted`.
pub open spec fn total(wanted: Seq<nat>) -> nat
    decreases wanted.len(),
{
    if wanted.len() == 0 {
        0
    } else {
        total(wanted.drop_last()) + wanted.last()
    }
}

/// What a channel holding `held` holds after pops into buffers of the
/// sizes `wanted`, one call each, in their order.
pub open spec fn after_pops(held: Seq<u32>, wanted: Seq<nat>) -> Seq<u32>
    decreases wanted.len(),
{
    if wanted.len() == 0 {
        held
    } else {
        after_pop(after_pops(held, wanted.drop_last()), wanted.last())
    }
}

/// The samples that pops into buffers of the sizes `wanted` take from a
/// channel holding `held`, in the order in which they come out.
pub open spec fn pops_output(held: Seq<u32>, wanted: Seq<nat>) -> Seq<u32>
    decreases wanted.len(),
{
    if wanted.len() == 0 {
        Seq::empty()
    } else {
        pops_output(held, wanted.drop_last()) + pop_output(
            after_pops(held, wanted.drop_last()),
            wanted.last(),
        )
    }
}

/// Bounded drop: a push accepts the longest prefix of the input that fits.
/// No longer prefix fits, and where the input exceeds the free capacity
/// exactly the free capacity is accepted and fills the channel.
pub proof fn lemma_bounded_drop(held: Seq<u32>, samples: Seq<u32>)
    requires
        held.len() <= CAPACITY,
    ensures
        after_push(held, samples) == held + samples.take(
            accepted(held.len(), CAPACITY as nat, samples.len()) as int,
        ),
        accepted(held.len(), CAPACITY as nat, samples.len()) <= samples.len(),
        held.len() + accepted(held.len(), CAPACITY as nat, samples.len()) <= CAPACITY,
        forall|longer: int|
            0 <= longer <= samples.len() && (held + #[trigger] samples.take(longer)).len()
                <= CAPACITY ==> longer <= accepted(held.len(), CAPACITY as nat, samples.len()),
        samples.len() > CAPACITY - held.len() ==> accepted(
            held.len(),
            CAPACITY as nat,
            samples.len(),
        ) == CAPACITY - held.len() && after_push(held, samples).len() == CAPACITY,
{
}

/// Pushes whose total length fits into the free capacity lose nothing: the
/// channel then holds what it held, followed by all pushed samples in
/// submission order.
pub proof fn lemma_pushes_that_fit(held: Seq<u32>, batches: Seq<Seq<u32>>)
    requires
        held.len() + concatenated(batches).len() <= CAPACITY,
    ensures
        after_pushes(held, batches) == held + concatenated(batches),
    decreases batches.len(),
{
    if batches.len() > 0 {
        lemma_pushes_that_fit(held, batches.drop_last());
    }
}

/// Repeated pops take a prefix of what the channel holds, in order: as many
/// samples as the buffers have room for in total, or all there are.
pub proof fn lemma_pops_take_prefix(held: Seq<u32>, wanted: Seq<nat>)
    ensures
        pops_output(held, wanted) == held.take(delivered(held.len(), total(wanted)) as int),
        after_pops(held, wanted) == held.skip(delivered(held.len(), total(wanted)) as int),
    decreases wanted.len(),
{
    if wanted.len() > 0 {
        lemma_pops_take_prefix(held, wanted.drop_last());
    }
}

/// FIFO preservation: after pushes onto an empty channel whose total length
/// does not exceed the capacity, repeated pops whose buffers have room for
/// all of it yield exactly the pushed samples in submission order, and
/// leave the channel empty.
pub proof fn lemma_fifo_preservation(batches: Seq<Seq<u32>>, wanted: Seq<nat>)
    requires
        concatenated(batches).len() <= CAPACITY,
        total(wanted) >= concatenated(batches).len(),
    ensures
        pops_output(after_pushes(Seq::empty(), batches), wanted) == concatenated(batches),
        after_pops(after_pushes(Seq::empty(), batches), wanted) == Seq::<u32>::empty(),
{
    lemma_pushes_that_fit(Seq::empty(), batches);
    lemma_pops_take_prefix(concatenated(batches), wanted);
}

/// One use of an unsplit channel.
pub enum Transfer {
    /// A push of these samples.
    Push(Seq<u32>),
    /// A pop into a buffer of this many slots.
    Pop(nat),
}

/// What an empty channel holds after `transfers`, in their order.
pub open spec fn held_after(transfers: Seq<Transfer>) -> Seq<u32>
    decreases transfers.len(),
{
    if transfers.len() == 0 {
        Seq::empty()
    } else {
        match transfers.last() {
            Transfer::Push(samples) => after_push(held_after(transfers.drop_last()), samples),
            Transfer::Pop(wanted) => after_pop(held_after(transfers.drop_last()), wanted),
        }
    }
}

/// All samples that the pushes among `transfers` have got into a channel
/// that started empty, in submission order.
pub open spec fn accepted_by(transfers: Seq<Transfer>) -> Seq<u32>
    decreases transfers.len(),
{
    if transfers.len() == 0 {
        Seq::empty()
    } else {
        match transfers.last() {
            Transfer::Push(samples) => accepted_by(transfers.drop_last()) + samples.take(
                accepted(
                    held_after(transfers.drop_last()).len(),
                    CAPACITY as nat,
                    samples.len(),
                ) as int,
            ),
            Transfer::Pop(wanted) => accepted_by(transfers.drop_last()),
        }
    }
}

/// All samples that the pops among `transfers` have taken out of a channel
/// that started empty, in the order in which they came out.
pub open spec fn delivered_by(transfers: Seq<Transfer>) -> Seq<u32>
    decreases transfers.len(),
{
    if transfers.len() == 0 {
        Seq::empty()
    } else {
        match transfers.last() {
            Transfer::Push(samples) => delivered_by(transfers.drop_last()),
            Transfer::Pop(wanted) => delivered_by(transfers.drop_last()) + pop_output(
                held_after(transfers.drop_last()),
                wanted,
            ),
        }
    }
}

/// FIFO order: however pushes and pops alternate, the samples that have
/// come out, followed by those still held, are exactly the samples that
/// were accepted, in submission order. So what has been read is always a
/// prefix of what was accepted: nothing is reordered, duplicated or lost
/// once accepted, and the channel never holds more than its capacity.
pub proof fn lemma_fifo_order(transfers: Seq<Transfer>)
    ensures
        accepted_by(transfers) == delivered_by(transfers) + held_after(transfers),
        delivered_by(transfers) == accepted_by(transfers).take(
            delivered_by(transfers).len() as int,
        ),
        held_after(transfers).len() <= CAPACITY,
    decreases transfers.len(),
{
    if transfers.len() > 0 {
        lemma_fifo_order(transfers.drop_last());
    }
}

/// The samples that pushes of `batches` got into the channel, where the
/// push of `batches[i]` returned `counts[i]`: the accepted prefixes, in
/// submission order.
pub open spec fn accepted_of(batches: Seq<Seq<u32>>, counts: Seq<nat>) -> Seq<u32>
    decreases batches.len(),
{
    if batches.len() == 0 || counts.len() != batches.len() {
        Seq::empty()
    } else {
        accepted_of(batches.drop_last(), counts.drop_last()) + batches.last().take(
            counts.last() as int,
        )
    }
}

/// `pendings` are the pending samples of a producer end before, between
/// and after pushes of `batches`, one call each, that returned `counts`.
pub open spec fn pushes_through(
    pendings: Seq<Seq<u32>>,
    batches: Seq<Seq<u32>>,
    counts: Seq<nat>,
) -> bool {
    &&& pendings.len() == batches.len() + 1
    &&& counts.len() == batches.len()
    &&& forall|i: int|
        0 <= i < batches.len() ==> push_outcome(
            pendings[i],
            #[trigger] batches[i],
            pendings[i + 1],
            counts[i],
        )
}

/// Order on the producer side: whatever the consumer takes in between, what
/// a producer end has pending after any number of pushes is the tail of
/// what it had pending at first followed by all it has accepted since, in
/// submission order. The samples of one push stay together, behind those
/// of every earlier push.
pub proof fn lemma_producer_order(
    pendings: Seq<Seq<u32>>,
    batches: Seq<Seq<u32>>,
    counts: Seq<nat>,
)
    requires
        pushes_through(pendings, batches, counts),
    ensures
        pendings.last().is_suffix_of(pendings[0] + accepted_of(batches, counts)),
    decreases batches.len(),
{
    if batches.len() > 0 {
        let last = batches.len() - 1;
        let earlier = pendings.drop_last();
        assert forall|i: int| 0 <= i < last implies push_outcome(
            earlier[i],
            #[trigger] batches.drop_last()[i],
            earlier[i + 1],
            counts.drop_last()[i],
        ) by {
            assert(push_outcome(pendings[i], batches[i], pendings[i + 1], counts[i]));
        }
        lemma_producer_order(earlier, batches.drop_last(), counts.drop_last());
        assert(push_outcome(pendings[last], batches[last], pendings[last + 1], counts[last]));
    }
}

/// The samples that pops delivered, where the pop that left its buffer as
/// `filled[i]` returned `counts[i]`: the filled fronts, in the order of the
/// calls.
pub open spec fn delivered_of(filled: Seq<Seq<u32>>, counts: Seq<nat>) -> Seq<u32>
    decreases filled.len(),
{
    if filled.len() == 0 || counts.len() != filled.len() {
        Seq::empty()
    } else {
        delivered_of(filled.drop_last(), counts.drop_last()) + filled.last().take(
            counts.last() as int,
        )
    }
}

/// `availables` are the available samples of a consumer end before,
/// between and after pops, one call each, that turned `buffers` into
/// `filled` and returned `counts`.
pub open spec fn pops_through(
    availables: Seq<Seq<u32>>,
    buffers: Seq<Seq<u32>>,
    filled: Seq<Seq<u32>>,
    counts: Seq<nat>,
) -> bool {
    &&& availables.len() == buffers.len() + 1
    &&& filled.len() == buffers.len()
    &&& counts.len() == buffers.len()
    &&& forall|i: int|
        0 <= i < buffers.len() ==> pop_outcome(
            availables[i],
            #[trigger] buffers[i],
            availables[i + 1],
            filled[i],
            counts[i],
        )
}

/// Order on the consumer side: whatever the producer appends in between,
/// the samples that a consumer end has delivered, followed by those it
/// still has available, begin with the samples it had available at first.
/// What was there comes out first and in its order; nothing is skipped or
/// delivered twice.
pub proof fn lemma_consumer_order(
    availables: Seq<Seq<u32>>,
    buffers: Seq<Seq<u32>>,
    filled: Seq<Seq<u32>>,
    counts: Seq<nat>,
)
    requires
        pops_through(availables, buffers, filled, counts),
    ensures
        availables[0].is_prefix_of(delivered_of(filled, counts) + availables.last()),
    decreases buffers.len(),
{
    if buffers.len() > 0 {
        let last = buffers.len() - 1;
        let earlier = availables.drop_last();
        assert forall|i: int| 0 <= i < last implies pop_outcome(
            earlier[i],
            #[trigger] buffers.drop_last()[i],
            earlier[i + 1],
            filled.drop_last()[i],
            counts.drop_last()[i],
        ) by {
            assert(pop_outcome(
                availables[i],
                buffers[i],
                availables[i + 1],
                filled[i],
                counts[i],
            ));
        }
        lemma_consumer_order(earlier, buffers.drop_last(), filled.drop_last(), counts.drop_last());
        assert(pop_outcome(
            availables[last],
            buffers[last],
            availables[last + 1],
            filled[last],
            counts[last],
        ));
    }
}

} // verus!
