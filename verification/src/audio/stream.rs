//! Stream callback: the real-time path that feeds the hardware buffer.

use crate::audio::channel::{pop_outcome, ConsumerEnd};
use crate::audio::ring::{delivered, pop_after};
use vstd::prelude::*;

verus! {

/// The sample value of silence: the bit pattern of `0.0`.
pub const SILENCE: u32 = 0;

/// `count` samples of silence.
pub open spec fn silence(count: nat) -> Seq<u32> {
    Seq::new(count, |i: int| SILENCE)
}

/// A run of the stream callback on a consumer end with the available
/// samples `before` and a hardware buffer of `wanted` slots leaves the end
/// with `after` and the buffer with `output`, and returns `count`, if the
/// producer has meanwhile appended the samples `arrived`: the oldest `count`
/// of all stand at the front of the buffer in their order, and every slot
/// behind them holds silence.
pub open spec fn callback_outcome_after(
    before: Seq<u32>,
    wanted: nat,
    after: Seq<u32>,
    output: Seq<u32>,
    count: nat,
    arrived: Seq<u32>,
) -> bool {
    &&& count == delivered((before + arrived).len(), wanted)
    &&& output == (before + arrived).take(count as int) + silence((wanted - count) as nat)
    &&& after == (before + arrived).skip(count as int)
}

/// A run of the stream callback may have this outcome: so it does for some
/// samples that the producer has meanwhile appended.
pub open spec fn callback_outcome(
    before: Seq<u32>,
    wanted: nat,
    after: Seq<u32>,
    output: Seq<u32>,
    count: nat,
) -> bool {
    exists|arrived: Seq<u32>| callback_outcome_after(before, wanted, after, output, count, arrived)
}

/// Fills the hardware buffer `output` for the audio driver: drains the
/// channel into it and, on underrun, fills the slots for which no sample
/// is available with silence. Returns the number of samples drained.
///
/// Neither blocks nor allocates.
pub fn stream_callback(consumer: &mut ConsumerEnd, output: &mut [u32]) -> (count: usize)
    ensures
        callback_outcome(
            old(consumer).available(),
            old(output)@.len(),
            final(consumer).available(),
            final(output)@,
            count as nat,
        ),
{
    let count = consumer.pop(output);
    let ghost drained = output@;
    let ghost arrived = choose|arrived: Seq<u32>|
        pop_after(
            old(consumer).available(),
            old(output)@,
            consumer.available(),
            drained,
            count as nat,
            arrived,
        );
    let ghost ready = old(consumer).available() + arrived;
    let mut i: usize = count;
    while i < output.len()
        invariant
            count <= i <= output@.len(),
            output@.len() == drained.len(),
            count <= ready.len(),
            forall|j: int| 0 <= j < count ==> output@[j] == ready[j],
            forall|j: int| count <= j < i ==> output@[j] == SILENCE,
        decreases output@.len() - i,
    {
        output[i] = SILENCE;
        i += 1;
    }
    proof {
        assert(output@ =~= ready.take(count as int) + silence((output@.len() - count) as nat));
        assert(callback_outcome_after(
            old(consumer).available(),
            old(output)@.len(),
            consumer.available(),
            output@,
            count as nat,
            arrived,
        ));
    }
    count
}

/// Underrun fill: where the hardware buffer is larger than the data that
/// is available, the drained samples stand at its front, every slot behind
/// them holds exactly silence, and the channel is left empty. With nothing
/// available the whole buffer is silence.
pub proof fn lemma_underrun_fill(
    before: Seq<u32>,
    wanted: nat,
    after: Seq<u32>,
    output: Seq<u32>,
    count: nat,
    arrived: Seq<u32>,
)
    requires
        callback_outcome_after(before, wanted, after, output, count, arrived),
        wanted > (before + arrived).len(),
    ensures
        output.len() == wanted,
        count == (before + arrived).len(),
        output.take(count as int) == before + arrived,
        forall|i: int| count <= i < wanted ==> output[i] == SILENCE,
        after == Seq::<u32>::empty(),
        (before + arrived).len() == 0 ==> output == silence(wanted),
{
}

/// The callback delivers what a pop into a buffer of silence delivers, so
/// the order in which a consumer end hands out samples holds for the
/// hardware buffers too.
pub proof fn lemma_callback_pops_into_silence(
    before: Seq<u32>,
    wanted: nat,
    after: Seq<u32>,
    output: Seq<u32>,
    count: nat,
)
    ensures
        callback_outcome(before, wanted, after, output, count) <==> pop_outcome(
            before,
            silence(wanted),
            after,
            output,
            count,
        ),
{
    if callback_outcome(before, wanted, after, output, count) {
        let arrived = choose|arrived: Seq<u32>|
            callback_outcome_after(before, wanted, after, output, count, arrived);
        assert(silence(wanted).skip(count as int) =~= silence((wanted - count) as nat));
        assert(pop_after(before, silence(wanted), after, output, count, arrived));
    }
    if pop_outcome(before, silence(wanted), after, output, count) {
        let arrived = choose|arrived: Seq<u32>|
            pop_after(before, silence(wanted), after, output, count, arrived);
        assert(silence(wanted).skip(count as int) =~= silence((wanted - count) as nat));
        assert(callback_outcome_after(before, wanted, after, output, count, arrived));
    }
}

} // verus!
