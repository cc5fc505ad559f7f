//! The audio engine.
//!
//! - [`config`]: the stream configuration and how it is negotiated.
//! - [`channel`]: the sample channel, whole and split into its two ends.
//! - [`fifo`]: the laws of the channel as a bounded FIFO.
//! - [`stream`]: the callback that feeds the hardware buffer.
//! - [`interleave`]: the expansion of mono samples into frames.
//! - [`ring`]: the ring buffer that carries the channel, and what is
//!   assumed of it.
//!
//! This file holds the engine handle, its construction and its lifecycle.

pub mod channel;
pub mod config;
pub mod fifo;
pub mod interleave;
pub mod ring;
pub mod stream;

use crate::audio::channel::{push_outcome, ConsumerEnd, ProducerEnd, SampleChannel, CAPACITY};
use crate::audio::config::{negotiable, negotiate, negotiated, StreamConfig, SupportedRange};
use crate::audio::interleave::interleaved;
use vstd::prelude::*;

verus! {

/// The engine handle: the negotiated stream configuration together with
/// the producer end of the sample channel that feeds the running stream.
pub struct Engine {
    config: StreamConfig,
    producer: ProducerEnd,
}

/// Playing `data` on the engine `before` may leave the engine `after`: the
/// configuration stays, and the interleaved form of `data` has been pushed
/// through the producer end.
pub open spec fn play_outcome(before: Engine, data: Seq<u32>, after: Engine) -> bool {
    &&& after.stream_config() == before.stream_config()
    &&& exists|count: nat|
        push_outcome(
            before.pending(),
            interleaved(data, before.stream_config().channels()),
            after.pending(),
            count,
        )
}

/// The device has offered `ranges`, `config` has been negotiated from them,
/// and the attempt to start a stream with `config` on the consumer end
/// `bound` of a fresh channel has ended in `running`.
pub open spec fn start_outcome<D, S>(
    device: D,
    start: S,
    ranges: Vec<SupportedRange>,
    config: StreamConfig,
    bound: ConsumerEnd,
    running: bool,
) -> bool where
    D: FnOnce() -> Option<Vec<SupportedRange>>,
    S: FnOnce(StreamConfig, ConsumerEnd) -> bool,
 {
    &&& device.ensures((), Some(ranges))
    &&& negotiated(ranges@, config)
    &&& bound.available() == Seq::<u32>::empty()
    &&& start.ensures((config, bound), running)
}

/// What the construction of the engine gives. There is an engine exactly
/// if the device offered configurations, one could be negotiated and the
/// stream was started with it; the engine then has that configuration and
/// nothing pending. There is none if the device offered nothing, if no
/// configuration could be negotiated, or if the stream did not start.
pub open spec fn constructed<D, S>(device: D, start: S, engine: Option<Engine>) -> bool where
    D: FnOnce() -> Option<Vec<SupportedRange>>,
    S: FnOnce(StreamConfig, ConsumerEnd) -> bool,
 {
    match engine {
        Some(engine) => {
            &&& engine.pending() == Seq::<u32>::empty()
            &&& exists|ranges: Vec<SupportedRange>, bound: ConsumerEnd|
                start_outcome(device, start, ranges, engine.stream_config(), bound, true)
        },
        None => {
            ||| device.ensures((), None)
            ||| exists|ranges: Vec<SupportedRange>|
                device.ensures((), Some(ranges)) && !negotiable(ranges@)
            ||| exists|ranges: Vec<SupportedRange>, config: StreamConfig, bound: ConsumerEnd|
                start_outcome(device, start, ranges, config, bound, false)
        },
    }
}

impl Engine {
    /// The stream configuration that was negotiated for this engine.
    pub closed spec fn stream_config(&self) -> StreamConfig {
        self.config
    }

    /// The samples that this engine has pushed and not yet seen consumed.
    pub closed spec fn pending(&self) -> Seq<u32> {
        self.producer.pending()
    }

    /// Constructs the engine. `device` looks for the default output device
    /// and gives the configurations it supports, or nothing if there is no
    /// device or it cannot be queried. `start` builds the hardware stream
    /// for a configuration, binds it to the consumer end of the sample
    /// channel and starts it, and tells whether the stream is running.
    ///
    /// The configuration is the first supported one at its maximum sample
    /// rate; the channel is freshly allocated and empty. Failure at any
    /// step gives no engine.
    pub fn new<D, S>(device: D, start: S) -> (engine: Option<Self>) where
        D: FnOnce() -> Option<Vec<SupportedRange>>,
        S: FnOnce(StreamConfig, ConsumerEnd) -> bool,

        requires
            device.requires(()),
            forall|config: StreamConfig, consumer: ConsumerEnd| start.requires((config, consumer)),
        ensures
            constructed(device, start, engine),
    {
        let ranges = match device() {
            Some(ranges) => ranges,
            None => { return None; },
        };
        let config = match negotiate(ranges.as_slice()) {
            Some(config) => config,
            None => { return None; },
        };
        let (producer, consumer) = SampleChannel::new().split();
        let ghost bound = consumer;
        if !start(config, consumer) {
            assert(start_outcome(device, start, ranges, config, bound, false));
            return None;
        }
        let engine = Engine { config, producer };
        assert(start_outcome(device, start, ranges, engine.stream_config(), bound, true));
        Some(engine)
    }

    /// The stream configuration that was negotiated for this engine.
    pub fn config(&self) -> (config: &StreamConfig)
        ensures
            *config == self.stream_config(),
    {
        &self.config
    }

    /// Expands mono samples into frames of this engine's channel count.
    pub fn interleave(&self, input: &[u32]) -> (out: Vec<u32>)
        requires
            input@.len() * self.stream_config().channels() <= usize::MAX,
        ensures
            out@ == interleaved(input@, self.stream_config().channels()),
    {
        crate::audio::interleave::interleave(input, self.config.channel_count())
    }

    /// Plays mono samples: interleaves them for the stream's channel count
    /// and pushes the result into the sample channel. What the channel has
    /// no room for is dropped.
    pub fn play_mono(&mut self, data: Vec<u32>)
        requires
            data@.len() * old(self).stream_config().channels() <= usize::MAX,
        ensures
            play_outcome(*old(self), data@, *final(self)),
            final(self).pending().len() <= CAPACITY,
    {
        let frames = self.interleave(data.as_slice());
        let count = self.producer.push(frames.as_slice());
        assert(push_outcome(
            old(self).pending(),
            interleaved(data@, old(self).stream_config().channels()),
            self.pending(),
            count as nat,
        ));
    }
}

/// The lifecycle of the engine handle. The handle is constructed on first
/// access; the result of that one construction, success or failure, is kept
/// for good.
pub enum EngineCell {
    /// Nothing has asked for the engine yet.
    Uninitialized,
    /// The engine is being constructed.
    Initializing,
    /// Construction succeeded: this is the engine.
    Ready(Engine),
    /// Construction failed: the engine is unavailable, and stays so.
    Failed,
}

/// The state that a finished construction leaves behind.
pub open spec fn settled(outcome: Option<Engine>) -> EngineCell {
    match outcome {
        Some(engine) => EngineCell::Ready(engine),
        None => EngineCell::Failed,
    }
}

/// The state after an access, where `outcome` is what the construction
/// gives if this access runs it: only the first access does.
pub open spec fn after_get(cell: EngineCell, outcome: Option<Engine>) -> EngineCell {
    match cell {
        EngineCell::Uninitialized => settled(outcome),
        _ => cell,
    }
}

impl EngineCell {
    /// The engine that an access in this state observes, if any.
    pub open spec fn handle(self) -> Option<Engine> {
        match self {
            EngineCell::Ready(engine) => Some(engine),
            _ => None,
        }
    }

    /// A cell whose engine has not been asked for yet.
    pub fn new() -> (cell: Self)
        ensures
            cell is Uninitialized,
    {
        EngineCell::Uninitialized
    }

    /// Plays mono samples on the engine if there is one. While the engine
    /// is unavailable, whether not yet constructed or failed for good, the
    /// call does nothing.
    pub fn play_mono(&mut self, data: Vec<u32>)
        requires
            *old(self) matches EngineCell::Ready(engine) ==> data@.len()
                * engine.stream_config().channels() <= usize::MAX,
        ensures
            cell_play_outcome(*old(self), data@, *final(self)),
    {
        match self {
            EngineCell::Ready(engine) => engine.play_mono(data),
            _ => {},
        }
    }
}

/// Playing `data` through the cell `before` may leave the cell `after`: a
/// ready engine plays and stays ready, and in every other state nothing
/// changes at all.
pub open spec fn cell_play_outcome(before: EngineCell, data: Seq<u32>, after: EngineCell) -> bool {
    match before {
        EngineCell::Ready(engine) => after matches EngineCell::Ready(next) && play_outcome(
            engine,
            data,
            next,
        ),
        _ => after == before,
    }
}

/// The state `now` is what an access to `before` leaves behind: the first
/// access has run the construction `init` and kept what it gave, every
/// other access has changed nothing.
pub open spec fn accessed<F: FnOnce() -> Option<Engine>>(
    before: EngineCell,
    init: F,
    now: EngineCell,
) -> bool {
    exists|outcome: Option<Engine>|
        {
            &&& before is Uninitialized ==> init.ensures((), outcome)
            &&& now == #[trigger] after_get(before, outcome)
        }
}

/// The lazy accessor of the engine handle. The first access runs `init`,
/// the construction of the engine, and keeps what it gives; every later
/// access leaves the cell as it is and never runs `init`. Returns the
/// engine if there is one.
pub fn get<F: FnOnce() -> Option<Engine>>(cell: &mut EngineCell, init: F) -> (handle: Option<
    &mut Engine,
>)
    requires
        init.requires(()),
    ensures
        match handle {
            Some(engine) => {
                &&& accessed(*old(cell), init, EngineCell::Ready(*engine))
                &&& *final(cell) == EngineCell::Ready(*final(engine))
            },
            None => {
                &&& accessed(*old(cell), init, *final(cell))
                &&& !(*final(cell) is Ready)
            },
        },
{
    if let EngineCell::Uninitialized = cell {
        *cell = EngineCell::Initializing;
        let outcome = init();
        let ghost kept = outcome;
        *cell = match outcome {
            Some(engine) => EngineCell::Ready(engine),
            None => EngineCell::Failed,
        };
        assert(*cell == after_get(*old(cell), kept));
    } else {
        assert(*cell == after_get(*old(cell), None));
    }
    match cell {
        EngineCell::Ready(engine) => Some(engine),
        _ => None,
    }
}

/// The state after one access for each entry of `outcomes`, in their
/// order, where an entry is what the construction gives if that access
/// runs it.
pub open spec fn after_gets(cell: EngineCell, outcomes: Seq<Option<Engine>>) -> EngineCell
    decreases outcomes.len(),
{
    if outcomes.len() == 0 {
        cell
    } else {
        after_get(after_gets(cell, outcomes.drop_last()), outcomes.last())
    }
}

/// The number of accesses among those that run the construction.
pub open spec fn constructions(cell: EngineCell, outcomes: Seq<Option<Engine>>) -> nat
    decreases outcomes.len(),
{
    if outcomes.len() == 0 {
        0
    } else if after_gets(cell, outcomes.drop_last()) is Uninitialized {
        constructions(cell, outcomes.drop_last()) + 1
    } else {
        constructions(cell, outcomes.drop_last())
    }
}

/// Once the engine has been asked for, no access changes the cell or runs
/// the construction again.
pub proof fn lemma_settled_for_good(cell: EngineCell, outcomes: Seq<Option<Engine>>)
    requires
        !(cell is Uninitialized),
    ensures
        after_gets(cell, outcomes) == cell,
        constructions(cell, outcomes) == 0,
    decreases outcomes.len(),
{
    if outcomes.len() > 0 {
        lemma_settled_for_good(cell, outcomes.drop_last());
    }
}

/// Idempotent initialization: however often the engine is asked for, the
/// construction runs exactly once, at the first access, and every access
/// observes what that one construction gave: the same engine, or its
/// absence.
pub proof fn lemma_constructed_once(outcomes: Seq<Option<Engine>>)
    requires
        outcomes.len() >= 1,
    ensures
        constructions(EngineCell::Uninitialized, outcomes) == 1,
        after_gets(EngineCell::Uninitialized, outcomes) == settled(outcomes[0]),
        forall|n: int|
            1 <= n <= outcomes.len() ==> (#[trigger] after_gets(
                EngineCell::Uninitialized,
                outcomes.take(n),
            )).handle() == outcomes[0],
    decreases outcomes.len(),
{
    let start = EngineCell::Uninitialized;
    let earlier = outcomes.drop_last();
    if earlier.len() > 0 {
        lemma_constructed_once(earlier);
    } else {
        assert(after_gets(start, earlier) == start);
        assert(constructions(start, earlier) == 0);
    }
    assert forall|n: int| 1 <= n <= outcomes.len() implies (#[trigger] after_gets(
        start,
        outcomes.take(n),
    )).handle() == outcomes[0] by {
        if n == outcomes.len() {
            assert(outcomes.take(n) =~= outcomes);
        } else {
            assert(outcomes.take(n) =~= earlier.take(n));
        }
    }
}

/// The cell `after` is what one use of the cell `before` may leave behind:
/// an access, or a call to play.
pub open spec fn used(before: EngineCell, after: EngineCell) -> bool {
    ||| exists|outcome: Option<Engine>| after == #[trigger] after_get(before, outcome)
    ||| exists|data: Seq<u32>| #[trigger] cell_play_outcome(before, data, after)
}

/// No-op on failure: once the construction has failed, the cell stays
/// failed through any number of accesses and calls to play, and none of
/// them changes anything.
pub proof fn lemma_failed_for_good(states: Seq<EngineCell>)
    requires
        states.len() >= 1,
        states[0] is Failed,
        forall|i: int| 1 <= i < states.len() ==> used(states[i - 1], #[trigger] states[i]),
    ensures
        forall|i: int| 0 <= i < states.len() ==> #[trigger] states[i] == EngineCell::Failed,
    decreases states.len(),
{
    if states.len() > 1 {
        let earlier = states.drop_last();
        let last = states.len() - 1;
        assert forall|i: int| 1 <= i < earlier.len() implies used(
            earlier[i - 1],
            #[trigger] earlier[i],
        ) by {
            assert(used(states[i - 1], states[i]));
        }
        lemma_failed_for_good(earlier);
        assert(earlier[last - 1] == EngineCell::Failed);
        assert forall|i: int| 0 <= i < states.len() implies #[trigger] states[i]
            == EngineCell::Failed by {
            if i < last {
                assert(states[i] == earlier[i]);
            }
        }
    }
}

} // verus!
