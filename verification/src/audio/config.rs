//! Device negotiator: the stream configurations a device offers, and the
//! one the engine settles on.

use vstd::prelude::*;

verus! {

/// The type of sample that a device expects.
#[derive(Clone, Copy, Debug, PartialEq, Eq, Structural)]
pub enum SampleFormat {
    I8,
    I16,
    I32,
    I64,
    U8,
    U16,
    U32,
    U64,
    F32,
    F64,
    /// A format that this library has no name for.
    Other,
}

/// One entry of a device's list of supported output configurations: a
/// channel count and sample format together with a range of sample rates.
#[derive(Clone, Copy, Debug, PartialEq, Eq, Structural)]
pub struct SupportedRange {
    pub channels: u16,
    pub min_sample_rate: u32,
    pub max_sample_rate: u32,
    pub sample_format: SampleFormat,
}

/// The configuration of the output stream. It is chosen once and never
/// changes: at least one channel, a sample rate above zero, and a sample
/// format.
#[derive(Clone, Copy, Debug, PartialEq, Eq)]
pub struct StreamConfig {
    channel_count: u16,
    sample_rate: u32,
    sample_format: SampleFormat,
}

impl StreamConfig {
    #[verifier::type_invariant]
    spec fn inv(self) -> bool {
        self.channel_count >= 1 && self.sample_rate > 0
    }

    /// The number of channels of a frame.
    pub closed spec fn channels(self) -> nat {
        self.channel_count as nat
    }

    /// The number of frames per second.
    pub closed spec fn rate(self) -> nat {
        self.sample_rate as nat
    }

    /// The sample format.
    pub closed spec fn format(self) -> SampleFormat {
        self.sample_format
    }

    /// The configuration with these three values, if there is one: a
    /// channel count or a sample rate of zero describes no stream.
    pub fn new(channel_count: u16, sample_rate: u32, sample_format: SampleFormat) -> (config:
        Option<Self>)
        ensures
            config is Some <==> channel_count >= 1 && sample_rate > 0,
            config matches Some(c) ==> c.channels() == channel_count && c.rate() == sample_rate
                && c.format() == sample_format,
    {
        if channel_count >= 1 && sample_rate > 0 {
            Some(StreamConfig { channel_count, sample_rate, sample_format })
        } else {
            None
        }
    }

    /// The number of channels of a frame: at least one.
    pub fn channel_count(&self) -> (count: u16)
        ensures
            count == self.channels(),
            count >= 1,
    {
        proof {
            use_type_invariant(self);
        }
        self.channel_count
    }

    /// The number of frames per second: above zero.
    pub fn sample_rate(&self) -> (rate: u32)
        ensures
            rate == self.rate(),
            rate > 0,
    {
        proof {
            use_type_invariant(self);
        }
        self.sample_rate
    }

    /// The sample format.
    pub fn sample_format(&self) -> (format: SampleFormat)
        ensures
            format == self.format(),
    {
        self.sample_format
    }
}

/// A stream configuration is no more than its channel count, its sample
/// rate and its sample format: two that agree in these are the same.
pub proof fn lemma_config_by_its_values(a: StreamConfig, b: StreamConfig)
    requires
        a.channels() == b.channels(),
        a.rate() == b.rate(),
        a.format() == b.format(),
    ensures
        a == b,
{
}

/// Whether a device that offers `ranges` can be given a stream
/// configuration: it offers something, and its first entry, taken at its
/// maximum sample rate, describes a stream.
pub open spec fn negotiable(ranges: Seq<SupportedRange>) -> bool {
    ranges.len() > 0 && ranges[0].channels >= 1 && ranges[0].max_sample_rate > 0
}

/// Whether `config` is the configuration picked for a device that offers
/// `ranges`: the first entry, resolved to its maximum sample rate.
pub open spec fn negotiated(ranges: Seq<SupportedRange>, config: StreamConfig) -> bool {
    &&& ranges.len() > 0
    &&& config.channels() == ranges[0].channels
    &&& config.rate() == ranges[0].max_sample_rate
    &&& config.format() == ranges[0].sample_format
}

/// Negotiation is deterministic: what a device offers decides the
/// configuration.
pub proof fn lemma_negotiated_once(ranges: Seq<SupportedRange>, a: StreamConfig, b: StreamConfig)
    requires
        negotiated(ranges, a),
        negotiated(ranges, b),
    ensures
        a == b,
{
    lemma_config_by_its_values(a, b);
}

/// Picks the stream configuration for a device that offers `ranges`: the
/// first entry, at its maximum sample rate. There is none if the device
/// offers nothing, or if the first entry describes no stream.
pub fn negotiate(ranges: &[SupportedRange]) -> (config: Option<StreamConfig>)
    ensures
        config is Some <==> negotiable(ranges@),
        config matches Some(c) ==> negotiated(ranges@, c),
{
    if ranges.len() == 0 {
        return None;
    }
    let first = ranges[0];
    StreamConfig::new(first.channels, first.max_sample_rate, first.sample_format)
}

} // verus!
