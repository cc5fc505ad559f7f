use mksnd::audio::config::{negotiate, SampleFormat, StreamConfig, SupportedRange};

fn range(channels: u16, min: u32, max: u32, format: SampleFormat) -> SupportedRange {
    SupportedRange { channels, min_sample_rate: min, max_sample_rate: max, sample_format: format }
}

#[test]
fn negotiate_picks_the_first_entry_at_its_maximum_rate() {
    let ranges = [
        range(2, 8_000, 44_100, SampleFormat::I16),
        range(6, 8_000, 192_000, SampleFormat::F32),
    ];
    let config = negotiate(&ranges).expect("config");
    assert_eq!(config.channel_count(), 2);
    assert_eq!(config.sample_rate(), 44_100);
    assert_eq!(config.sample_format(), SampleFormat::I16);
}

#[test]
fn negotiate_with_a_single_entry() {
    let config = negotiate(&[range(1, 48_000, 48_000, SampleFormat::F32)]).expect("config");
    assert_eq!(config.channel_count(), 1);
    assert_eq!(config.sample_rate(), 48_000);
    assert_eq!(config.sample_format(), SampleFormat::F32);
}

#[test]
fn negotiate_with_no_supported_configuration_gives_none() {
    assert!(negotiate(&[]).is_none());
}

#[test]
fn negotiate_does_not_look_past_an_unusable_first_entry() {
    let ranges = [range(0, 8_000, 48_000, SampleFormat::F32), range(2, 8_000, 48_000, SampleFormat::F32)];
    assert!(negotiate(&ranges).is_none());
    let ranges = [range(2, 0, 0, SampleFormat::F32), range(2, 8_000, 48_000, SampleFormat::F32)];
    assert!(negotiate(&ranges).is_none());
}

#[test]
fn negotiate_is_deterministic() {
    let ranges = [range(2, 8_000, 96_000, SampleFormat::U8), range(1, 1, 2, SampleFormat::F64)];
    assert_eq!(negotiate(&ranges), negotiate(&ranges));
}

#[test]
fn stream_config_needs_a_channel_and_a_rate() {
    assert!(StreamConfig::new(0, 48_000, SampleFormat::F32).is_none());
    assert!(StreamConfig::new(2, 0, SampleFormat::F32).is_none());
    assert!(StreamConfig::new(0, 0, SampleFormat::Other).is_none());
    let config = StreamConfig::new(1, 1, SampleFormat::Other).expect("config");
    assert_eq!(config.channel_count(), 1);
    assert_eq!(config.sample_rate(), 1);
    assert_eq!(config.sample_format(), SampleFormat::Other);
    let config = StreamConfig::new(u16::MAX, u32::MAX, SampleFormat::U64).expect("config");
    assert_eq!(config.channel_count(), u16::MAX);
    assert_eq!(config.sample_rate(), u32::MAX);
}
