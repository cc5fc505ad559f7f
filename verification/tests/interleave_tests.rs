use mksnd::audio::config::{SampleFormat, SupportedRange};
use mksnd::audio::interleave::interleave;
use mksnd::audio::Engine;

fn bits(samples: &[f32]) -> Vec<u32> {
    samples.iter().map(|sample| sample.to_bits()).collect()
}

fn engine_with_channels(channels: u16) -> Engine {
    let range = SupportedRange {
        channels,
        min_sample_rate: 44_100,
        max_sample_rate: 48_000,
        sample_format: SampleFormat::F32,
    };
    Engine::new(|| Some(vec![range]), |_, _| true).expect("engine")
}

#[test]
fn interleave_two_samples_three_channels() {
    let out = interleave(&bits(&[1.0, 2.0]), 3);
    assert_eq!(out.len(), 6);
    assert_eq!(out, bits(&[1.0, 1.0, 1.0, 2.0, 2.0, 2.0]));
}

#[test]
fn interleave_stereo_repeats_each_sample_twice() {
    let out = interleave(&bits(&[0.25, -0.5, 0.75]), 2);
    assert_eq!(out, bits(&[0.25, 0.25, -0.5, -0.5, 0.75, 0.75]));
}

#[test]
fn interleave_mono_is_identity() {
    let input = bits(&[0.1, 0.2, 0.3, 0.4]);
    assert_eq!(interleave(&input, 1), input);
}

#[test]
fn interleave_empty_input_is_empty() {
    assert_eq!(interleave(&[], 2), Vec::<u32>::new());
}

#[test]
fn interleave_zero_channels_is_empty() {
    assert_eq!(interleave(&bits(&[1.0, 2.0]), 0), Vec::<u32>::new());
}

#[test]
fn interleave_keeps_bit_patterns_verbatim() {
    let input = vec![0x7fc0_0001, 0x8000_0000, 0xffff_ffff, 0];
    let out = interleave(&input, 2);
    assert_eq!(
        out,
        vec![0x7fc0_0001, 0x7fc0_0001, 0x8000_0000, 0x8000_0000, 0xffff_ffff, 0xffff_ffff, 0, 0]
    );
}

#[test]
fn interleave_every_slot_of_a_frame_holds_its_sample() {
    let input: Vec<u32> = (0..100u32).collect();
    let channels = 7u16;
    let out = interleave(&input, channels);
    assert_eq!(out.len(), input.len() * channels as usize);
    for (position, sample) in out.iter().enumerate() {
        assert_eq!(*sample, input[position / channels as usize]);
    }
}

#[test]
fn engine_interleave_uses_negotiated_channel_count() {
    let engine = engine_with_channels(3);
    let out = engine.interleave(&bits(&[1.0, 2.0]));
    assert_eq!(out, bits(&[1.0, 1.0, 1.0, 2.0, 2.0, 2.0]));
}
