use mksnd::audio::channel::{SampleChannel, CAPACITY};

#[test]
fn capacity_is_one_second_at_48_khz() {
    assert_eq!(CAPACITY, 48_000);
}

#[test]
fn new_channel_is_empty() {
    let mut channel = SampleChannel::new();
    let mut buffer = [9u32; 4];
    assert_eq!(channel.pop(&mut buffer), 0);
    assert_eq!(buffer, [9, 9, 9, 9]);
}

#[test]
fn pushes_within_capacity_come_out_in_submission_order() {
    let mut channel = SampleChannel::new();
    assert_eq!(channel.push(&[1, 2, 3]), 3);
    assert_eq!(channel.push(&[]), 0);
    assert_eq!(channel.push(&[4]), 1);
    assert_eq!(channel.push(&[5, 6, 7, 8]), 4);

    let mut popped = Vec::new();
    let mut buffer = [0u32; 3];
    loop {
        let count = channel.pop(&mut buffer);
        if count == 0 {
            break;
        }
        popped.extend_from_slice(&buffer[..count]);
    }
    assert_eq!(popped, vec![1, 2, 3, 4, 5, 6, 7, 8]);
}

#[test]
fn push_of_exactly_the_capacity_is_accepted_whole() {
    let mut channel = SampleChannel::new();
    let samples: Vec<u32> = (0..CAPACITY as u32).collect();
    assert_eq!(channel.push(&samples), CAPACITY);
    let mut buffer = vec![0u32; CAPACITY];
    assert_eq!(channel.pop(&mut buffer), CAPACITY);
    assert_eq!(buffer, samples);
}

#[test]
fn push_beyond_free_capacity_accepts_exactly_the_free_capacity() {
    let mut channel = SampleChannel::new();
    let first: Vec<u32> = (0..47_990u32).collect();
    assert_eq!(channel.push(&first), 47_990);

    let second: Vec<u32> = (100_000..100_025u32).collect();
    assert_eq!(channel.push(&second), 10);

    let mut buffer = vec![0u32; CAPACITY + 5];
    assert_eq!(channel.pop(&mut buffer), CAPACITY);
    assert_eq!(&buffer[..47_990], &first[..]);
    assert_eq!(&buffer[47_990..CAPACITY], &second[..10]);
    assert_eq!(&buffer[CAPACITY..], &[0u32; 5][..]);
}

#[test]
fn push_into_full_channel_accepts_nothing_and_overwrites_nothing() {
    let mut channel = SampleChannel::new();
    let samples: Vec<u32> = (0..CAPACITY as u32).collect();
    assert_eq!(channel.push(&samples), CAPACITY);
    assert_eq!(channel.push(&[7, 7, 7]), 0);

    let mut buffer = vec![0u32; CAPACITY];
    assert_eq!(channel.pop(&mut buffer), CAPACITY);
    assert_eq!(buffer, samples);
}

#[test]
fn oversized_push_keeps_the_longest_prefix_that_fits() {
    let mut channel = SampleChannel::new();
    let samples: Vec<u32> = (0..(CAPACITY as u32 + 1_000)).collect();
    assert_eq!(channel.push(&samples), CAPACITY);
    let mut buffer = vec![0u32; CAPACITY];
    assert_eq!(channel.pop(&mut buffer), CAPACITY);
    assert_eq!(&buffer[..], &samples[..CAPACITY]);
    assert_eq!(channel.pop(&mut buffer), 0);
}

#[test]
fn pop_into_larger_buffer_leaves_the_tail_untouched() {
    let mut channel = SampleChannel::new();
    channel.push(&[10, 20]);
    let mut buffer = [1u32, 2, 3, 4, 5];
    assert_eq!(channel.pop(&mut buffer), 2);
    assert_eq!(buffer, [10, 20, 3, 4, 5]);
}

#[test]
fn pop_into_smaller_buffer_keeps_the_rest_for_later() {
    let mut channel = SampleChannel::new();
    channel.push(&[10, 20, 30, 40, 50]);
    let mut buffer = [0u32; 2];
    assert_eq!(channel.pop(&mut buffer), 2);
    assert_eq!(buffer, [10, 20]);
    assert_eq!(channel.pop(&mut buffer), 2);
    assert_eq!(buffer, [30, 40]);
    assert_eq!(channel.pop(&mut buffer), 1);
    assert_eq!(buffer, [50, 40]);
}

#[test]
fn pop_into_empty_buffer_takes_nothing() {
    let mut channel = SampleChannel::new();
    channel.push(&[1, 2, 3]);
    let mut nothing: [u32; 0] = [];
    assert_eq!(channel.pop(&mut nothing), 0);
    let mut buffer = [0u32; 3];
    assert_eq!(channel.pop(&mut buffer), 3);
    assert_eq!(buffer, [1, 2, 3]);
}

#[test]
fn order_survives_wrapping_around_the_ring() {
    let mut channel = SampleChannel::new();
    let first: Vec<u32> = (0..40_000u32).collect();
    assert_eq!(channel.push(&first), 40_000);
    let mut buffer = vec![0u32; 40_000];
    assert_eq!(channel.pop(&mut buffer), 40_000);
    assert_eq!(buffer, first);

    let second: Vec<u32> = (500_000..530_000u32).collect();
    assert_eq!(channel.push(&second), 30_000);
    let third: Vec<u32> = (900_000..930_000u32).collect();
    assert_eq!(channel.push(&third), 18_000);

    let mut buffer = vec![0u32; CAPACITY];
    assert_eq!(channel.pop(&mut buffer), CAPACITY);
    assert_eq!(&buffer[..30_000], &second[..]);
    assert_eq!(&buffer[30_000..], &third[..18_000]);
}

#[test]
fn interleaved_pushes_and_pops_read_a_prefix_of_what_was_accepted() {
    let mut channel = SampleChannel::new();
    let mut accepted: Vec<u32> = Vec::new();
    let mut read: Vec<u32> = Vec::new();
    let mut next = 0u32;
    for round in 0..200usize {
        let batch: Vec<u32> = (next..next + 700).collect();
        next += 700;
        let count = channel.push(&batch);
        accepted.extend_from_slice(&batch[..count]);

        let mut buffer = vec![0u32; (round * 37) % 1_000];
        let count = channel.pop(&mut buffer);
        read.extend_from_slice(&buffer[..count]);
        assert_eq!(&accepted[..read.len()], &read[..]);
    }
    let mut buffer = vec![0u32; CAPACITY];
    let count = channel.pop(&mut buffer);
    read.extend_from_slice(&buffer[..count]);
    assert_eq!(read, accepted);
}

#[test]
fn split_ends_carry_samples_from_producer_to_consumer() {
    let (mut producer, mut consumer) = SampleChannel::new().split();
    assert_eq!(producer.push(&[1, 2, 3]), 3);
    assert_eq!(producer.push(&[4, 5]), 2);
    let mut buffer = [0u32; 4];
    assert_eq!(consumer.pop(&mut buffer), 4);
    assert_eq!(buffer, [1, 2, 3, 4]);
    assert_eq!(consumer.pop(&mut buffer), 1);
    assert_eq!(buffer, [5, 2, 3, 4]);
    assert_eq!(consumer.pop(&mut buffer), 0);
}

#[test]
fn split_keeps_what_the_channel_held() {
    let mut channel = SampleChannel::new();
    channel.push(&[11, 22, 33]);
    let (mut producer, mut consumer) = channel.split();
    assert_eq!(producer.push(&[44]), 1);
    let mut buffer = [0u32; 8];
    assert_eq!(consumer.pop(&mut buffer), 4);
    assert_eq!(&buffer[..4], &[11, 22, 33, 44]);
}

#[test]
fn producer_end_drops_what_does_not_fit() {
    let (mut producer, mut consumer) = SampleChannel::new().split();
    let samples: Vec<u32> = (0..(CAPACITY as u32 + 10)).collect();
    assert_eq!(producer.push(&samples), CAPACITY);
    assert_eq!(producer.push(&[1, 2, 3]), 0);

    let mut buffer = vec![0u32; 100];
    assert_eq!(consumer.pop(&mut buffer), 100);
    assert_eq!(&buffer[..], &samples[..100]);

    assert_eq!(producer.push(&[1, 2, 3]), 3);
    assert_eq!(producer.push(&vec![5u32; 200]), 97);
}

#[test]
fn ends_keep_submission_order_while_pushes_and_pops_alternate() {
    let (mut producer, mut consumer) = SampleChannel::new().split();
    let mut accepted: Vec<u32> = Vec::new();
    let mut read: Vec<u32> = Vec::new();
    let mut next = 0u32;
    for round in 0..300usize {
        let batch: Vec<u32> = (next..next + 900).collect();
        next += 900;
        let count = producer.push(&batch);
        accepted.extend_from_slice(&batch[..count]);

        let mut buffer = vec![u32::MAX; (round * 53) % 1_200];
        let count = consumer.pop(&mut buffer);
        assert!(buffer[count..].iter().all(|slot| *slot == u32::MAX));
        read.extend_from_slice(&buffer[..count]);
        assert_eq!(&accepted[..read.len()], &read[..]);
        assert!(accepted.len() - read.len() <= CAPACITY);
    }
    let mut buffer = vec![0u32; CAPACITY];
    let count = consumer.pop(&mut buffer);
    read.extend_from_slice(&buffer[..count]);
    assert_eq!(read, accepted);
}
