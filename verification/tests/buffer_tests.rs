use irc_sitz_rs::buffer::PlaybackBuffer;
use irc_sitz_rs::sources::Sample;

#[test]
fn buffer_tests_test_playback_buffer_default() {
    let buffer = PlaybackBuffer::default();
    assert!(!buffer.is_eof());
    assert!(!buffer.has_data());
}

#[test]
fn test_playback_buffer_push_and_read() {
    let mut buffer = PlaybackBuffer::default();

    let samples: Vec<Sample> = vec![(100, 100), (200, 200), (300, 300)];
    buffer.push_samples(samples);

    let pulled = buffer.pull_samples(3);
    assert_eq!(pulled, vec![(100, 100), (200, 200), (300, 300)]);
    assert!(!buffer.has_data());
}

#[test]
fn buffer_tests_test_playback_buffer_clear() {
    let mut buffer = PlaybackBuffer::default();

    buffer.push_samples(vec![(1, 1), (2, 2), (3, 3)]);
    buffer.pull_samples(1);

    buffer.clear();

    assert!(!buffer.has_data());
    assert!(!buffer.is_eof());
}

#[test]
fn test_playback_buffer_eof_flag() {
    let mut buffer = PlaybackBuffer::default();

    assert!(!buffer.is_eof());

    buffer.set_eof(true);
    assert!(buffer.is_eof());

    buffer.set_eof(false);
    assert!(!buffer.is_eof());

    buffer.set_eof(true);
    buffer.clear();
    assert!(!buffer.is_eof());
}

#[test]
fn test_playback_buffer_paused() {
    let mut buffer = PlaybackBuffer::default();

    buffer.push_samples(vec![(100, 100), (200, 200)]);

    buffer.set_paused(true);
    let pulled = buffer.pull_samples(2);
    assert_eq!(pulled, vec![(0, 0), (0, 0)]);

    buffer.set_paused(false);
    let pulled = buffer.pull_samples(1);
    assert_eq!(pulled, vec![(100, 100)]);
}

#[test]
fn test_playback_buffer_multiple_pushes() {
    let mut buffer = PlaybackBuffer::default();

    buffer.push_samples(vec![(1, 1), (2, 2)]);
    buffer.push_samples(vec![(3, 3), (4, 4)]);

    let pulled = buffer.pull_samples(4);
    assert_eq!(pulled, vec![(1, 1), (2, 2), (3, 3), (4, 4)]);
    assert!(!buffer.has_data());
}

#[test]
fn test_playback_buffer_empty_push() {
    let mut buffer = PlaybackBuffer::default();

    buffer.push_samples(Vec::new());

    assert!(!buffer.has_data());
}

#[test]
fn test_playback_buffer_pull_pads_with_silence() {
    let mut buffer = PlaybackBuffer::default();

    buffer.push_samples(vec![(100, 100), (200, 200)]);

    let pulled = buffer.pull_samples(5);
    assert_eq!(
        pulled,
        vec![(100, 100), (200, 200), (0, 0), (0, 0), (0, 0)]
    );
}

#[test]
fn buffer_counts_consumed_samples_and_whole_seconds() {
    let mut buffer = PlaybackBuffer::new();
    assert_eq!(buffer.total_position_secs(44100), 0);
    buffer.push_samples(vec![(1, 1); 44100]);
    buffer.pull_samples(22050);
    assert_eq!(buffer.total_samples_consumed(), 22050);
    assert_eq!(buffer.total_position_secs(44100), 0);
    buffer.pull_samples(22050);
    assert_eq!(buffer.total_position_secs(44100), 1);
    buffer.clear();
    assert_eq!(buffer.total_samples_consumed(), 0);
}

#[test]
fn buffer_level_counts_pending_samples() {
    let mut buffer = PlaybackBuffer::new();
    buffer.push_samples(vec![(5, 5); 10]);
    assert_eq!(buffer.buffer_level(), 10);
    buffer.pull_samples(4);
    assert_eq!(buffer.buffer_level(), 6);
    buffer.set_paused(true);
    buffer.pull_samples(4);
    assert_eq!(buffer.buffer_level(), 6);
}

#[test]
fn buffer_keeps_order_across_compaction() {
    let mut buffer = PlaybackBuffer::new();
    let samples: Vec<Sample> = (0..60000).map(|i| ((i % 1000) as i16, 0)).collect();
    buffer.push_samples(samples.clone());
    let first = buffer.pull_samples(50000);
    assert_eq!(first, samples[..50000].to_vec());
    buffer.push_samples(vec![(7, 7)]);
    let rest = buffer.pull_samples(10001);
    let mut expected = samples[50000..].to_vec();
    expected.push((7, 7));
    assert_eq!(rest, expected);
}
