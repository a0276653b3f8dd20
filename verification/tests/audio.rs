//! Tests for the playback side of the audio pipeline.

use zello_client::audio::{decoded_samples, PlaybackBuffer};
use zello_client::{OPUS_CHANNEL_COUNT, PCM_BUFFER_SIZE, PCM_CHANNEL_CAPACITY};

#[test]
fn test_playback_empty_fill_is_silence() {
    let mut buffer = PlaybackBuffer::new();
    let out = buffer.fill(8);
    assert_eq!(out, vec![0i16; 8]);
    assert_eq!(buffer.len(), 0);
}

#[test]
fn test_playback_fill_order_and_shortfall() {
    let mut buffer = PlaybackBuffer::new();
    buffer.extend_from(&vec![1, 2, 3]);
    assert_eq!(buffer.len(), 3);

    let out = buffer.fill(2);
    assert_eq!(out, vec![1, 2]);
    assert_eq!(buffer.len(), 1);

    // The shortfall past the buffered samples is silence.
    let out = buffer.fill(3);
    assert_eq!(out, vec![3, 0, 0]);
    assert_eq!(buffer.len(), 0);

    // Later arrivals queue behind nothing.
    buffer.extend_from(&vec![4]);
    let out = buffer.fill(1);
    assert_eq!(out, vec![4]);
}

#[test]
fn test_decoded_samples_truncates() {
    let pcm = vec![5i16; 8];
    let out = decoded_samples(&pcm, 3, 1).unwrap();
    assert_eq!(out, vec![5i16; 3]);

    let out = decoded_samples(&pcm, 4, 2).unwrap();
    assert_eq!(out.len(), 8);
}

#[test]
fn test_decoded_samples_refuses_overrun() {
    let pcm = vec![5i16; 8];
    assert!(decoded_samples(&pcm, 9, 1).is_none());
    assert!(decoded_samples(&pcm, usize::MAX, 2).is_none());
}

#[test]
fn test_pipeline_constants() {
    assert_eq!(OPUS_CHANNEL_COUNT, 1);
    assert_eq!(PCM_CHANNEL_CAPACITY, 20);
    assert_eq!(PCM_BUFFER_SIZE, 1920);
}
