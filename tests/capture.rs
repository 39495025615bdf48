use meeting_scribe::capture::{check_sample_format, AudioSystem, CaptureError};

#[test]
fn producer_is_handed_out_once() {
    let (mut audio, mut consumer) = AudioSystem::new();
    assert!(audio.can_start());
    let mut producer = audio.take_producer().expect("first capture gets the producer");
    assert!(!audio.can_start());
    assert!(matches!(audio.take_producer(), Err(CaptureError::ProducerConsumed)));
    assert_eq!(producer.push(&[3, 1, 4]), 3);
    assert_eq!(consumer.drain(10), vec![3, 1, 4]);
}

#[test]
fn queue_of_capture_source_drops_overflow() {
    let (mut audio, mut consumer) = AudioSystem::new();
    let mut producer = audio.take_producer().expect("producer");
    let big = vec![1i16; 480_100];
    assert_eq!(producer.push(&big), 480_000);
    assert_eq!(consumer.available(), 480_000);
    assert_eq!(producer.push(&[2]), 0);
    assert_eq!(consumer.drain(5).len(), 5);
}

#[test]
fn only_float_streams_are_accepted() {
    assert_eq!(check_sample_format(true), Ok(()));
    assert_eq!(check_sample_format(false), Err(CaptureError::UnsupportedFormat));
}

#[test]
fn errors_describe_themselves() {
    assert_eq!(CaptureError::ProducerConsumed.describe(), "Producer already consumed");
    assert_eq!(
        CaptureError::UnsupportedFormat.describe(),
        "Unsupported sample format (expected F32)"
    );
    assert_eq!(
        CaptureError::NoDeviceFound.describe(),
        "No default output device found for loopback capture"
    );
    assert_eq!(CaptureError::ConfigUnavailable.describe(), "Failed to get default output config");
    assert_eq!(CaptureError::StreamStartFailed.describe(), "Failed to start the capture stream");
}
