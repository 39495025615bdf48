use vstd::prelude::*;
use crate::queue::{
    SampleConsumer, SampleProducer, SampleQueue, consumer_capacity, producer_capacity,
};
use crate::session::QUEUE_CAPACITY;

verus! {

/// Why a capture attempt failed; each is fatal to that attempt.
#[derive(Clone, Copy, Debug, PartialEq, Eq, Structural)]
pub enum CaptureError {
    /// The producer end was already handed to an earlier capture.
    ProducerConsumed,
    NoDeviceFound,
    ConfigUnavailable,
    /// The device's native format is not 32-bit float.
    UnsupportedFormat,
    StreamStartFailed,
}

pub open spec fn describe_text(e: CaptureError) -> Seq<char> {
    match e {
        CaptureError::ProducerConsumed => "Producer already consumed"@,
        CaptureError::NoDeviceFound => "No default output device found for loopback capture"@,
        CaptureError::ConfigUnavailable => "Failed to get default output config"@,
        CaptureError::UnsupportedFormat => "Unsupported sample format (expected F32)"@,
        CaptureError::StreamStartFailed => "Failed to start the capture stream"@,
    }
}

impl CaptureError {
    /// A sentence for logs and status events.
    pub fn describe(&self) -> (r: String)
        ensures
            r@ == describe_text(*self),
    {
        match self {
            CaptureError::ProducerConsumed => String::from_str("Producer already consumed"),
            CaptureError::NoDeviceFound => String::from_str(
                "No default output device found for loopback capture",
            ),
            CaptureError::ConfigUnavailable => String::from_str(
                "Failed to get default output config",
            ),
            CaptureError::UnsupportedFormat => String::from_str(
                "Unsupported sample format (expected F32)",
            ),
            CaptureError::StreamStartFailed => String::from_str(
                "Failed to start the capture stream",
            ),
        }
    }
}

/// A capture source: holds the producer end of its queue until one capture
/// takes it.
pub struct AudioSystem {
    pub producer: Option<SampleProducer>,
}

impl AudioSystem {
    /// A capture source over a fresh queue of `QUEUE_CAPACITY` samples, and the
    /// consumer end of that queue.
    pub fn new() -> (r: (Self, SampleConsumer))
        ensures
            r.0.producer is Some,
            producer_capacity(r.0.producer->0) == QUEUE_CAPACITY,
            consumer_capacity(r.1) == QUEUE_CAPACITY,
    {
        let (producer, consumer) = SampleQueue::new(QUEUE_CAPACITY).split();
        (AudioSystem { producer: Some(producer) }, consumer)
    }

    /// Hands the producer end to a capture: only the first call succeeds.
    pub fn take_producer(&mut self) -> (r: Result<SampleProducer, CaptureError>)
        ensures
            final(self).producer is None,
            old(self).producer is Some ==> r == Ok::<SampleProducer, CaptureError>(
                old(self).producer->0,
            ),
            old(self).producer is None ==> r == Err::<SampleProducer, CaptureError>(
                CaptureError::ProducerConsumed,
            ),
    {
        match self.producer.take() {
            Some(p) => Ok(p),
            None => Err(CaptureError::ProducerConsumed),
        }
    }

    /// Whether the producer end is still here, so a capture can start.
    pub fn can_start(&self) -> (r: bool)
        ensures
            r == self.producer is Some,
    {
        self.producer.is_some()
    }
}

/// Only a 32-bit float stream is accepted; no conversion happens here.
pub fn check_sample_format(is_f32: bool) -> (r: Result<(), CaptureError>)
    ensures
        is_f32 ==> r is Ok,
        !is_f32 ==> r == Err::<(), CaptureError>(CaptureError::UnsupportedFormat),
{
    if is_f32 {
        Ok(())
    } else {
        Err(CaptureError::UnsupportedFormat)
    }
}

} // verus!
