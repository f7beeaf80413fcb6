//! The audio stream descriptor and the sizing of the ring buffer.

use vstd::prelude::*;

verus! {

/// Latency window, in milliseconds, that a ring buffer holds by default.
pub const DEFAULT_LATENCY_MS: u32 = 200;

/// Sample rate and channel count of a stream (samples are 32-bit floats).
#[derive(Clone, Copy, Debug, PartialEq, Eq, Structural)]
pub struct StreamDescriptor {
    pub rate: u32,
    pub channels: u32,
}

/// Failures that stop a stream from producing output at all.
#[derive(Clone, Copy, Debug, PartialEq, Eq, Structural)]
pub enum FatalError {
    /// A zero sample rate or channel count, or a latency window that holds
    /// no frame.
    InvalidDescriptor,
    /// The ring capacity for the stream does not fit in memory addresses.
    CapacityOverflow,
    /// The source cannot be read as audio: no known format, no default
    /// track, or no decoder for its codec.
    SourceUnreadable,
    /// No output device is available.
    NoDevice,
    /// The output device refused the configuration or failed to start.
    DeviceRejected,
    /// The device reported an error while the stream was running.
    StreamFailed,
}

impl StreamDescriptor {
    /// Both the rate and the channel count are positive.
    pub open spec fn valid(self) -> bool {
        self.rate > 0 && self.channels > 0
    }

    pub fn is_valid(&self) -> (r: bool)
        ensures
            r == self.valid(),
    {
        self.rate > 0 && self.channels > 0
    }
}

/// Frames in a window of `latency_ms` at `rate`, rounded up.
pub open spec fn frames_for(rate: int, latency_ms: int) -> int {
    (latency_ms * rate + 999) / 1000
}

/// `ceil(latency_ms * rate / 1000) * channels`: the ring capacity in samples.
pub open spec fn capacity_for(d: StreamDescriptor, latency_ms: int) -> int {
    frames_for(d.rate as int, latency_ms) * d.channels as int
}

/// Ring capacity, in samples, for a stream of descriptor `d` buffered over
/// `latency_ms` milliseconds.
pub fn ring_capacity(d: StreamDescriptor, latency_ms: u32) -> (r: Result<usize, FatalError>)
    ensures
        !d.valid() ==> r == Err::<usize, FatalError>(FatalError::InvalidDescriptor),
        d.valid() && capacity_for(d, latency_ms as int) > usize::MAX ==> r == Err::<
            usize,
            FatalError,
        >(FatalError::CapacityOverflow),
        d.valid() && capacity_for(d, latency_ms as int) <= usize::MAX ==> r == Ok::<
            usize,
            FatalError,
        >(capacity_for(d, latency_ms as int) as usize),
{
    if !d.is_valid() {
        return Err(FatalError::InvalidDescriptor);
    }
    proof {
        assert(latency_ms as int * d.rate as int <= 0xffff_fffe_0000_0001) by (nonlinear_arith)
            requires
                latency_ms <= 0xffff_ffff,
                d.rate <= 0xffff_ffff,
        ;
    }
    let window: u64 = latency_ms as u64 * d.rate as u64;
    let frames: u64 = (window + 999) / 1000;
    if frames > usize::MAX as u64 {
        proof {
            assert(capacity_for(d, latency_ms as int) >= frames_for(d.rate as int, latency_ms as int)) by (nonlinear_arith)
                requires
                    d.channels >= 1,
                    frames_for(d.rate as int, latency_ms as int) >= 0,
                    capacity_for(d, latency_ms as int) == frames_for(d.rate as int, latency_ms as int) * d.channels as int,
            ;
        }
        return Err(FatalError::CapacityOverflow);
    }
    let frames: usize = frames as usize;
    match frames.checked_mul(d.channels as usize) {
        Some(c) => Ok(c),
        None => Err(FatalError::CapacityOverflow),
    }
}

} // verus!
