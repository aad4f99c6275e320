//! What the engine takes from a probed track: its sample rate and channel
//! count, and the sample queue sized from them.
use vstd::prelude::*;
use crate::queue::{
    SampleProducer, SampleConsumer, new_sample_queue, producer_capacity, consumer_capacity, sent,
    received,
};

verus! {

/// Channel count assumed when the container does not give one.
pub const DEFAULT_CHANNELS: u16 = 2;

/// Why a load was abandoned.
#[derive(Debug, Clone, Copy, PartialEq, Eq, Structural)]
pub enum LoadError {
    /// The file could not be opened or no container format matched it.
    ProbeFailed,
    /// The container has no default track.
    NoDefaultTrack,
    /// The default track gives no sample rate.
    NoSampleRate,
    /// The track's sample rate or channel count is zero.
    EmptyFormat,
    /// One second of samples does not fit in memory.
    BufferTooLarge,
    /// The output stream could not be opened or started.
    OutputFailed,
}

/// Rate and channel layout of the track being played.
#[derive(Debug, Clone, Copy, PartialEq, Eq, Structural)]
pub struct TrackFormat {
    pub sample_rate: u32,
    pub channels: u16,
}

impl TrackFormat {
    /// A format the engine can play: neither part zero, and one second of
    /// interleaved samples addressable.
    pub open spec fn wf(self) -> bool {
        &&& self.sample_rate > 0
        &&& self.channels > 0
        &&& self.sample_rate as nat * self.channels as nat <= usize::MAX as nat
    }

    /// Samples in one second of audio, over all channels.
    pub open spec fn samples_per_second(self) -> nat {
        self.sample_rate as nat * self.channels as nat
    }
}

/// The format of a probed track: its sample rate is required, its channel
/// count defaults to two, neither may be zero, and one second of samples must
/// be addressable.
pub open spec fn format_of(sample_rate: Option<u32>, channels: Option<u16>) -> Result<TrackFormat, LoadError> {
    match sample_rate {
        None => Err(LoadError::NoSampleRate),
        Some(sr) => {
            let ch: u16 = match channels {
                Some(c) => c,
                None => DEFAULT_CHANNELS,
            };
            let f = TrackFormat { sample_rate: sr, channels: ch };
            if sr == 0 || ch == 0 {
                Err(LoadError::EmptyFormat)
            } else if !f.wf() {
                Err(LoadError::BufferTooLarge)
            } else {
                Ok(f)
            }
        },
    }
}

/// The format of a probed track, or why it cannot be played.
pub fn track_format(sample_rate: Option<u32>, channels: Option<u16>) -> (r: Result<TrackFormat, LoadError>)
    ensures
        r == format_of(sample_rate, channels),
        r matches Ok(f) ==> f.wf(),
{
    let sr = match sample_rate {
        Some(sr) => sr,
        None => return Err(LoadError::NoSampleRate),
    };
    let ch: u16 = match channels {
        Some(c) => c,
        None => DEFAULT_CHANNELS,
    };
    if sr == 0 || ch == 0 {
        return Err(LoadError::EmptyFormat);
    }
    match (sr as usize).checked_mul(ch as usize) {
        Some(_) => Ok(TrackFormat { sample_rate: sr, channels: ch }),
        None => Err(LoadError::BufferTooLarge),
    }
}

/// The number of interleaved samples in one second of the track.
pub fn queue_capacity(format: &TrackFormat) -> (n: usize)
    requires
        format.wf(),
    ensures
        n == format.samples_per_second(),
{
    format.sample_rate as usize * format.channels as usize
}

/// A fresh, empty sample queue holding one second of the track.
pub fn create_sample_queue(format: &TrackFormat) -> (r: (SampleProducer, SampleConsumer))
    requires
        format.wf(),
    ensures
        producer_capacity(r.0) == format.samples_per_second(),
        consumer_capacity(r.1) == format.samples_per_second(),
        sent(r.0).len() == 0,
        received(r.1).len() == 0,
{
    let n = queue_capacity(format);
    assert(format.sample_rate as nat * format.channels as nat > 0) by (nonlinear_arith)
        requires
            format.sample_rate > 0,
            format.channels > 0,
    ;
    new_sample_queue(n)
}

} // verus!
