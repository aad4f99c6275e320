//! The decoder worker's decisions. The worker itself (reading packets,
//! decoding, sleeping while the queue is full) runs outside; it reports what
//! happened and does what these functions say.
use vstd::prelude::*;
use crate::command::DecoderCommand;
use crate::queue::{SampleProducer, sent, producer_capacity};
use crate::seek::{Seconds, seek_target};
use crate::state::{PlaybackState, stopped};

verus! {

/// The state once a decoder has published its track and started.
pub open spec fn started<V>(s: PlaybackState<V>, sample_rate: u32, duration: Option<u64>) -> PlaybackState<V> {
    PlaybackState {
        is_playing: true,
        is_paused: false,
        current_position_samples: 0,
        sample_rate,
        duration_samples: duration,
        needs_buffer_clear: false,
        ..s
    }
}

/// The state after a successful seek to frame `target`.
pub open spec fn seeked<V>(s: PlaybackState<V>, target: u64) -> PlaybackState<V> {
    PlaybackState { current_position_samples: target, needs_buffer_clear: true, ..s }
}

/// Publishes the track's rate and length and starts playing from its start.
pub fn begin_track<V>(state: &mut PlaybackState<V>, sample_rate: u32, duration_samples: Option<u64>)
    ensures
        *final(state) == started(*old(state), sample_rate, duration_samples),
{
    state.sample_rate = sample_rate;
    state.duration_samples = duration_samples;
    state.current_position_samples = 0;
    state.is_playing = true;
    state.is_paused = false;
    state.needs_buffer_clear = false;
}

/// Records a seek that the container carried out: the position jumps to the
/// target and the output is told to drop what is queued. A failed seek is
/// not recorded at all.
pub fn record_seek<V>(state: &mut PlaybackState<V>, target_samples: u64)
    ensures
        *final(state) == seeked(*old(state), target_samples),
{
    state.current_position_samples = target_samples;
    state.needs_buffer_clear = true;
}

/// What the worker does at the head of each turn of its loop.
#[derive(Debug, Clone, Copy, PartialEq, Eq, Structural)]
pub enum LoopHead {
    /// Seek the container to this frame, then ask again with no command.
    Seek(u64),
    /// Leave the loop without touching the state: whoever sent `Stop` or
    /// cleared the playing flag has marked playback stopped already, and the
    /// flag may by now belong to the next track.
    Exit,
    /// Read the next packet.
    Read,
}

/// The head of the decode loop: a pending command comes first (`Stop` leaves
/// at once, `Seek` is carried out), then the playing flag decides whether to
/// read on.
pub fn loop_head<V>(state: &PlaybackState<V>, command: Option<DecoderCommand>) -> (r: LoopHead)
    ensures
        r == match command {
            Some(DecoderCommand::Stop) => LoopHead::Exit,
            Some(DecoderCommand::Seek(t)) => LoopHead::Seek(t),
            None => if state.is_playing { LoopHead::Read } else { LoopHead::Exit },
        },
{
    match command {
        Some(DecoderCommand::Stop) => LoopHead::Exit,
        Some(DecoderCommand::Seek(t)) => LoopHead::Seek(t),
        None => if state.is_playing {
            LoopHead::Read
        } else {
            LoopHead::Exit
        },
    }
}

/// Ends a seek the container was asked for: recorded when it succeeded, the
/// state left exactly as it was when it failed.
pub fn finish_seek<V>(state: &mut PlaybackState<V>, target_samples: u64, succeeded: bool)
    ensures
        succeeded ==> *final(state) == seeked(*old(state), target_samples),
        !succeeded ==> *final(state) == *old(state),
{
    if succeeded {
        record_seek(state, target_samples);
    }
}

/// A seek to `p` seconds, once carried out, puts the position at
/// `round(p × rate)` for the state's rate, whatever the position was before,
/// and leaves a flush of the queue pending.
pub proof fn lemma_seek_sets_position<V>(s: PlaybackState<V>, p: Seconds)
    ensures
        seeked(s, seek_target(p, s.sample_rate)).current_position_samples == seek_target(
            p,
            s.sample_rate,
        ),
        seeked(s, seek_target(p, s.sample_rate)).needs_buffer_clear,
        forall|t: PlaybackState<V>|
            t.sample_rate == s.sample_rate ==> #[trigger] seeked(
                t,
                seek_target(p, t.sample_rate),
            ).current_position_samples == seeked(
                s,
                seek_target(p, s.sample_rate),
            ).current_position_samples,
{
}

/// Marks the end of decoding when the stream ended or a read failed.
pub fn end_of_track<V>(state: &mut PlaybackState<V>)
    ensures
        *final(state) == stopped(*old(state)),
{
    state.is_playing = false;
}

/// What reading the next packet gave.
#[derive(Debug, Clone, Copy, PartialEq, Eq, Structural)]
pub enum PacketRead {
    /// A packet of the track with this id.
    Packet(u32),
    EndOfStream,
    /// Any read error other than end of stream.
    Failed,
}

/// What the worker does next with a packet read.
#[derive(Debug, Clone, Copy, PartialEq, Eq, Structural)]
pub enum PacketStep {
    Decode,
    /// The decoded samples go to the queue.
    Push,
    /// A packet of another track in the same container.
    Skip,
    /// Leave the decode loop: end of stream is normal, a read error ends the track too.
    Finish,
}

/// Packets of the decoded track are decoded, those of other tracks skipped;
/// end of stream and read errors end the loop.
pub fn packet_step(read: PacketRead, track_id: u32) -> (r: PacketStep)
    ensures
        r == match read {
            PacketRead::Packet(id) => if id == track_id { PacketStep::Decode } else { PacketStep::Skip },
            _ => PacketStep::Finish,
        },
{
    match read {
        PacketRead::Packet(id) => if id == track_id {
            PacketStep::Decode
        } else {
            PacketStep::Skip
        },
        PacketRead::EndOfStream => PacketStep::Finish,
        PacketRead::Failed => PacketStep::Finish,
    }
}

/// After decoding a packet of the track: its samples are pushed, or, if it
/// could not be decoded, it is skipped and decoding goes on.
pub fn decoded_step(decoded: bool) -> (r: PacketStep)
    ensures
        r == if decoded { PacketStep::Push } else { PacketStep::Skip },
{
    if decoded {
        PacketStep::Push
    } else {
        PacketStep::Skip
    }
}

/// One attempt to hand decoded samples to the queue.
#[derive(Debug, Clone, Copy, PartialEq, Eq, Structural)]
pub enum PushOutcome {
    /// Playback is paused: wait and try again.
    Paused,
    /// Playback has stopped: the worker returns.
    Stopped,
    /// This many more samples went into the queue.
    Pushed(usize),
}

/// Pushes `samples[written..]` as far as the queue has room, unless the
/// state says to quit (not playing, which wins over paused) or to wait
/// (paused). Backpressure is
/// cooperative: the caller retries after a short sleep until all is written.
pub fn push_decoded<V>(
    state: &PlaybackState<V>,
    producer: &mut SampleProducer,
    samples: &Vec<u32>,
    written: usize,
) -> (r: PushOutcome)
    requires
        written <= samples.len(),
    ensures
        !state.is_playing ==> r == PushOutcome::Stopped && *final(producer) == *old(producer),
        state.is_playing && state.is_paused ==> r == PushOutcome::Paused && *final(producer)
            == *old(producer),
        state.is_playing && !state.is_paused ==> (r matches PushOutcome::Pushed(n) && {
            &&& written + n <= samples.len()
            &&& sent(*final(producer)) == sent(*old(producer)) + samples@.subrange(
                written as int,
                written + n,
            )
            &&& producer_capacity(*final(producer)) == producer_capacity(*old(producer))
        }),
{
    if !state.is_playing {
        return PushOutcome::Stopped;
    }
    if state.is_paused {
        return PushOutcome::Paused;
    }
    let n = producer.push_from(samples, written);
    PushOutcome::Pushed(n)
}

} // verus!
