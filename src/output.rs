//! The output callback's part that decides: whether to play, the flush after
//! a seek, how many samples to take, and how far the position moves.
use vstd::prelude::*;
use crate::queue::{SampleConsumer, received, flushes};
use crate::state::{PlaybackState, stopped};

verus! {

/// The callback outputs only silence in this state.
pub open spec fn is_silent<V>(s: PlaybackState<V>) -> bool {
    !s.is_playing || s.is_paused
}

/// Once playback is marked stopped (the decoder reached the end, failed, or
/// was told to stop), the output callback is in its silent case, where
/// `drain_for_output` leaves the state, and so the position, unchanged.
pub proof fn lemma_stopped_output_is_silent<V>(s: PlaybackState<V>)
    ensures
        is_silent(stopped(s)),
{
}

/// `pos` moved on by `frames`, stopping at the largest value.
pub open spec fn advanced(pos: u64, frames: nat) -> u64 {
    if pos as nat + frames <= u64::MAX as nat {
        (pos as nat + frames) as u64
    } else {
        u64::MAX
    }
}

/// One invocation of the output callback, up to the point where samples are
/// scaled and converted for the device.
///
/// `buf` is as long as the device's buffer. When playing, its first `n`
/// entries receive the oldest queued samples; when a seek has left a flush
/// pending, the queue is emptied once before anything is taken. The position
/// moves on by the frames taken.
/// When silent, neither the queue nor the state is touched.
pub fn drain_for_output<V>(
    state: &mut PlaybackState<V>,
    consumer: &mut SampleConsumer,
    buf: &mut Vec<u32>,
    channels: u16,
) -> (n: usize)
    requires
        channels > 0,
    ensures
        n <= old(buf).len(),
        final(buf).len() == old(buf).len(),
        is_silent(*old(state)) ==> {
            &&& n == 0
            &&& *final(state) == *old(state)
            &&& *final(consumer) == *old(consumer)
            &&& *final(buf) == *old(buf)
        },
        !is_silent(*old(state)) ==> {
            let before = received(*old(consumer));
            let after = received(*final(consumer));
            &&& after.take(before.len() as int) == before
            &&& after.len() >= before.len() + n
            &&& after.skip(after.len() - n) == final(buf)@.take(n as int)
            &&& !old(state).needs_buffer_clear ==> after.len() == before.len() + n
            &&& flushes(*final(consumer)) == flushes(*old(consumer)) + if old(
                state,
            ).needs_buffer_clear {
                1nat
            } else {
                0nat
            }
            &&& !final(state).needs_buffer_clear
            &&& final(state).current_position_samples == advanced(
                old(state).current_position_samples,
                n as nat / channels as nat,
            )
            &&& final(state).is_playing == old(state).is_playing
            &&& final(state).is_paused == old(state).is_paused
            &&& final(state).volume == old(state).volume
            &&& final(state).sample_rate == old(state).sample_rate
            &&& final(state).duration_samples == old(state).duration_samples
        },
{
    if !state.is_playing || state.is_paused {
        return 0;
    }
    if state.needs_buffer_clear {
        consumer.discard_queued();
        state.needs_buffer_clear = false;
    }
    let n = consumer.pop_into(buf);
    let frames = (n / channels as usize) as u64;
    state.current_position_samples = state.current_position_samples.saturating_add(frames);
    n
}

} // verus!
