use vstd::prelude::*;

verus! {

/// Sample rate assumed before any track has been loaded.
pub const DEFAULT_SAMPLE_RATE: u32 = 48000;

/// The record shared by every part of the engine.
///
/// `V` is the type of the output gain. The engine stores it verbatim and
/// never computes with it; the output side multiplies samples by it.
pub struct PlaybackState<V> {
    /// A track is loaded and still progressing.
    pub is_playing: bool,
    /// Playback is halted by the user; independent of `is_playing`.
    pub is_paused: bool,
    /// Output gain.
    pub volume: V,
    /// Frames consumed per channel since the start of the track or the last seek.
    pub current_position_samples: u64,
    /// Sample rate of the loaded track.
    pub sample_rate: u32,
    /// Length of the track in frames, where the container knows it.
    pub duration_samples: Option<u64>,
    /// Set after a seek: the output must drop what is queued before playing on.
    pub needs_buffer_clear: bool,
}

/// What the position reporter publishes while a track plays.
pub struct AudioPosition {
    pub position_samples: u64,
    pub sample_rate: u32,
    pub duration_samples: Option<u64>,
}

/// The state with the pause flag flipped.
pub open spec fn toggled<V>(s: PlaybackState<V>) -> PlaybackState<V> {
    PlaybackState { is_paused: !s.is_paused, ..s }
}

/// The state with a new gain.
pub open spec fn with_volume<V>(s: PlaybackState<V>, volume: V) -> PlaybackState<V> {
    PlaybackState { volume, ..s }
}

/// The state with playback marked stopped.
pub open spec fn stopped<V>(s: PlaybackState<V>) -> PlaybackState<V> {
    PlaybackState { is_playing: false, ..s }
}

impl<V> PlaybackState<V> {
    /// The state before anything is loaded.
    pub fn new(volume: V) -> (s: Self)
        ensures
            !s.is_playing,
            !s.is_paused,
            s.volume == volume,
            s.current_position_samples == 0,
            s.sample_rate == DEFAULT_SAMPLE_RATE,
            s.duration_samples.is_none(),
            !s.needs_buffer_clear,
    {
        PlaybackState {
            is_playing: false,
            is_paused: false,
            volume,
            current_position_samples: 0,
            sample_rate: DEFAULT_SAMPLE_RATE,
            duration_samples: None,
            needs_buffer_clear: false,
        }
    }
}

/// Flips the pause flag and nothing else.
pub fn toggle_playback<V>(state: &mut PlaybackState<V>)
    ensures
        *final(state) == toggled(*old(state)),
{
    state.is_paused = !state.is_paused;
}

/// Stores the gain as given: no clamping.
pub fn change_volume<V>(state: &mut PlaybackState<V>, volume: V)
    ensures
        *final(state) == with_volume(*old(state), volume),
{
    state.volume = volume;
}

/// Marks playback stopped, so that the decoder and the output stop advancing.
pub fn mark_stopped<V>(state: &mut PlaybackState<V>)
    ensures
        *final(state) == stopped(*old(state)),
{
    state.is_playing = false;
}

/// One tick of the position reporter: a report while playing, nothing otherwise.
/// The state is only read.
pub fn get_audio_position<V>(state: &PlaybackState<V>) -> (r: Option<AudioPosition>)
    ensures
        r.is_some() <==> state.is_playing,
        r matches Some(p) ==> {
            &&& p.position_samples == state.current_position_samples
            &&& p.sample_rate == state.sample_rate
            &&& p.duration_samples == state.duration_samples
        },
{
    if !state.is_playing {
        return None;
    }
    Some(AudioPosition {
        position_samples: state.current_position_samples,
        sample_rate: state.sample_rate,
        duration_samples: state.duration_samples,
    })
}

} // verus!
