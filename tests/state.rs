use tag_player::state::{
    change_volume, get_audio_position, mark_stopped, toggle_playback, PlaybackState,
};

#[test]
fn test_get_audio_position_while_playing() {
    let state = PlaybackState {
        is_playing: true,
        is_paused: false,
        volume: 0.5,
        current_position_samples: 48000,
        sample_rate: 48000,
        duration_samples: None,
        needs_buffer_clear: false,
    };
    let result = get_audio_position(&state);
    assert!(result.is_some());
    let position = result.unwrap();
    assert_eq!(
        position.position_samples as f64 / position.sample_rate as f64,
        1f64
    )
}

#[test]
fn test_get_audio_position_while_not_playing() {
    let state = PlaybackState {
        is_playing: false,
        is_paused: false,
        volume: 0.5,
        current_position_samples: 48000,
        sample_rate: 48000,
        duration_samples: None,
        needs_buffer_clear: false,
    };
    let result = get_audio_position(&state);
    assert!(result.is_none());
}

#[test]
fn audio_position_carries_duration() {
    let mut state = PlaybackState::new(0.5f32);
    state.is_playing = true;
    state.current_position_samples = 96000;
    state.duration_samples = Some(480000);
    let p = get_audio_position(&state).unwrap();
    assert_eq!(p.position_samples, 96000);
    assert_eq!(p.sample_rate, 48000);
    assert_eq!(p.duration_samples, Some(480000));
}

#[test]
fn new_state_is_stopped_at_default_rate() {
    let state = PlaybackState::new(0.5f32);
    assert!(!state.is_playing);
    assert!(!state.is_paused);
    assert_eq!(state.volume, 0.5);
    assert_eq!(state.current_position_samples, 0);
    assert_eq!(state.sample_rate, 48000);
    assert_eq!(state.duration_samples, None);
    assert!(!state.needs_buffer_clear);
}

#[test]
fn toggle_flips_pause_only() {
    let mut state = PlaybackState::new(0.5f32);
    toggle_playback(&mut state);
    assert!(state.is_paused);
    assert!(!state.is_playing);
    toggle_playback(&mut state);
    assert!(!state.is_paused);
}

#[test]
fn volume_is_stored_verbatim() {
    let mut state = PlaybackState::new(0.5f32);
    change_volume(&mut state, 1.5);
    assert_eq!(state.volume, 1.5);
    change_volume(&mut state, -0.25);
    assert_eq!(state.volume, -0.25);
}

#[test]
fn mark_stopped_clears_playing() {
    let mut state = PlaybackState::new(0.5f32);
    state.is_playing = true;
    state.current_position_samples = 7;
    mark_stopped(&mut state);
    assert!(!state.is_playing);
    assert_eq!(state.current_position_samples, 7);
}
