use std::sync::mpsc::channel;
use tag_player::command::DecoderCommand;
use tag_player::decoder::record_seek;
use tag_player::seek::{seek, seek_target_samples, Seconds};
use tag_player::state::PlaybackState;

fn secs(p: f64) -> Seconds {
    Seconds::from_f64_bits(p.to_bits())
}

#[test]
fn test_seek_with_valid_position_and_active_decoder() {
    let (sender, receiver) = channel::<DecoderCommand>();
    let state = PlaybackState {
        is_playing: true,
        is_paused: false,
        volume: 1.0,
        current_position_samples: 0,
        sample_rate: 48000,
        duration_samples: None,
        needs_buffer_clear: false,
    };
    let decoder_command_sender = Some(sender);
    seek(&state, &decoder_command_sender, secs(5.0));
    let command = receiver.recv().expect("Should receive seek command");
    match command {
        DecoderCommand::Seek(samples) => {
            assert_eq!(
                samples, 240000,
                "Seek command should contain correct sample count"
            );
        }
        _ => panic!("Expected DecoderCommand::Seek, got different command"),
    }
}

#[test]
fn seek_without_decoder_does_nothing() {
    let state = PlaybackState::new(1.0f32);
    assert_eq!(seek(&state, &None, secs(5.0)), None);
}

#[test]
fn seek_returns_the_command_sent() {
    let (sender, receiver) = channel::<DecoderCommand>();
    let mut state = PlaybackState::new(1.0f32);
    state.sample_rate = 44100;
    let sent = seek(&state, &Some(sender), secs(2.5));
    assert_eq!(sent, Some(DecoderCommand::Seek(110250)));
    assert_eq!(receiver.recv().unwrap(), DecoderCommand::Seek(110250));
}

#[test]
fn seconds_from_bits_exact() {
    assert_eq!(secs(5.0), Seconds { mantissa: 5 << 50, exponent: -50 });
    assert_eq!(secs(0.0), Seconds { mantissa: 0, exponent: -1074 });
    assert_eq!(secs(-3.0), Seconds { mantissa: 0, exponent: 0 });
    assert_eq!(secs(f64::NAN), Seconds { mantissa: 0, exponent: 0 });
    assert_eq!(secs(f64::INFINITY), Seconds { mantissa: 1, exponent: 1024 });
    assert_eq!(secs(f64::MIN_POSITIVE / 2.0), Seconds { mantissa: 1 << 51, exponent: -1074 });
}

#[test]
fn seek_target_rounds_to_nearest() {
    assert_eq!(seek_target_samples(secs(5.0), 48000), 240000);
    assert_eq!(seek_target_samples(secs(0.5), 3), 2);
    assert_eq!(seek_target_samples(secs(0.25), 2), 1);
    assert_eq!(seek_target_samples(secs(0.2), 3), 1);
    assert_eq!(seek_target_samples(secs(1.0 / 3.0), 44100), 14700);
    assert_eq!(seek_target_samples(secs(123.456), 48000), 5925888);
    assert_eq!(seek_target_samples(Seconds { mantissa: 7, exponent: -1 }, 1), 4);
    assert_eq!(seek_target_samples(Seconds { mantissa: 3, exponent: 4 }, 10), 480);
}

#[test]
fn seek_target_edges() {
    assert_eq!(seek_target_samples(secs(0.0), 48000), 0);
    assert_eq!(seek_target_samples(secs(-2.0), 48000), 0);
    assert_eq!(seek_target_samples(secs(f64::NAN), 48000), 0);
    assert_eq!(seek_target_samples(secs(f64::INFINITY), 48000), u64::MAX);
    assert_eq!(seek_target_samples(secs(1e300), 48000), u64::MAX);
    assert_eq!(seek_target_samples(secs(1e-300), 48000), 0);
    assert_eq!(seek_target_samples(secs(5.0), 0), 0);
}

#[test]
fn seek_target_matches_float_rounding_where_exact() {
    for tenths in 0u32..2000 {
        let p = tenths as f64 / 8.0;
        for rate in [8000u32, 22050, 44100, 48000, 96000] {
            let expected = (p * rate as f64).round() as u64;
            assert_eq!(seek_target_samples(secs(p), rate), expected);
        }
    }
}

#[test]
fn seek_sets_position_whatever_it_was() {
    for prior in [0u64, 17, 1_000_000] {
        let mut state = PlaybackState::new(1.0f32);
        state.current_position_samples = prior;
        let target = seek_target_samples(secs(3.0), state.sample_rate);
        record_seek(&mut state, target);
        assert_eq!(state.current_position_samples, 144000);
        assert!(state.needs_buffer_clear);
    }
}
