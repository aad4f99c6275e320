//! The command loop's decisions. The loop itself, the probe, the output
//! stream and the worker threads run outside and follow what these say.
use vstd::prelude::*;
use std::sync::mpsc::Sender;
use crate::command::{AudioPlayerCommand, DecoderCommand, send_decoder_command};
use crate::queue::{SampleProducer, SampleConsumer, producer_capacity, consumer_capacity, sent, received};
use crate::seek::{seek, seek_target};
use crate::state::{
    PlaybackState, toggle_playback, change_volume, mark_stopped, toggled, with_volume, stopped,
};
use crate::track::{LoadError, TrackFormat, track_format, format_of, create_sample_queue};

verus! {

/// Carries out one command on the shared state. A `LoadAndPlay` is only
/// handed back, as the path to load: loading is done outside, through
/// `begin_load` and `prepare_track`. A seek also returns the command sent to
/// the decoder.
pub fn handle_command<V>(
    state: &mut PlaybackState<V>,
    decoder_command_sender: &Option<Sender<DecoderCommand>>,
    command: AudioPlayerCommand<V>,
) -> (r: (Option<String>, Option<DecoderCommand>))
    ensures
        match command {
            AudioPlayerCommand::LoadAndPlay(path) => {
                &&& r.0 == Some(path)
                &&& r.1.is_none()
                &&& *final(state) == *old(state)
            },
            AudioPlayerCommand::TogglePlayback => {
                &&& r.0.is_none()
                &&& r.1.is_none()
                &&& *final(state) == toggled(*old(state))
            },
            AudioPlayerCommand::VolumeChange(v) => {
                &&& r.0.is_none()
                &&& r.1.is_none()
                &&& *final(state) == with_volume(*old(state), v)
            },
            AudioPlayerCommand::Seek(p) => {
                &&& r.0.is_none()
                &&& *final(state) == *old(state)
                &&& r.1 == if decoder_command_sender.is_some() {
                    Some(DecoderCommand::Seek(seek_target(p, old(state).sample_rate)))
                } else {
                    None
                }
            },
        },
{
    match command {
        AudioPlayerCommand::LoadAndPlay(path) => (Some(path), None),
        AudioPlayerCommand::TogglePlayback => {
            toggle_playback(state);
            (None, None)
        },
        AudioPlayerCommand::VolumeChange(v) => {
            change_volume(state, v);
            (None, None)
        },
        AudioPlayerCommand::Seek(p) => {
            let sent_command = seek(state, decoder_command_sender, p);
            (None, sent_command)
        },
    }
}

/// The command handed to the decoder whose channel is `sender`, if any, when
/// it is dismissed.
pub open spec fn stop_sent(sender: Option<Sender<DecoderCommand>>) -> Option<DecoderCommand> {
    if sender.is_some() {
        Some(DecoderCommand::Stop)
    } else {
        None
    }
}

/// First part of a load: playback is marked stopped, and the active decoder,
/// if any, is handed `Stop` and its command channel given up. Returns the
/// command handed over. The caller then detaches the old worker and drops
/// the old output stream before building anything new; whatever happens to
/// the load afterwards, the old decoder has been told to stop.
pub fn begin_load<V>(
    state: &mut PlaybackState<V>,
    decoder_command_sender: &mut Option<Sender<DecoderCommand>>,
) -> (sent: Option<DecoderCommand>)
    ensures
        sent == stop_sent(*old(decoder_command_sender)),
        final(decoder_command_sender).is_none(),
        *final(state) == stopped(*old(state)),
{
    mark_stopped(state);
    match decoder_command_sender.take() {
        Some(sender) => {
            let command = DecoderCommand::Stop;
            send_decoder_command(&sender, command);
            Some(command)
        },
        None => None,
    }
}

/// A track ready to play: its format and an empty queue of one second.
pub struct PreparedTrack {
    pub format: TrackFormat,
    pub producer: SampleProducer,
    pub consumer: SampleConsumer,
}

/// Second part of a load, once the file has been probed: the format of its
/// default track, and the queue sized for it (`rate × channels` samples).
pub fn prepare_track(sample_rate: Option<u32>, channels: Option<u16>) -> (r: Result<PreparedTrack, LoadError>)
    ensures
        match (format_of(sample_rate, channels), r) {
            (Ok(f), Ok(t)) => {
                &&& t.format == f
                &&& producer_capacity(t.producer) == f.samples_per_second()
                &&& consumer_capacity(t.consumer) == f.samples_per_second()
                &&& sent(t.producer).len() == 0
                &&& received(t.consumer).len() == 0
            },
            (Err(e), Err(e2)) => e == e2,
            _ => false,
        },
{
    match track_format(sample_rate, channels) {
        Ok(format) => {
            let (producer, consumer) = create_sample_queue(&format);
            Ok(PreparedTrack { format, producer, consumer })
        },
        Err(e) => Err(e),
    }
}

/// Last part of a load: the new decoder's command channel takes the place
/// that `begin_load` emptied. There is never more than one.
pub fn install_decoder(
    decoder_command_sender: &mut Option<Sender<DecoderCommand>>,
    sender: Sender<DecoderCommand>,
)
    requires
        old(decoder_command_sender).is_none(),
    ensures
        *final(decoder_command_sender) == Some(sender),
{
    *decoder_command_sender = Some(sender);
}

/// The command channel has closed: playback is marked stopped and the
/// decoder, if any, handed `Stop`. Returns the command handed over; the
/// caller then waits for that decoder.
pub fn shut_down<V>(
    state: &mut PlaybackState<V>,
    decoder_command_sender: Option<Sender<DecoderCommand>>,
) -> (sent: Option<DecoderCommand>)
    ensures
        sent == stop_sent(decoder_command_sender),
        *final(state) == stopped(*old(state)),
{
    mark_stopped(state);
    match decoder_command_sender {
        Some(sender) => {
            let command = DecoderCommand::Stop;
            send_decoder_command(&sender, command);
            Some(command)
        },
        None => None,
    }
}

} // verus!
