//! The messages that drive the engine.
use vstd::prelude::*;
use std::sync::mpsc::Sender;
use crate::seek::Seconds;

verus! {

/// Out-of-band orders for the decoder worker.
#[derive(Debug, Clone, Copy, PartialEq, Eq, Structural)]
pub enum DecoderCommand {
    /// Continue decoding from this frame.
    Seek(u64),
    Stop,
}

/// Orders for the command loop, processed one at a time in arrival order.
/// `V` is the type of the output gain.
pub enum AudioPlayerCommand<V> {
    /// Replace the current track by the file at this path and play it from the start.
    LoadAndPlay(String),
    TogglePlayback,
    VolumeChange(V),
    Seek(Seconds),
}

#[verifier::external_type_specification]
#[verifier::external_body]
#[verifier::reject_recursive_types(T)]
pub struct ExSender<T>(Sender<T>);

/// Relies on `std::sync::mpsc::Sender::send`: queues the command for the
/// receiving worker. Whether it arrives depends on that worker still
/// listening, so nothing is promised of the outcome.
#[verifier::external_body]
pub(crate) fn send_decoder_command(sender: &Sender<DecoderCommand>, command: DecoderCommand) -> (delivered: bool)
{
    sender.send(command).is_ok()
}

} // verus!
