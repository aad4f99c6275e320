//! A verified core for an audio playback engine: the shared playback record,
//! the sample queue between decoder and output, and the decisions taken by
//! the command loop, the decoder worker and the output callback.

pub mod command;
pub mod decoder;
pub mod files;
pub mod output;
pub mod player;
pub mod query;
pub mod queue;
pub mod seek;
pub mod state;
pub mod tags;
pub mod track;
