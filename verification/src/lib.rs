//! Stream recording, track tracking and metadata handling for an internet radio client.

pub mod text;
pub mod channels;
pub mod streaming_reader;
pub mod recording;
pub mod http_stream;
pub mod track_info;
pub mod decoding;
pub mod playback;
pub mod database;
pub mod metadata;
pub mod window;
pub mod laws;
pub mod ui_text;
