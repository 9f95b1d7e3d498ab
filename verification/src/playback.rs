//! Buffering for the playback thread, and recording on explicit save commands.
//!
//! The playback thread gathers chunks until there is enough to hand a piece to the
//! decoder; a piece the decoder cannot read yet is kept and grown, within a bound.
//! The recording side keeps everything since the last save command.

use vstd::prelude::*;
use vstd::slice::slice_to_vec;
use crate::recording::{recording_file_name, recording_path};

verus! {

/// Decoding is tried once this many bytes are gathered.
pub const PLAYBACK_TARGET_BYTES: usize = 32768;

/// What the playback buffer holds after a failed decode of `data`.
pub open spec fn after_failed_decode(data: Seq<u8>) -> Seq<u8> {
    if data.len() > 4 * PLAYBACK_TARGET_BYTES {
        data.skip(PLAYBACK_TARGET_BYTES as int)
    } else {
        data
    }
}

/// Audio gathered for the decoder.
#[derive(Debug)]
pub struct PlaybackBuffer {
    data: Vec<u8>,
}

impl View for PlaybackBuffer {
    type V = Seq<u8>;

    closed spec fn view(&self) -> Seq<u8> {
        self.data@
    }
}

impl PlaybackBuffer {
    /// An empty buffer.
    pub fn new() -> (b: Self)
        ensures
            b@ == Seq::<u8>::empty(),
    {
        PlaybackBuffer { data: Vec::new() }
    }

    /// Adds a chunk; returns whether enough is gathered to try decoding.
    pub fn on_chunk(&mut self, chunk: &[u8]) -> (ready: bool)
        ensures
            final(self)@ == old(self)@ + chunk@,
            ready == (final(self)@.len() >= PLAYBACK_TARGET_BYTES),
    {
        let mut more = slice_to_vec(chunk);
        self.data.append(&mut more);
        self.data.len() >= PLAYBACK_TARGET_BYTES
    }

    /// The bytes gathered, to hand to the decoder.
    pub fn pending(&self) -> (s: &[u8])
        ensures
            s@ == self@,
    {
        self.data.as_slice()
    }

    /// Takes in the decoder's verdict on the pending bytes: once decoded they are
    /// dropped; otherwise they are kept, less the oldest `PLAYBACK_TARGET_BYTES` where
    /// more than four times that many are held.
    pub fn on_decode_result(&mut self, decoded: bool)
        ensures
            decoded ==> final(self)@ == Seq::<u8>::empty(),
            !decoded ==> final(self)@ == after_failed_decode(old(self)@),
            !decoded && old(self)@.len() > 4 * PLAYBACK_TARGET_BYTES ==> final(self)@ == old(
                self,
            )@.skip(PLAYBACK_TARGET_BYTES as int),
            !decoded && old(self)@.len() <= 4 * PLAYBACK_TARGET_BYTES ==> final(self)@ == old(self)@,
    {
        if decoded {
            self.data.clear();
        } else if self.data.len() > 4 * PLAYBACK_TARGET_BYTES {
            let rest = self.data.split_off(PLAYBACK_TARGET_BYTES);
            self.data = rest;
        }
    }
}

/// A recording to be written to a file.
#[derive(Debug)]
pub struct RecordingFile {
    pub file_name: String,
    pub data: Vec<u8>,
}

/// Audio kept since the last save command.
#[derive(Debug)]
pub struct CommandRecorder {
    data: Vec<u8>,
}

impl View for CommandRecorder {
    type V = Seq<u8>;

    closed spec fn view(&self) -> Seq<u8> {
        self.data@
    }
}

impl CommandRecorder {
    /// Nothing recorded.
    pub fn new() -> (r: Self)
        ensures
            r@ == Seq::<u8>::empty(),
    {
        CommandRecorder { data: Vec::new() }
    }

    /// Keeps a chunk.
    pub fn on_chunk(&mut self, chunk: &[u8])
        ensures
            final(self)@ == old(self)@ + chunk@,
    {
        let mut more = slice_to_vec(chunk);
        self.data.append(&mut more);
    }

    /// A save command for the track of `artist` and `title`: where anything was kept,
    /// it all goes to that track's file and recording starts afresh.
    pub fn on_save_command(&mut self, artist: &str, title: &str) -> (file: Option<RecordingFile>)
        ensures
            old(self)@.len() == 0 ==> file is None && final(self)@ == old(self)@,
            old(self)@.len() > 0 ==> (file matches Some(f) && f.data@ == old(self)@
                && f.file_name@ == recording_path(artist@, title@)),
            final(self)@ == Seq::<u8>::empty(),
    {
        if self.data.len() == 0 {
            return None;
        }
        let mut data: Vec<u8> = Vec::new();
        std::mem::swap(&mut data, &mut self.data);
        Some(RecordingFile { file_name: recording_file_name(artist, title), data })
    }

    /// Drops what was kept (a stream stopped mid-track is not recorded).
    pub fn discard(&mut self)
        ensures
            final(self)@ == Seq::<u8>::empty(),
    {
        self.data.clear();
    }
}

} // verus!
