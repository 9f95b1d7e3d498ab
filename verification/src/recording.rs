//! Cutting the live stream into one recording per track.
//!
//! The station announces a new track some seconds after it has started. The recorder
//! keeps the audio since the last announcement; when the next one comes, the audio of
//! the previous track is everything up to that delay before the announcement, and a
//! margin of overlap is kept for the start of the next track.

use vstd::prelude::*;
use vstd::slice::{slice_subrange, slice_to_vec};
use crate::channels::TrackBoundary;
use crate::text::{concat3, sanitize_filename, sanitized};

verus! {

/// Seconds between the start of a track and its announcement.
pub const NEW_TRACK_DELAY: usize = 10;

/// Seconds kept before and after a track's boundaries.
pub const OVERLAP_SECONDS: usize = 20;

/// The byte count of `seconds` seconds of the stream (about 14 KiB per second).
pub open spec fn bytes_for_seconds(seconds: nat) -> nat {
    seconds * 14 * 1024
}

/// The file a track of `artist` and `title` is recorded to.
pub open spec fn recording_path(artist: Seq<char>, title: Seq<char>) -> Seq<char> {
    "./recordings/"@ + sanitized(artist) + " - "@ + sanitized(title) + ".aac"@
}

/// The audio a recorder keeps of `buffered` once it may hold at most `keep` bytes.
pub open spec fn retained(buffered: Seq<u8>, keep: nat) -> Seq<u8> {
    if buffered.len() > keep {
        buffered.skip(buffered.len() - keep)
    } else {
        buffered
    }
}

/// The number of bytes of `seconds` seconds of the stream.
pub fn seconds_to_bytes(seconds: usize) -> (b: usize)
    requires
        bytes_for_seconds(seconds as nat) <= usize::MAX,
    ensures
        b == bytes_for_seconds(seconds as nat),
{
    seconds * 14 * 1024
}

/// The path of the recording of a track of `artist` and `title`.
pub fn recording_file_name(artist: &str, title: &str) -> (res: String)
    ensures
        res@ == recording_path(artist@, title@),
        res@ == "./recordings/"@ + sanitized(artist@) + " - "@ + sanitized(title@) + ".aac"@,
{
    let a = sanitize_filename(artist);
    let t = sanitize_filename(title);
    let head = concat3("./recordings/", a.as_str(), " - ");
    concat3(head.as_str(), t.as_str(), ".aac")
}

/// A finished track, ready to be written.
#[derive(Debug)]
pub struct SavedTrack {
    pub track: TrackBoundary,
    pub file_name: String,
    pub data: Vec<u8>,
}

/// What the caller does after an announcement.
#[derive(Debug)]
pub enum BoundaryAction {
    /// Nothing to do.
    Nothing,
    /// The first complete track starts now: show that recording is on.
    StartRecording,
    /// Write this track.
    Save(SavedTrack),
}

/// The state of a recorder, as seen by its contracts.
pub ghost struct RecorderView {
    /// The track being played since the last announcement.
    pub current_track: Option<TrackBoundary>,
    /// The audio kept, oldest first.
    pub buffered: Seq<u8>,
    /// Whether an announcement with a track before it has been seen.
    pub first_track_seen: bool,
    /// All audio received so far.
    pub received: Seq<u8>,
    /// How many bytes at the front of `received` were let go.
    pub dropped: nat,
    /// Bytes between a track's start and its announcement.
    pub delay_bytes: nat,
    /// Bytes of margin kept around a track.
    pub overlap_bytes: nat,
}

/// Splits the stream into tracks at the announced boundaries.
pub struct TrackRecorder {
    current_track: Option<TrackBoundary>,
    track_buffer: Vec<u8>,
    first_track_seen: bool,
    delay_bytes: usize,
    overlap_bytes: usize,
    received: Ghost<Seq<u8>>,
    dropped: Ghost<nat>,
}

impl View for TrackRecorder {
    type V = RecorderView;

    closed spec fn view(&self) -> RecorderView {
        RecorderView {
            current_track: self.current_track,
            buffered: self.track_buffer@,
            first_track_seen: self.first_track_seen,
            received: self.received@,
            dropped: self.dropped@,
            delay_bytes: self.delay_bytes as nat,
            overlap_bytes: self.overlap_bytes as nat,
        }
    }
}

impl TrackRecorder {
    /// The recorder is well formed: the audio kept is the tail of the stream received.
    pub closed spec fn wf(self) -> bool {
        &&& self.dropped@ <= self.received@.len()
        &&& self.track_buffer@ == self.received@.skip(self.dropped@ as int)
        &&& self.delay_bytes as nat == bytes_for_seconds(NEW_TRACK_DELAY as nat)
        &&& self.overlap_bytes as nat == bytes_for_seconds(OVERLAP_SECONDS as nat)
    }

    /// A recorder that has heard nothing.
    pub fn new() -> (r: Self)
        ensures
            r.wf(),
            r@.current_track is None,
            r@.buffered == Seq::<u8>::empty(),
            !r@.first_track_seen,
            r@.received == Seq::<u8>::empty(),
            r@.dropped == 0,
            r@.delay_bytes == bytes_for_seconds(NEW_TRACK_DELAY as nat),
            r@.overlap_bytes == bytes_for_seconds(OVERLAP_SECONDS as nat),
    {
        let r = TrackRecorder {
            current_track: None,
            track_buffer: Vec::new(),
            first_track_seen: false,
            delay_bytes: seconds_to_bytes(NEW_TRACK_DELAY),
            overlap_bytes: seconds_to_bytes(OVERLAP_SECONDS),
            received: Ghost(Seq::empty()),
            dropped: Ghost(0),
        };
        proof {
            assert(r.track_buffer@ =~= r.received@.skip(0));
        }
        r
    }

    /// The audio kept is what was received, less a prefix that was let go.
    pub proof fn audio_is_stream_tail(&self)
        requires
            self.wf(),
        ensures
            self@.dropped <= self@.received.len(),
            self@.buffered == self@.received.skip(self@.dropped as int),
            self@.delay_bytes == bytes_for_seconds(NEW_TRACK_DELAY as nat),
            self@.overlap_bytes == bytes_for_seconds(OVERLAP_SECONDS as nat),
    {
    }

    /// Number of bytes kept.
    pub fn buffered_len(&self) -> (n: usize)
        ensures
            n == self@.buffered.len(),
    {
        self.track_buffer.len()
    }

    /// Keeps a chunk of audio at the end of the buffer.
    pub fn on_audio_chunk(&mut self, chunk: &[u8])
        requires
            old(self).wf(),
        ensures
            final(self).wf(),
            final(self)@ == (RecorderView {
                buffered: old(self)@.buffered + chunk@,
                received: old(self)@.received + chunk@,
                ..old(self)@
            }),
    {
        let mut more = slice_to_vec(chunk);
        self.track_buffer.append(&mut more);
        self.received = Ghost(self.received@ + chunk@);
        proof {
            assert(self.track_buffer@ =~= self.received@.skip(self.dropped@ as int));
        }
    }

    /// Handles the announcement of a new track. Where a track was playing before it:
    /// on the first such announcement recording starts; on later ones the audio up to
    /// the announcement delay is handed back as that track's recording. Then all but the
    /// last delay-plus-overlap bytes are let go. The announced track becomes current.
    pub fn on_track_boundary(&mut self, boundary: TrackBoundary) -> (action: BoundaryAction)
        requires
            old(self).wf(),
        ensures
            final(self).wf(),
            final(self)@.current_track == Some(boundary),
            final(self)@.received == old(self)@.received,
            final(self)@.delay_bytes == old(self)@.delay_bytes,
            final(self)@.overlap_bytes == old(self)@.overlap_bytes,
            final(self)@.dropped <= final(self)@.received.len(),
            final(self)@.buffered == final(self)@.received.skip(final(self)@.dropped as int),
            old(self)@.current_track is None ==> {
                &&& action is Nothing
                &&& final(self)@.buffered == old(self)@.buffered
                &&& final(self)@.first_track_seen == old(self)@.first_track_seen
            },
            old(self)@.current_track matches Some(prev) ==> {
                &&& final(self)@.first_track_seen
                &&& final(self)@.buffered == retained(
                    old(self)@.buffered,
                    old(self)@.delay_bytes + old(self)@.overlap_bytes,
                )
                &&& !old(self)@.first_track_seen ==> action is StartRecording
                &&& old(self)@.first_track_seen && old(self)@.buffered.len()
                    <= old(self)@.delay_bytes ==> action is Nothing
                &&& old(self)@.first_track_seen && old(self)@.buffered.len()
                    > old(self)@.delay_bytes ==> (action matches BoundaryAction::Save(s) && {
                    &&& s.track == prev
                    &&& s.file_name@ == recording_path(prev.artist@, prev.title@)
                    &&& s.data@ == old(self)@.buffered.take(
                        old(self)@.buffered.len() - old(self)@.delay_bytes,
                    )
                    &&& s.data@ == old(self)@.received.subrange(
                        old(self)@.dropped as int,
                        old(self)@.received.len() - old(self)@.delay_bytes,
                    )
                })
            },
    {
        let mut prev: Option<TrackBoundary> = None;
        std::mem::swap(&mut prev, &mut self.current_track);
        let action = match prev {
            None => BoundaryAction::Nothing,
            Some(prev) => {
                let len = self.track_buffer.len();
                let action = if self.first_track_seen {
                    if len > self.delay_bytes {
                        let cut = len - self.delay_bytes;
                        let data = slice_to_vec(slice_subrange(self.track_buffer.as_slice(), 0, cut));
                        let file_name = recording_file_name(prev.artist.as_str(), prev.title.as_str());
                        proof {
                            assert(data@ =~= self.received@.subrange(
                                self.dropped@ as int,
                                self.received@.len() - self.delay_bytes,
                            ));
                        }
                        BoundaryAction::Save(SavedTrack { track: prev, file_name, data })
                    } else {
                        BoundaryAction::Nothing
                    }
                } else {
                    self.first_track_seen = true;
                    BoundaryAction::StartRecording
                };
                let keep = self.delay_bytes + self.overlap_bytes;
                if len > keep {
                    let dump = len - keep;
                    let rest = self.track_buffer.split_off(dump);
                    self.track_buffer = rest;
                    self.dropped = Ghost(self.dropped@ + dump as nat);
                    proof {
                        assert(self.track_buffer@ =~= self.received@.skip(self.dropped@ as int));
                    }
                }
                action
            },
        };
        self.current_track = Some(boundary);
        action
    }
}

} // verus!
