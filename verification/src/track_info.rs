//! The current track as reported by the station's track service, and when to ask again.

use vstd::prelude::*;
use crate::channels::text_or;
use crate::text::{copy_text, opt_text, str_equal};

verus! {

/// A track as reported by the track service.
#[derive(Debug, Clone)]
pub struct TrackInfo {
    pub title: String,
    pub artist: String,
    pub album: Option<String>,
    pub duration: Option<u32>,
    pub started_at: Option<String>,
    pub artwork_url: Option<String>,
}

/// The fields of a track-service answer that a `TrackInfo` is made of: the string
/// fields `title`, `artistCredits`, `release`, `artwork` and the unsigned integer field
/// `duration` below `trackInfo`, and the string field `lastUpdated` at the top.
#[derive(Debug, Clone)]
pub struct TrackInfoPayload {
    pub title: Option<String>,
    pub artist_credits: Option<String>,
    pub release: Option<String>,
    pub duration: Option<u64>,
    pub last_updated: Option<String>,
    pub artwork: Option<String>,
}

/// Both options hold the same text, or both hold none.
pub open spec fn same_text(a: Option<String>, b: Option<String>) -> bool {
    opt_text(a) == opt_text(b)
}

/// The track that a track-service answer describes; missing names read `Unknown`.
pub fn track_info_from_payload(payload: &TrackInfoPayload) -> (t: TrackInfo)
    ensures
        t.title@ == text_or(payload.title, "Unknown"@),
        t.artist@ == text_or(payload.artist_credits, "Unknown"@),
        same_text(t.album, payload.release),
        t.duration == match payload.duration {
            Some(d) => Some(d as u32),
            None => None::<u32>,
        },
        same_text(t.started_at, payload.last_updated),
        same_text(t.artwork_url, payload.artwork),
{
    let title = match &payload.title {
        Some(s) => String::from_str(s.as_str()),
        None => String::from_str("Unknown"),
    };
    let artist = match &payload.artist_credits {
        Some(s) => String::from_str(s.as_str()),
        None => String::from_str("Unknown"),
    };
    let duration = match payload.duration {
        Some(d) => Some(d as u32),
        None => None,
    };
    TrackInfo {
        title,
        artist,
        album: copy_text(&payload.release),
        duration,
        started_at: copy_text(&payload.last_updated),
        artwork_url: copy_text(&payload.artwork),
    }
}

/// The reported track differs from the current one by title or artist, or there is no
/// current one.
pub open spec fn is_change(current: Option<TrackInfo>, new: TrackInfo) -> bool {
    match current {
        Some(c) => c.title@ != new.title@ || c.artist@ != new.artist@,
        None => true,
    }
}

/// Whether `new` is a different track from `current`.
pub fn is_track_change(current: &Option<TrackInfo>, new: &TrackInfo) -> (res: bool)
    ensures
        res == is_change(*current, *new),
{
    match current {
        Some(c) => !str_equal(c.title.as_str(), new.title.as_str()) || !str_equal(
            c.artist.as_str(),
            new.artist.as_str(),
        ),
        None => true,
    }
}

/// The save command (artist, title) owed when the track changes: the previous track is
/// saved where there was one and recording is on.
pub fn save_command_for(previous: &Option<TrackInfo>, recording: bool) -> (cmd: Option<(String, String)>)
    ensures
        cmd is Some <==> (previous is Some && recording),
        cmd matches Some(c) ==> c.0@ == previous->0.artist@ && c.1@ == previous->0.title@,
{
    match previous {
        Some(p) => {
            if recording {
                Some((p.artist.clone(), p.title.clone()))
            } else {
                None
            }
        },
        None => None,
    }
}

/// Whether the track service is due to be asked again: never asked, or at least
/// `interval_nanos` nanoseconds since the last time (`elapsed_nanos`).
pub fn update_due(elapsed_nanos: Option<u128>, interval_nanos: u128) -> (res: bool)
    ensures
        res == match elapsed_nanos {
            None => true,
            Some(e) => e >= interval_nanos,
        },
{
    match elapsed_nanos {
        None => true,
        Some(e) => e >= interval_nanos,
    }
}

} // verus!
