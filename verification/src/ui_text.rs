//! The texts of the user interface.

use vstd::prelude::*;
use crate::channels::AppState;
use crate::text::concat3;

verus! {

/// `true` or `false`.
pub open spec fn bool_text(b: bool) -> Seq<char> {
    if b {
        "true"@
    } else {
        "false"@
    }
}

/// The status line for `state`.
pub open spec fn status_text(state: AppState) -> Seq<char> {
    "Streaming: "@ + bool_text(state.is_streaming) + " | Playing: "@ + bool_text(state.is_playing)
        + " | Recording: "@ + bool_text(state.is_recording) + " | "@ + state.stream_status@
}

/// The track line for `state`.
pub open spec fn track_text(state: AppState) -> Seq<char> {
    match state.current_track {
        Some(t) => "\u{1F3B5} "@ + t.artist@ + " - "@ + t.title@,
        None => "No track playing"@,
    }
}

fn bool_str(b: bool) -> (s: &'static str)
    ensures
        s@ == bool_text(b),
{
    if b {
        "true"
    } else {
        "false"
    }
}

/// The status line: streaming, playing and recording flags, then the stream status.
pub fn status_line(state: &AppState) -> (res: String)
    ensures
        res@ == status_text(*state),
        res@ == "Streaming: "@ + (if state.is_streaming {
            "true"@
        } else {
            "false"@
        }) + " | Playing: "@ + (if state.is_playing {
            "true"@
        } else {
            "false"@
        }) + " | Recording: "@ + (if state.is_recording {
            "true"@
        } else {
            "false"@
        }) + " | "@ + state.stream_status@,
{
    let a = concat3("Streaming: ", bool_str(state.is_streaming), " | Playing: ");
    let b = concat3(a.as_str(), bool_str(state.is_playing), " | Recording: ");
    let c = concat3(b.as_str(), bool_str(state.is_recording), " | ");
    let mut out = c;
    out.append(state.stream_status.as_str());
    out
}

/// The track line: the current track's artist and title, or that none is playing.
pub fn track_line(state: &AppState) -> (res: String)
    ensures
        res@ == track_text(*state),
        state.current_track matches Some(t) ==> res@ == "\u{1F3B5} "@ + t.artist@ + " - "@ + t.title@,
        state.current_track is None ==> res@ == "No track playing"@,
{
    match &state.current_track {
        Some(t) => {
            let a = concat3("\u{1F3B5} ", t.artist.as_str(), " - ");
            let mut out = a;
            out.append(t.title.as_str());
            out
        },
        None => String::from_str("No track playing"),
    }
}

} // verus!
