//! Channel directory, track boundaries and the state shown to the user.

use vstd::prelude::*;
use crate::text::{concat3, contains_str, occurs_in, str_equal};

verus! {

/// One audio stream that a channel offers.
#[derive(Debug, Clone)]
pub struct StreamInfo {
    pub bitrate: u32,
    pub encoding: String,
    pub name: String,
    pub url: String,
}

/// A channel of the directory.
#[derive(Debug, Clone)]
pub struct ChannelInfo {
    pub channel_id: String,
    pub cover_image: Option<String>,
    pub display_name: String,
    pub name: String,
    pub streams: Vec<StreamInfo>,
    pub sub_title: Option<String>,
    pub summary: Option<String>,
}

/// One page of the channel directory.
#[derive(Debug)]
pub struct ChannelResponse {
    pub items: Vec<ChannelInfo>,
    pub next: Option<String>,
    pub size: usize,
}

/// The track that the station reports as playing from now on.
#[derive(Debug, Clone)]
pub struct TrackBoundary {
    pub artist: String,
    pub title: String,
    pub artwork_url: Option<String>,
}

/// What the user interface shows.
#[derive(Debug, Clone)]
pub struct AppState {
    pub is_streaming: bool,
    pub is_playing: bool,
    pub is_recording: bool,
    pub current_track: Option<TrackBoundary>,
    pub stream_status: String,
    pub current_channel: Option<ChannelInfo>,
}

impl Default for AppState {
    fn default() -> (s: Self)
        ensures
            !s.is_streaming,
            !s.is_playing,
            !s.is_recording,
            s.current_track is None,
            s.stream_status@ == Seq::<char>::empty(),
            s.current_channel is None,
    {
        AppState {
            is_streaming: false,
            is_playing: false,
            is_recording: false,
            current_track: None,
            stream_status: String::new(),
            current_channel: None,
        }
    }
}

/// The fields of the station's current-track answer that a track boundary is made of:
/// each is the value of the field below `trackInfo` where that value is a JSON string.
#[derive(Debug, Clone)]
pub struct CurrentTrackPayload {
    pub artist_credits: Option<String>,
    pub title: Option<String>,
    pub artwork: Option<String>,
}

/// Polling state of the current-track watcher.
#[derive(Debug)]
pub struct TrackPoller {
    /// Key (`artist_title`) of the last track that was handed on.
    pub last_track_id: Option<String>,
    /// Seconds between two polls.
    pub interval_secs: u64,
}

/// Seconds between two polls of the current track.
pub const POLL_INTERVAL_SECS: u64 = 5;

/// Seconds between two polls once a poll has failed.
pub const ERROR_POLL_INTERVAL_SECS: u64 = 30;

/// The polling interval after a failed poll at interval `secs`.
pub open spec fn interval_after_error(secs: u64) -> u64 {
    if secs < ERROR_POLL_INTERVAL_SECS {
        ERROR_POLL_INTERVAL_SECS
    } else {
        secs
    }
}

/// The host whose artwork can be asked for in several sizes.
pub open spec fn artwork_cdn_host() -> Seq<char> {
    "fluxmusic.cdn.radiosphere.io"@
}

/// `url` asking for the artwork size `size` where the artwork host serves it, else `url` itself.
pub open spec fn sized_artwork_url(url: Seq<char>, size: Seq<char>) -> Seq<char> {
    if occurs_in(artwork_cdn_host(), url) {
        url + "?type="@ + size
    } else {
        url
    }
}

/// The text of `v`, or `default` where there is none.
pub open spec fn text_or(v: Option<String>, default: Seq<char>) -> Seq<char> {
    match v {
        Some(s) => s@,
        None => default,
    }
}

/// `i` is the first position of `items` whose channel is named `name`.
pub open spec fn is_first_named(items: Seq<ChannelInfo>, name: Seq<char>, i: int) -> bool {
    &&& 0 <= i < items.len()
    &&& items[i].name@ == name
    &&& forall|j: int| 0 <= j < i ==> #[trigger] items[j].name@ != name
}

/// Some channel of `items` is named `name`.
pub open spec fn has_channel_named(items: Seq<ChannelInfo>, name: Seq<char>) -> bool {
    exists|i: int| 0 <= i < items.len() && #[trigger] items[i].name@ == name
}

/// The stream is the 320 kbit/s AAC stream.
pub open spec fn is_preferred_stream(s: StreamInfo) -> bool {
    s.bitrate == 320 && s.encoding@ == "aac"@
}

/// `i` is the first position of `streams` that holds the preferred stream.
pub open spec fn is_first_preferred(streams: Seq<StreamInfo>, i: int) -> bool {
    &&& 0 <= i < streams.len()
    &&& is_preferred_stream(streams[i])
    &&& forall|j: int| 0 <= j < i ==> !is_preferred_stream(#[trigger] streams[j])
}

/// The key by which two reports of the current track are told apart.
pub open spec fn track_key_of(artist: Seq<char>, title: Seq<char>) -> Seq<char> {
    artist + "_"@ + title
}

/// The address of the current-track answer of a channel.
pub open spec fn current_track_url_of(channel_id: Seq<char>) -> Seq<char> {
    "https://fluxmusic.api.radiosphere.io/channels/"@ + channel_id + "/current-track"@
}

/// The first channel of `response` named `name`, if any.
pub fn find_channel<'a>(response: &'a ChannelResponse, name: &str) -> (res: Option<&'a ChannelInfo>)
    ensures
        res is None <==> !has_channel_named(response.items@, name@),
        res matches Some(c) ==> exists|i: int|
            is_first_named(response.items@, name@, i) && *c == #[trigger] response.items@[i],
{
    let mut i: usize = 0;
    while i < response.items.len()
        invariant
            i <= response.items@.len(),
            forall|j: int| 0 <= j < i ==> #[trigger] response.items@[j].name@ != name@,
        decreases response.items@.len() - i,
    {
        if str_equal(response.items[i].name.as_str(), name) {
            assert(is_first_named(response.items@, name@, i as int));
            return Some(&response.items[i]);
        }
        i = i + 1;
    }
    None
}

/// The first 320 kbit/s AAC stream of `channel`, if any.
pub fn preferred_stream(channel: &ChannelInfo) -> (res: Option<&StreamInfo>)
    ensures
        res is None <==> forall|j: int|
            0 <= j < channel.streams@.len() ==> !is_preferred_stream(#[trigger] channel.streams@[j]),
        res matches Some(s) ==> exists|i: int|
            is_first_preferred(channel.streams@, i) && *s == #[trigger] channel.streams@[i],
{
    let mut i: usize = 0;
    while i < channel.streams.len()
        invariant
            i <= channel.streams@.len(),
            forall|j: int| 0 <= j < i ==> !is_preferred_stream(#[trigger] channel.streams@[j]),
        decreases channel.streams@.len() - i,
    {
        let s = &channel.streams[i];
        if s.bitrate == 320 && str_equal(s.encoding.as_str(), "aac") {
            assert(is_first_preferred(channel.streams@, i as int));
            return Some(s);
        }
        i = i + 1;
    }
    None
}

/// `url` asking for the large artwork where the artwork host serves it.
pub fn large_artwork_url(url: &str) -> (res: String)
    ensures
        res@ == sized_artwork_url(url@, "large"@),
        occurs_in("fluxmusic.cdn.radiosphere.io"@, url@) ==> res@ == url@ + "?type="@ + "large"@,
        !occurs_in("fluxmusic.cdn.radiosphere.io"@, url@) ==> res@ == url@,
{
    if contains_str(url, "fluxmusic.cdn.radiosphere.io") {
        concat3(url, "?type=", "large")
    } else {
        String::from_str(url)
    }
}

/// The track boundary that a current-track answer reports.
pub fn track_boundary_from_payload(payload: &CurrentTrackPayload) -> (t: TrackBoundary)
    ensures
        t.artist@ == text_or(payload.artist_credits, "Unknown Artist"@),
        t.title@ == text_or(payload.title, "Unknown Track"@),
        t.artwork_url is Some <==> payload.artwork is Some,
        payload.artwork matches Some(a) ==> t.artwork_url->0@ == sized_artwork_url(a@, "large"@),
        payload.artwork matches Some(a) ==> t.artwork_url->0@ == if occurs_in(
            "fluxmusic.cdn.radiosphere.io"@,
            a@,
        ) {
            a@ + "?type="@ + "large"@
        } else {
            a@
        },
{
    let artist = match &payload.artist_credits {
        Some(a) => String::from_str(a.as_str()),
        None => String::from_str("Unknown Artist"),
    };
    let title = match &payload.title {
        Some(a) => String::from_str(a.as_str()),
        None => String::from_str("Unknown Track"),
    };
    let artwork_url = match &payload.artwork {
        Some(a) => Some(large_artwork_url(a.as_str())),
        None => None,
    };
    TrackBoundary { artist, title, artwork_url }
}

/// The key `artist_title` of a track.
pub fn track_key(track: &TrackBoundary) -> (res: String)
    ensures
        res@ == track_key_of(track.artist@, track.title@),
{
    concat3(track.artist.as_str(), "_", track.title.as_str())
}

/// The address of the current-track answer of the channel `channel_id`.
pub fn current_track_api_url(channel_id: &str) -> (res: String)
    ensures
        res@ == current_track_url_of(channel_id@),
{
    concat3("https://fluxmusic.api.radiosphere.io/channels/", channel_id, "/current-track")
}

impl TrackPoller {
    /// A watcher that has handed on no track yet and polls at the normal rate.
    pub fn new() -> (p: Self)
        ensures
            p.last_track_id is None,
            p.interval_secs == POLL_INTERVAL_SECS,
    {
        TrackPoller { last_track_id: None, interval_secs: POLL_INTERVAL_SECS }
    }

    /// The key of `track` where it differs from the last track handed on; `None` where the
    /// station still reports that track.
    pub fn changed_key(&self, track: &TrackBoundary) -> (res: Option<String>)
        ensures
            res is None <==> (self.last_track_id matches Some(k) && k@ == track_key_of(
                track.artist@,
                track.title@,
            )),
            res matches Some(k) ==> k@ == track_key_of(track.artist@, track.title@),
    {
        let key = track_key(track);
        match &self.last_track_id {
            Some(last) => {
                if str_equal(last.as_str(), key.as_str()) {
                    None
                } else {
                    Some(key)
                }
            },
            None => Some(key),
        }
    }

    /// Records that the track with key `key` was handed on.
    pub fn mark_sent(&mut self, key: String)
        ensures
            final(self).last_track_id == Some(key),
            final(self).interval_secs == old(self).interval_secs,
    {
        self.last_track_id = Some(key);
    }

    /// After a failed poll: slows polling down to the error rate where it is faster.
    /// Returns whether the rate changed.
    pub fn on_fetch_error(&mut self) -> (slowed: bool)
        ensures
            slowed == (old(self).interval_secs < ERROR_POLL_INTERVAL_SECS),
            final(self).interval_secs == interval_after_error(old(self).interval_secs),
            final(self).last_track_id == old(self).last_track_id,
    {
        if self.interval_secs < ERROR_POLL_INTERVAL_SECS {
            self.interval_secs = ERROR_POLL_INTERVAL_SECS;
            true
        } else {
            false
        }
    }
}

} // verus!
