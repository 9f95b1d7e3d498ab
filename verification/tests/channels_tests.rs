use aircrate::channels::{
    current_track_api_url, find_channel, large_artwork_url, preferred_stream, track_boundary_from_payload,
    track_key, AppState, ChannelInfo, ChannelResponse, CurrentTrackPayload, StreamInfo, TrackBoundary,
    TrackPoller, ERROR_POLL_INTERVAL_SECS, POLL_INTERVAL_SECS,
};

fn stream(bitrate: u32, encoding: &str, url: &str) -> StreamInfo {
    StreamInfo { bitrate, encoding: encoding.to_string(), name: format!("{}-{}", encoding, bitrate), url: url.to_string() }
}

fn channel(id: &str, name: &str, streams: Vec<StreamInfo>) -> ChannelInfo {
    ChannelInfo {
        channel_id: id.to_string(),
        cover_image: None,
        display_name: name.to_uppercase(),
        name: name.to_string(),
        streams,
        sub_title: None,
        summary: None,
    }
}

#[test]
fn find_channel_picks_first_with_name() {
    let response = ChannelResponse {
        items: vec![channel("1", "chill", vec![]), channel("2", "flux", vec![]), channel("3", "flux", vec![])],
        next: None,
        size: 3,
    };
    assert_eq!(find_channel(&response, "flux").map(|c| c.channel_id.clone()), Some("2".to_string()));
    assert!(find_channel(&response, "rock").is_none());
    let empty = ChannelResponse { items: vec![], next: None, size: 0 };
    assert!(find_channel(&empty, "flux").is_none());
}

#[test]
fn preferred_stream_is_first_aac_320() {
    let c = channel(
        "1",
        "flux",
        vec![stream(128, "aac", "u1"), stream(320, "mp3", "u2"), stream(320, "aac", "u3"), stream(320, "aac", "u4")],
    );
    assert_eq!(preferred_stream(&c).map(|s| s.url.clone()), Some("u3".to_string()));
    let none = channel("1", "flux", vec![stream(128, "aac", "u1"), stream(320, "AAC", "u2")]);
    assert!(preferred_stream(&none).is_none());
}

#[test]
fn artwork_is_enlarged_only_on_the_cdn() {
    assert_eq!(
        large_artwork_url("https://fluxmusic.cdn.radiosphere.io/x.jpg"),
        "https://fluxmusic.cdn.radiosphere.io/x.jpg?type=large"
    );
    assert_eq!(large_artwork_url("https://example.org/x.jpg"), "https://example.org/x.jpg");
}

#[test]
fn track_boundary_defaults() {
    let t = track_boundary_from_payload(&CurrentTrackPayload { artist_credits: None, title: None, artwork: None });
    assert_eq!(t.artist, "Unknown Artist");
    assert_eq!(t.title, "Unknown Track");
    assert!(t.artwork_url.is_none());
    let t = track_boundary_from_payload(&CurrentTrackPayload {
        artist_credits: Some("Moderat".to_string()),
        title: Some("A New Error".to_string()),
        artwork: Some("https://fluxmusic.cdn.radiosphere.io/a.png".to_string()),
    });
    assert_eq!(t.artist, "Moderat");
    assert_eq!(t.title, "A New Error");
    assert_eq!(t.artwork_url.as_deref(), Some("https://fluxmusic.cdn.radiosphere.io/a.png?type=large"));
}

#[test]
fn track_keys_and_urls() {
    let t = TrackBoundary { artist: "A".to_string(), title: "B".to_string(), artwork_url: None };
    assert_eq!(track_key(&t), "A_B");
    assert_eq!(current_track_api_url("abc"), "https://fluxmusic.api.radiosphere.io/channels/abc/current-track");
}

#[test]
fn poller_hands_on_each_track_once() {
    let mut p = TrackPoller::new();
    assert_eq!(p.interval_secs, POLL_INTERVAL_SECS);
    let a = TrackBoundary { artist: "A".to_string(), title: "B".to_string(), artwork_url: None };
    let key = p.changed_key(&a).expect("first track is new");
    assert_eq!(key, "A_B");
    p.mark_sent(key);
    assert!(p.changed_key(&a).is_none());
    let b = TrackBoundary { artist: "A".to_string(), title: "C".to_string(), artwork_url: None };
    assert_eq!(p.changed_key(&b).as_deref(), Some("A_C"));
}

#[test]
fn poller_backs_off_once_on_errors() {
    let mut p = TrackPoller::new();
    assert!(p.on_fetch_error());
    assert_eq!(p.interval_secs, ERROR_POLL_INTERVAL_SECS);
    assert!(!p.on_fetch_error());
    assert_eq!(p.interval_secs, ERROR_POLL_INTERVAL_SECS);
}

#[test]
fn app_state_default_is_idle() {
    let s = AppState::default();
    assert!(!s.is_streaming && !s.is_playing && !s.is_recording);
    assert!(s.current_track.is_none() && s.current_channel.is_none());
    assert_eq!(s.stream_status, "");
}
