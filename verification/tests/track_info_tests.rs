use aircrate::track_info::{is_track_change, save_command_for, track_info_from_payload, update_due, TrackInfo, TrackInfoPayload};

fn info(title: &str, artist: &str) -> TrackInfo {
    TrackInfo { title: title.to_string(), artist: artist.to_string(), album: None, duration: None, started_at: None, artwork_url: None }
}

#[test]
fn payload_defaults_and_fields() {
    let t = track_info_from_payload(&TrackInfoPayload {
        title: None,
        artist_credits: None,
        release: None,
        duration: None,
        last_updated: None,
        artwork: None,
    });
    assert_eq!(t.title, "Unknown");
    assert_eq!(t.artist, "Unknown");
    assert!(t.album.is_none() && t.duration.is_none() && t.started_at.is_none() && t.artwork_url.is_none());
    let t = track_info_from_payload(&TrackInfoPayload {
        title: Some("T".to_string()),
        artist_credits: Some("A".to_string()),
        release: Some("R".to_string()),
        duration: Some(0x1_0000_0005),
        last_updated: Some("2024-01-01".to_string()),
        artwork: Some("http://img".to_string()),
    });
    assert_eq!(t.title, "T");
    assert_eq!(t.artist, "A");
    assert_eq!(t.album.as_deref(), Some("R"));
    assert_eq!(t.duration, Some(5));
    assert_eq!(t.started_at.as_deref(), Some("2024-01-01"));
    assert_eq!(t.artwork_url.as_deref(), Some("http://img"));
}

#[test]
fn track_change_by_title_or_artist() {
    assert!(is_track_change(&None, &info("a", "b")));
    assert!(!is_track_change(&Some(info("a", "b")), &info("a", "b")));
    assert!(is_track_change(&Some(info("a", "b")), &info("a", "c")));
    assert!(is_track_change(&Some(info("a", "b")), &info("x", "b")));
}

#[test]
fn update_due_after_interval() {
    assert!(update_due(None, 5));
    assert!(!update_due(Some(4), 5));
    assert!(update_due(Some(5), 5));
}

#[test]
fn save_command_only_for_a_previous_track_while_recording() {
    assert_eq!(save_command_for(&None, true), None);
    assert_eq!(save_command_for(&Some(info("T", "A")), false), None);
    assert_eq!(save_command_for(&Some(info("T", "A")), true), Some(("A".to_string(), "T".to_string())));
}
