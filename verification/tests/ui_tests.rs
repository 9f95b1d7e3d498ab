use aircrate::channels::{AppState, TrackBoundary};
use aircrate::ui_text::{status_line, track_line};
use aircrate::window::position_to_restore;

#[test]
fn status_and_track_lines() {
    let mut s = AppState::default();
    s.is_playing = true;
    s.stream_status = "Connected - streaming audio".to_string();
    assert_eq!(status_line(&s), "Streaming: false | Playing: true | Recording: false | Connected - streaming audio");
    assert_eq!(track_line(&s), "No track playing");
    s.current_track = Some(TrackBoundary { artist: "A".to_string(), title: "B".to_string(), artwork_url: None });
    assert_eq!(track_line(&s), "🎵 A - B");
}

#[test]
fn window_position_restored_unless_default() {
    assert_eq!(position_to_restore(100, 100), None);
    assert_eq!(position_to_restore(100, 40), Some((100, 40)));
    assert_eq!(position_to_restore(-5, 100), Some((-5, 100)));
}
