use aircrate::channels::TrackBoundary;
use aircrate::recording::{recording_file_name, seconds_to_bytes, BoundaryAction, TrackRecorder, NEW_TRACK_DELAY, OVERLAP_SECONDS};

fn track(artist: &str, title: &str) -> TrackBoundary {
    TrackBoundary { artist: artist.to_string(), title: title.to_string(), artwork_url: None }
}

#[test]
fn seconds_to_bytes_is_fourteen_kib_per_second() {
    assert_eq!(seconds_to_bytes(0), 0);
    assert_eq!(seconds_to_bytes(1), 14336);
    assert_eq!(seconds_to_bytes(NEW_TRACK_DELAY), 143360);
    assert_eq!(seconds_to_bytes(OVERLAP_SECONDS), 286720);
}

#[test]
fn recording_file_names_are_sanitized() {
    assert_eq!(recording_file_name("AC/DC", " Thunder: Struck "), "./recordings/AC_DC - Thunder_ Struck.aac");
    assert_eq!(recording_file_name("", ""), "./recordings/ - .aac");
}

#[test]
fn first_boundary_does_nothing_second_starts_recording() {
    let mut r = TrackRecorder::new();
    r.on_audio_chunk(&[1u8; 1000]);
    assert!(matches!(r.on_track_boundary(track("A", "1")), BoundaryAction::Nothing));
    assert_eq!(r.buffered_len(), 1000);
    r.on_audio_chunk(&[2u8; 1000]);
    assert!(matches!(r.on_track_boundary(track("B", "2")), BoundaryAction::StartRecording));
    assert_eq!(r.buffered_len(), 2000);
}

#[test]
fn third_boundary_saves_the_previous_track_without_the_delay() {
    let delay = seconds_to_bytes(NEW_TRACK_DELAY);
    let overlap = seconds_to_bytes(OVERLAP_SECONDS);
    let mut r = TrackRecorder::new();
    assert!(matches!(r.on_track_boundary(track("A", "1")), BoundaryAction::Nothing));
    assert!(matches!(r.on_track_boundary(track("B", "2")), BoundaryAction::StartRecording));
    let mut audio = Vec::new();
    for i in 0..(delay + overlap + 5000) {
        audio.push((i % 251) as u8);
    }
    r.on_audio_chunk(&audio);
    match r.on_track_boundary(track("C", "3")) {
        BoundaryAction::Save(saved) => {
            assert_eq!(saved.track.artist, "B");
            assert_eq!(saved.file_name, "./recordings/B - 2.aac");
            assert_eq!(saved.data.len(), audio.len() - delay);
            assert_eq!(&saved.data[..], &audio[..audio.len() - delay]);
        }
        other => panic!("expected a saved track, got {:?}", other),
    }
    assert_eq!(r.buffered_len(), delay + overlap);
}

#[test]
fn short_track_is_not_saved() {
    let delay = seconds_to_bytes(NEW_TRACK_DELAY);
    let mut r = TrackRecorder::new();
    r.on_track_boundary(track("A", "1"));
    r.on_track_boundary(track("B", "2"));
    r.on_audio_chunk(&vec![0u8; delay]);
    assert!(matches!(r.on_track_boundary(track("C", "3")), BoundaryAction::Nothing));
    assert_eq!(r.buffered_len(), delay);
}

#[test]
fn consecutive_recordings_overlap() {
    let delay = seconds_to_bytes(NEW_TRACK_DELAY);
    let overlap = seconds_to_bytes(OVERLAP_SECONDS);
    let mut r = TrackRecorder::new();
    r.on_track_boundary(track("A", "1"));
    r.on_track_boundary(track("B", "2"));
    let mut stream = Vec::new();
    for i in 0..(3 * (delay + overlap)) {
        stream.push((i % 241) as u8);
    }
    let (first, second) = stream.split_at(delay + overlap + 1000);
    r.on_audio_chunk(first);
    let a = match r.on_track_boundary(track("C", "3")) {
        BoundaryAction::Save(s) => s.data,
        other => panic!("{:?}", other),
    };
    r.on_audio_chunk(second);
    let b = match r.on_track_boundary(track("D", "4")) {
        BoundaryAction::Save(s) => s.data,
        other => panic!("{:?}", other),
    };
    let a_end = first.len() - delay;
    assert_eq!(&a[..], &stream[..a_end]);
    assert_eq!(&b[..], &stream[a_end - overlap..stream.len() - delay]);
}
