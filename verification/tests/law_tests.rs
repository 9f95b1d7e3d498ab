use aircrate::channels::large_artwork_url;
use aircrate::database::{enhance_image_url, ImageSize};
use aircrate::recording::recording_file_name;
use aircrate::text::sanitize_filename;

#[test]
fn sanitizing_twice_changes_nothing() {
    for name in ["  a/b  ", "x:y*z", " \u{2000}q|", "", "plain"] {
        let once = sanitize_filename(name);
        assert_eq!(sanitize_filename(&once), once);
    }
}

#[test]
fn track_artwork_is_the_large_image() {
    for url in ["https://fluxmusic.cdn.radiosphere.io/a.jpg", "https://other.example/a.jpg"] {
        assert_eq!(large_artwork_url(url), enhance_image_url(url, ImageSize::Large));
    }
}

#[test]
fn recording_paths_stay_in_the_directory() {
    let path = recording_file_name("../../etc", "passwd/..");
    assert!(path.starts_with("./recordings/"));
    assert!(!path["./recordings/".len()..].contains('/'));
    assert_eq!(path, "./recordings/.._.._etc - passwd_...aac");
}
