use aircrate::database::{cache_file_name, enhance_image_url, last_dot_segment, ImageSize};

#[test]
fn image_sizes_on_the_cdn() {
    let u = "https://fluxmusic.cdn.radiosphere.io/i.jpg";
    assert_eq!(enhance_image_url(u, ImageSize::Thumbnail), format!("{}?type=thumbnail", u));
    assert_eq!(enhance_image_url(u, ImageSize::Small), format!("{}?type=small", u));
    assert_eq!(enhance_image_url(u, ImageSize::Medium), format!("{}?type=medium", u));
    assert_eq!(enhance_image_url(u, ImageSize::Large), format!("{}?type=large", u));
    assert_eq!(enhance_image_url(u, ImageSize::Original), u);
}

#[test]
fn image_sizes_elsewhere() {
    let u = "https://example.org/i.jpg";
    assert_eq!(enhance_image_url(u, ImageSize::Large), u);
    assert_eq!(enhance_image_url(u, ImageSize::Original), u);
}

#[test]
fn cache_file_name_is_digest_and_extension() {
    let u = "https://example.org/pics/cover.png";
    let expected = format!("{:x}.png", md5::compute(u.as_bytes()));
    assert_eq!(cache_file_name(u), expected);
    assert_ne!(cache_file_name(u), format!("{}.png", u));
    assert_eq!(cache_file_name("abc"), format!("{:x}.abc", md5::compute(b"abc")));
    assert_eq!(cache_file_name(""), "d41d8cd98f00b204e9800998ecf8427e.");
}

#[test]
fn extension_is_after_the_last_dot() {
    assert_eq!(last_dot_segment("a.b.c"), "c");
    assert_eq!(last_dot_segment("noext"), "noext");
    assert_eq!(last_dot_segment("trailing."), "");
    for s in ["a.b.c", "noext", "trailing.", ""] {
        assert_eq!(last_dot_segment(s), s.rsplit('.').next().unwrap());
    }
}
