use aircrate::channels::large_artwork_url;
use aircrate::http_stream::streaming_status;
use aircrate::text::{concat3, sanitize_filename, to_lower_hex};

#[test]
fn sanitize_replaces_forbidden_characters() {
    assert_eq!(sanitize_filename("AC/DC: Back*In?Black"), "AC_DC_ Back_In_Black");
    assert_eq!(sanitize_filename("a\\b\"c<d>e|f"), "a_b_c_d_e_f");
}

#[test]
fn sanitize_trims_unicode_white_space() {
    assert_eq!(sanitize_filename("  Daft Punk \t\n"), "Daft Punk");
    assert_eq!(sanitize_filename("\u{3000}\u{A0}Air\u{2003}"), "Air");
    assert_eq!(sanitize_filename("   "), "");
    assert_eq!(sanitize_filename(""), "");
}

#[test]
fn sanitize_keeps_inner_white_space_and_other_characters() {
    assert_eq!(sanitize_filename(" Björk - Jóga "), "Björk - Jóga");
}

#[test]
fn sanitize_trims_like_std() {
    for x in ["", " a ", "\u{85}x\u{2028}", "x y", "\u{200B}z\u{200B}", "\u{FEFF}q"] {
        assert_eq!(sanitize_filename(x), x.trim());
    }
}

#[test]
fn cdn_test_uses_substring_search() {
    assert_eq!(large_artwork_url("x-fluxmusic.cdn.radiosphere.io-y"), "x-fluxmusic.cdn.radiosphere.io-y?type=large");
    assert_eq!(large_artwork_url("fluxmusic.cdn.radiosphere"), "fluxmusic.cdn.radiosphere");
}

#[test]
fn hex_and_decimal_rendering() {
    assert_eq!(to_lower_hex(&[0x00, 0x0f, 0xab, 0xff]), "000fabff");
    assert_eq!(to_lower_hex(&[]), "");
    assert_eq!(streaming_status(0, 0), "Streaming: 0 chunks, 0 KB");
    assert_eq!(streaming_status(1234567890, 1024 * 987654321), "Streaming: 1234567890 chunks, 987654321 KB");
    assert_eq!(concat3("a", "", "c"), "ac");
}
