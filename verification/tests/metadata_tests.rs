use aircrate::metadata::{
    plan_track_metadata, track_metadata_rows, ArtistPayload, ImagePayload, LinkPayload, MetadataRow,
    ReleasePayload, TrackMetadataPayload,
};

fn s(v: &str) -> Option<String> {
    Some(v.to_string())
}

fn payload() -> TrackMetadataPayload {
    TrackMetadataPayload {
        track_id: s("t1"),
        title: s("Song"),
        artist_credits: None,
        artwork_url: s("http://art"),
        raw_metadata: "{}".to_string(),
        release: Some(ReleasePayload {
            title: s("Album"),
            year: Some(1999),
            label: None,
            artwork_url: None,
            raw_metadata: "{\"title\":\"Album\"}".to_string(),
            external_links: vec![
                LinkPayload { link_type: s("Discogs"), url: s("http://d") },
                LinkPayload { link_type: None, url: s("http://x") },
            ],
        }),
        artists: vec![ArtistPayload {
            name: s("Band"),
            about_content: None,
            about_source: None,
            country: s("FR"),
            raw_metadata: "{\"name\":\"Band\"}".to_string(),
            external_links: vec![LinkPayload { link_type: s("Web"), url: s("http://w") }],
            images: vec![
                ImagePayload { url: s("http://i1"), license: s("cc"), source: None, thumbnail: None },
                ImagePayload { url: None, license: None, source: None, thumbnail: None },
            ],
        }],
    }
}

#[test]
fn rows_follow_the_answer_in_order() {
    let rows = plan_track_metadata(&payload(), &vec!["id-1".to_string()]);
    assert_eq!(rows.len(), 7);
    match &rows[0] {
        MetadataRow::Track { track_id, title, artist_credits, artwork_url, raw_metadata } => {
            assert_eq!(track_id, "t1");
            assert_eq!(title, "Song");
            assert_eq!(artist_credits, "");
            assert_eq!(artwork_url.as_deref(), Some("http://art"));
            assert_eq!(raw_metadata, "{}");
        }
        other => panic!("{:?}", other),
    }
    assert!(matches!(&rows[1], MetadataRow::Release { track_id, year: Some(1999), .. } if track_id == "t1"));
    assert!(matches!(&rows[2], MetadataRow::ExternalLink { entity_type, entity_id, link_type, url }
        if entity_type == "release" && entity_id == "t1" && link_type == "Discogs" && url == "http://d"));
    assert!(matches!(&rows[3], MetadataRow::Artist { artist_id, name, country: Some(c), .. }
        if artist_id == "id-1" && name == "Band" && c == "FR"));
    assert!(matches!(&rows[4], MetadataRow::TrackArtist { track_id, artist_id } if track_id == "t1" && artist_id == "id-1"));
    assert!(matches!(&rows[5], MetadataRow::ExternalLink { entity_type, entity_id, .. } if entity_type == "artist" && entity_id == "id-1"));
    assert!(matches!(&rows[6], MetadataRow::ArtistImage { artist_id, url, license: Some(l), .. }
        if artist_id == "id-1" && url == "http://i1" && l == "cc"));
}

#[test]
fn fresh_artist_ids_are_uuids() {
    let rows = track_metadata_rows(&payload());
    assert_eq!(rows.len(), 7);
    let id = match &rows[3] {
        MetadataRow::Artist { artist_id, .. } => artist_id.clone(),
        other => panic!("{:?}", other),
    };
    assert_eq!(id.len(), 36);
    assert_eq!(id.chars().nth(14), Some('4'));
    assert!(uuid::Uuid::parse_str(&id).is_ok());
    let again = track_metadata_rows(&payload());
    match &again[3] {
        MetadataRow::Artist { artist_id, .. } => assert_ne!(artist_id, &id),
        other => panic!("{:?}", other),
    }
}

#[test]
fn minimal_answer_gives_one_row() {
    let p = TrackMetadataPayload {
        track_id: None,
        title: None,
        artist_credits: None,
        artwork_url: None,
        raw_metadata: String::new(),
        release: None,
        artists: vec![],
    };
    let rows = track_metadata_rows(&p);
    assert_eq!(rows.len(), 1);
}
