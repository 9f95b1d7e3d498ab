//! The rows a current-track answer is stored as.
//!
//! One row for the track; where a release is described, one for it and one per complete
//! external link of it; per artist, one row for the artist under a fresh identifier, one
//! linking it to the track, one per complete external link and one per image with an
//! address. The rows come in the order in which they are written.

use vstd::prelude::*;
use crate::text::{copy_text, opt_text};

verus! {

/// An external link as described: its kind and address, where they are strings.
#[derive(Debug, Clone)]
pub struct LinkPayload {
    pub link_type: Option<String>,
    pub url: Option<String>,
}

/// An artist image as described.
#[derive(Debug, Clone)]
pub struct ImagePayload {
    pub url: Option<String>,
    pub license: Option<String>,
    pub source: Option<String>,
    pub thumbnail: Option<String>,
}

/// An artist as described; `raw_metadata` is the artist's JSON text.
#[derive(Debug, Clone)]
pub struct ArtistPayload {
    pub name: Option<String>,
    pub about_content: Option<String>,
    pub about_source: Option<String>,
    pub country: Option<String>,
    pub raw_metadata: String,
    pub external_links: Vec<LinkPayload>,
    pub images: Vec<ImagePayload>,
}

/// A release as described; `raw_metadata` is the release's JSON text.
#[derive(Debug, Clone)]
pub struct ReleasePayload {
    pub title: Option<String>,
    pub year: Option<i64>,
    pub label: Option<String>,
    pub artwork_url: Option<String>,
    pub raw_metadata: String,
    pub external_links: Vec<LinkPayload>,
}

/// A current-track answer as far as it is stored; `raw_metadata` is the whole answer's
/// JSON text.
#[derive(Debug, Clone)]
pub struct TrackMetadataPayload {
    pub track_id: Option<String>,
    pub title: Option<String>,
    pub artist_credits: Option<String>,
    pub artwork_url: Option<String>,
    pub raw_metadata: String,
    pub release: Option<ReleasePayload>,
    pub artists: Vec<ArtistPayload>,
}

/// A row to be written.
#[derive(Debug)]
pub enum MetadataRow {
    Track {
        track_id: String,
        title: String,
        artist_credits: String,
        artwork_url: Option<String>,
        raw_metadata: String,
    },
    Release {
        track_id: String,
        title: String,
        year: Option<i64>,
        label: Option<String>,
        artwork_url: Option<String>,
        raw_metadata: String,
    },
    ExternalLink { entity_type: String, entity_id: String, link_type: String, url: String },
    Artist {
        artist_id: String,
        name: String,
        about_content: Option<String>,
        about_source: Option<String>,
        country: Option<String>,
        raw_metadata: String,
    },
    TrackArtist { track_id: String, artist_id: String },
    ArtistImage {
        artist_id: String,
        url: String,
        license: Option<String>,
        source: Option<String>,
        thumbnail: Option<String>,
    },
}

/// A row, with its strings taken as text.
pub ghost enum RowView {
    Track {
        track_id: Seq<char>,
        title: Seq<char>,
        artist_credits: Seq<char>,
        artwork_url: Option<Seq<char>>,
        raw_metadata: Seq<char>,
    },
    Release {
        track_id: Seq<char>,
        title: Seq<char>,
        year: Option<i64>,
        label: Option<Seq<char>>,
        artwork_url: Option<Seq<char>>,
        raw_metadata: Seq<char>,
    },
    ExternalLink {
        entity_type: Seq<char>,
        entity_id: Seq<char>,
        link_type: Seq<char>,
        url: Seq<char>,
    },
    Artist {
        artist_id: Seq<char>,
        name: Seq<char>,
        about_content: Option<Seq<char>>,
        about_source: Option<Seq<char>>,
        country: Option<Seq<char>>,
        raw_metadata: Seq<char>,
    },
    TrackArtist { track_id: Seq<char>, artist_id: Seq<char> },
    ArtistImage {
        artist_id: Seq<char>,
        url: Seq<char>,
        license: Option<Seq<char>>,
        source: Option<Seq<char>>,
        thumbnail: Option<Seq<char>>,
    },
}

impl View for MetadataRow {
    type V = RowView;

    open spec fn view(&self) -> RowView {
        match self {
            MetadataRow::Track { track_id, title, artist_credits, artwork_url, raw_metadata } =>
                RowView::Track {
                track_id: track_id@,
                title: title@,
                artist_credits: artist_credits@,
                artwork_url: opt_text(*artwork_url),
                raw_metadata: raw_metadata@,
            },
            MetadataRow::Release { track_id, title, year, label, artwork_url, raw_metadata } =>
                RowView::Release {
                track_id: track_id@,
                title: title@,
                year: *year,
                label: opt_text(*label),
                artwork_url: opt_text(*artwork_url),
                raw_metadata: raw_metadata@,
            },
            MetadataRow::ExternalLink { entity_type, entity_id, link_type, url } =>
                RowView::ExternalLink {
                entity_type: entity_type@,
                entity_id: entity_id@,
                link_type: link_type@,
                url: url@,
            },
            MetadataRow::Artist {
                artist_id,
                name,
                about_content,
                about_source,
                country,
                raw_metadata,
            } => RowView::Artist {
                artist_id: artist_id@,
                name: name@,
                about_content: opt_text(*about_content),
                about_source: opt_text(*about_source),
                country: opt_text(*country),
                raw_metadata: raw_metadata@,
            },
            MetadataRow::TrackArtist { track_id, artist_id } => RowView::TrackArtist {
                track_id: track_id@,
                artist_id: artist_id@,
            },
            MetadataRow::ArtistImage { artist_id, url, license, source, thumbnail } =>
                RowView::ArtistImage {
                artist_id: artist_id@,
                url: url@,
                license: opt_text(*license),
                source: opt_text(*source),
                thumbnail: opt_text(*thumbnail),
            },
        }
    }
}

/// The rows of `rows`, taken as text.
pub open spec fn rows_view(rows: Seq<MetadataRow>) -> Seq<RowView> {
    rows.map_values(|r: MetadataRow| r@)
}

/// The text of a string field, empty where it is missing.
pub open spec fn text_or_empty(o: Option<String>) -> Seq<char> {
    match o {
        Some(s) => s@,
        None => Seq::empty(),
    }
}

/// The rows of the complete links of `links` (those with a kind and an address).
pub open spec fn link_rows(entity_type: Seq<char>, id: Seq<char>, links: Seq<LinkPayload>) -> Seq<
    RowView,
>
    decreases links.len(),
{
    if links.len() == 0 {
        Seq::empty()
    } else {
        let prev = link_rows(entity_type, id, links.drop_last());
        match (links.last().link_type, links.last().url) {
            (Some(t), Some(u)) => prev.push(
                RowView::ExternalLink { entity_type, entity_id: id, link_type: t@, url: u@ },
            ),
            _ => prev,
        }
    }
}

/// The rows of the images of `images` that have an address.
pub open spec fn image_rows(artist_id: Seq<char>, images: Seq<ImagePayload>) -> Seq<RowView>
    decreases images.len(),
{
    if images.len() == 0 {
        Seq::empty()
    } else {
        let prev = image_rows(artist_id, images.drop_last());
        let img = images.last();
        match img.url {
            Some(u) => prev.push(
                RowView::ArtistImage {
                    artist_id,
                    url: u@,
                    license: opt_text(img.license),
                    source: opt_text(img.source),
                    thumbnail: opt_text(img.thumbnail),
                },
            ),
            None => prev,
        }
    }
}

/// The rows of one artist stored under `artist_id`.
pub open spec fn artist_rows(track_id: Seq<char>, a: ArtistPayload, artist_id: Seq<char>) -> Seq<
    RowView,
> {
    seq![
        RowView::Artist {
            artist_id,
            name: text_or_empty(a.name),
            about_content: opt_text(a.about_content),
            about_source: opt_text(a.about_source),
            country: opt_text(a.country),
            raw_metadata: a.raw_metadata@,
        },
        RowView::TrackArtist { track_id, artist_id },
    ] + link_rows("artist"@, artist_id, a.external_links@) + image_rows(artist_id, a.images@)
}

/// The rows of `artists`, the `i`-th stored under `ids[i]`.
pub open spec fn artists_rows(track_id: Seq<char>, artists: Seq<ArtistPayload>, ids: Seq<Seq<char>>) -> Seq<
    RowView,
>
    decreases artists.len(),
{
    if artists.len() == 0 {
        Seq::empty()
    } else {
        artists_rows(track_id, artists.drop_last(), ids) + artist_rows(
            track_id,
            artists.last(),
            ids[artists.len() - 1],
        )
    }
}

/// The rows of a release.
pub open spec fn release_rows(track_id: Seq<char>, r: ReleasePayload) -> Seq<RowView> {
    seq![
        RowView::Release {
            track_id,
            title: text_or_empty(r.title),
            year: r.year,
            label: opt_text(r.label),
            artwork_url: opt_text(r.artwork_url),
            raw_metadata: r.raw_metadata@,
        },
    ] + link_rows("release"@, track_id, r.external_links@)
}

/// All rows of a current-track answer whose artists are stored under `ids`.
pub open spec fn metadata_rows(p: TrackMetadataPayload, ids: Seq<Seq<char>>) -> Seq<RowView> {
    let track_id = text_or_empty(p.track_id);
    seq![
        RowView::Track {
            track_id,
            title: text_or_empty(p.title),
            artist_credits: text_or_empty(p.artist_credits),
            artwork_url: opt_text(p.artwork_url),
            raw_metadata: p.raw_metadata@,
        },
    ] + match p.release {
        Some(r) => release_rows(track_id, r),
        None => Seq::empty(),
    } + artists_rows(track_id, p.artists@, ids)
}

/// The text of each string of `ids`.
pub open spec fn texts(ids: Seq<String>) -> Seq<Seq<char>> {
    ids.map_values(|s: String| s@)
}

/// `s` is a lower-case hyphenated version-4 UUID (8-4-4-4-12 hexadecimal digits, the
/// version digit `4`, the variant digit one of `8`, `9`, `a`, `b`).
pub open spec fn is_uuid_v4_text(s: Seq<char>) -> bool {
    &&& s.len() == 36
    &&& forall|i: int|
        0 <= i < 36 ==> if i == 8 || i == 13 || i == 18 || i == 23 {
            #[trigger] s[i] == '-'
        } else {
            ('0' <= s[i] <= '9') || ('a' <= s[i] <= 'f')
        }
    &&& s[14] == '4'
    &&& (s[19] == '8' || s[19] == '9' || s[19] == 'a' || s[19] == 'b')
}

/// `Uuid::new_v4` rendered by `to_string`: a random version-4 UUID in its hyphenated
/// lower-case form. Which one comes out is left open.
#[verifier::external_body]
fn new_artist_id() -> (id: String)
    ensures
        is_uuid_v4_text(id@),
{
    uuid::Uuid::new_v4().to_string()
}

/// A copy of a string field, empty where it is missing.
fn text_or_empty_string(o: &Option<String>) -> (res: String)
    ensures
        res@ == text_or_empty(*o),
{
    match o {
        Some(s) => s.clone(),
        None => String::new(),
    }
}

proof fn lemma_rows_view_push(rows: Seq<MetadataRow>, r: MetadataRow)
    ensures
        rows_view(rows.push(r)) == rows_view(rows).push(r@),
{
    assert(rows_view(rows.push(r)) =~= rows_view(rows).push(r@));
}

/// Appends the rows of the complete links of `links`.
fn push_link_rows(rows: &mut Vec<MetadataRow>, entity_type: &str, id: &String, links: &Vec<LinkPayload>)
    ensures
        rows_view(final(rows)@) == rows_view(old(rows)@) + link_rows(entity_type@, id@, links@),
{
    let ghost start = rows_view(rows@);
    let mut i: usize = 0;
    while i < links.len()
        invariant
            i <= links@.len(),
            rows_view(rows@) == start + link_rows(entity_type@, id@, links@.take(i as int)),
        decreases links@.len() - i,
    {
        let link = &links[i];
        proof {
            assert(links@.take(i + 1).drop_last() =~= links@.take(i as int));
            assert(links@.take(i + 1).last() == links@[i as int]);
        }
        match (&link.link_type, &link.url) {
            (Some(t), Some(u)) => {
                let ghost before = rows@;
                rows.push(
                    MetadataRow::ExternalLink {
                        entity_type: String::from_str(entity_type),
                        entity_id: id.clone(),
                        link_type: t.clone(),
                        url: u.clone(),
                    },
                );
                proof {
                    lemma_rows_view_push(before, rows@.last());
                    assert(before.push(rows@.last()) =~= rows@);
                }
            },
            _ => {},
        }
        i = i + 1;
    }
    assert(links@.take(links@.len() as int) =~= links@);
}

/// Appends the rows of the images of `images` that have an address.
fn push_image_rows(rows: &mut Vec<MetadataRow>, artist_id: &String, images: &Vec<ImagePayload>)
    ensures
        rows_view(final(rows)@) == rows_view(old(rows)@) + image_rows(artist_id@, images@),
{
    let ghost start = rows_view(rows@);
    let mut i: usize = 0;
    while i < images.len()
        invariant
            i <= images@.len(),
            rows_view(rows@) == start + image_rows(artist_id@, images@.take(i as int)),
        decreases images@.len() - i,
    {
        let img = &images[i];
        proof {
            assert(images@.take(i + 1).drop_last() =~= images@.take(i as int));
            assert(images@.take(i + 1).last() == images@[i as int]);
        }
        match &img.url {
            Some(u) => {
                let ghost before = rows@;
                rows.push(
                    MetadataRow::ArtistImage {
                        artist_id: artist_id.clone(),
                        url: u.clone(),
                        license: copy_text(&img.license),
                        source: copy_text(&img.source),
                        thumbnail: copy_text(&img.thumbnail),
                    },
                );
                proof {
                    lemma_rows_view_push(before, rows@.last());
                    assert(before.push(rows@.last()) =~= rows@);
                }
            },
            None => {},
        }
        i = i + 1;
    }
    assert(images@.take(images@.len() as int) =~= images@);
}

/// Appends the rows of one artist stored under `artist_id`.
fn push_artist_rows(
    rows: &mut Vec<MetadataRow>,
    track_id: &String,
    artist: &ArtistPayload,
    artist_id: &String,
)
    ensures
        rows_view(final(rows)@) == rows_view(old(rows)@) + artist_rows(
            track_id@,
            *artist,
            artist_id@,
        ),
{
    let ghost start = rows@;
    rows.push(
        MetadataRow::Artist {
            artist_id: artist_id.clone(),
            name: text_or_empty_string(&artist.name),
            about_content: copy_text(&artist.about_content),
            about_source: copy_text(&artist.about_source),
            country: copy_text(&artist.country),
            raw_metadata: artist.raw_metadata.clone(),
        },
    );
    let ghost mid = rows@;
    rows.push(MetadataRow::TrackArtist { track_id: track_id.clone(), artist_id: artist_id.clone() });
    proof {
        lemma_rows_view_push(start, mid.last());
        assert(start.push(mid.last()) =~= mid);
        lemma_rows_view_push(mid, rows@.last());
        assert(mid.push(rows@.last()) =~= rows@);
    }
    push_link_rows(rows, "artist", artist_id, &artist.external_links);
    push_image_rows(rows, artist_id, &artist.images);
    proof {
        assert(rows_view(rows@) =~= rows_view(start) + artist_rows(track_id@, *artist, artist_id@));
    }
}

/// The rows of a current-track answer, its `i`-th artist stored under `artist_ids[i]`.
pub fn plan_track_metadata(payload: &TrackMetadataPayload, artist_ids: &Vec<String>) -> (rows: Vec<
    MetadataRow,
>)
    requires
        artist_ids@.len() == payload.artists@.len(),
    ensures
        rows_view(rows@) == metadata_rows(*payload, texts(artist_ids@)),
        rows@.len() >= 1,
        rows@[0]@ == (RowView::Track {
            track_id: text_or_empty(payload.track_id),
            title: text_or_empty(payload.title),
            artist_credits: text_or_empty(payload.artist_credits),
            artwork_url: opt_text(payload.artwork_url),
            raw_metadata: payload.raw_metadata@,
        }),
        payload.release matches Some(r) ==> {
            &&& rows@.len() >= 2
            &&& rows@[1]@ == (RowView::Release {
                track_id: text_or_empty(payload.track_id),
                title: text_or_empty(r.title),
                year: r.year,
                label: opt_text(r.label),
                artwork_url: opt_text(r.artwork_url),
                raw_metadata: r.raw_metadata@,
            })
        },
{
    let track_id = text_or_empty_string(&payload.track_id);
    let mut rows: Vec<MetadataRow> = Vec::new();
    rows.push(
        MetadataRow::Track {
            track_id: track_id.clone(),
            title: text_or_empty_string(&payload.title),
            artist_credits: text_or_empty_string(&payload.artist_credits),
            artwork_url: copy_text(&payload.artwork_url),
            raw_metadata: payload.raw_metadata.clone(),
        },
    );
    proof {
        lemma_rows_view_push(Seq::empty(), rows@[0]);
        assert(Seq::<MetadataRow>::empty().push(rows@[0]) =~= rows@);
    }
    let ghost after_track = rows_view(rows@);
    match &payload.release {
        Some(r) => {
            let ghost before = rows@;
            rows.push(
                MetadataRow::Release {
                    track_id: track_id.clone(),
                    title: text_or_empty_string(&r.title),
                    year: r.year,
                    label: copy_text(&r.label),
                    artwork_url: copy_text(&r.artwork_url),
                    raw_metadata: r.raw_metadata.clone(),
                },
            );
            proof {
                lemma_rows_view_push(before, rows@.last());
                assert(before.push(rows@.last()) =~= rows@);
            }
            push_link_rows(&mut rows, "release", &track_id, &r.external_links);
            proof {
                assert(rows_view(rows@) =~= after_track + release_rows(track_id@, *r));
            }
        },
        None => {
            assert(rows_view(rows@) =~= after_track + Seq::empty());
        },
    }
    let ghost after_release = rows_view(rows@);
    let ghost ids = texts(artist_ids@);
    let mut i: usize = 0;
    while i < payload.artists.len()
        invariant
            i <= payload.artists@.len(),
            artist_ids@.len() == payload.artists@.len(),
            ids == texts(artist_ids@),
            track_id@ == text_or_empty(payload.track_id),
            rows_view(rows@) == after_release + artists_rows(
                track_id@,
                payload.artists@.take(i as int),
                ids,
            ),
        decreases payload.artists@.len() - i,
    {
        proof {
            assert(payload.artists@.take(i + 1).drop_last() =~= payload.artists@.take(i as int));
            assert(payload.artists@.take(i + 1).last() == payload.artists@[i as int]);
            assert(ids[i as int] == artist_ids@[i as int]@);
        }
        push_artist_rows(&mut rows, &track_id, &payload.artists[i], &artist_ids[i]);
        i = i + 1;
    }
    assert(payload.artists@.take(payload.artists@.len() as int) =~= payload.artists@);
    proof {
        crate::laws::law_track_and_release_rows_carry_their_fields(*payload, texts(artist_ids@));
        assert(rows_view(rows@)[0] == rows@[0]@);
        if payload.release is Some {
            assert(rows_view(rows@)[1] == rows@[1]@);
        }
    }
    rows
}

/// The rows of a current-track answer, each artist stored under a fresh random
/// identifier.
pub fn track_metadata_rows(payload: &TrackMetadataPayload) -> (rows: Vec<MetadataRow>)
    ensures
        exists|ids: Seq<Seq<char>>|
            {
                &&& ids.len() == payload.artists@.len()
                &&& forall|i: int| 0 <= i < ids.len() ==> is_uuid_v4_text(#[trigger] ids[i])
                &&& rows_view(rows@) == metadata_rows(*payload, ids)
            },
{
    let mut ids: Vec<String> = Vec::new();
    let mut i: usize = 0;
    while i < payload.artists.len()
        invariant
            i <= payload.artists@.len(),
            ids@.len() == i,
            forall|j: int| 0 <= j < i ==> is_uuid_v4_text(#[trigger] ids@[j]@),
        decreases payload.artists@.len() - i,
    {
        ids.push(new_artist_id());
        i = i + 1;
    }
    let rows = plan_track_metadata(payload, &ids);
    proof {
        let t = texts(ids@);
        assert(forall|j: int| 0 <= j < t.len() ==> is_uuid_v4_text(#[trigger] t[j]));
    }
    rows
}

} // verus!
