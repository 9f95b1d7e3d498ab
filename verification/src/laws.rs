//! Properties that tie several operations of the library together.

use vstd::prelude::*;
use crate::channels::{interval_after_error, sized_artwork_url};
use crate::database::{enhanced_image_url, ImageSize};
use crate::decoding::{decode_take, latest, MAX_DECODE_BYTES, MIN_DECODE_BYTES};
use crate::metadata::{
    artist_rows, image_rows, link_rows, metadata_rows, text_or_empty, ArtistPayload, ImagePayload,
    LinkPayload, RowView, TrackMetadataPayload,
};
use crate::recording::{recording_path, retained, RecorderView};
use crate::streaming_reader::{after_read, after_receipt, read_len, ChunkReceipt, ReaderView};
use crate::channels::AppState;
use crate::ui_text::status_text;
use crate::text::{
    file_name_char, is_forbidden_in_file_name, is_white_space, lemma_sanitized_has_no_forbidden,
    keeps_all_but_forbidden, lemma_sanitized_keeps_others, lemma_trimmed_fixed, lemma_trimmed_is_piece, opt_text, sanitized,
};

verus! {

/// The large artwork asked for with a reported track is the `Large` size of the image
/// address.
pub proof fn law_track_artwork_is_large_image(url: Seq<char>)
    ensures
        sized_artwork_url(url, "large"@) == enhanced_image_url(url, ImageSize::Large),
{
}

/// Bytes received earlier are read before bytes received later.
pub proof fn law_earlier_bytes_are_read_first(v: ReaderView, chunk: Vec<u8>, n: nat)
    requires
        !v.finished,
        n <= v.buffered.len(),
    ensures
        after_receipt(v, ChunkReceipt::Chunk(chunk)).buffered == v.buffered + chunk@,
        after_receipt(v, ChunkReceipt::Chunk(chunk)).buffered.take(n as int) == v.buffered.take(
            n as int,
        ),
{
    assert((v.buffered + chunk@).take(n as int) =~= v.buffered.take(n as int));
}

/// A read loses and repeats nothing: the bytes handed out followed by the bytes still
/// buffered are the bytes buffered before, and the position grows by the bytes handed out.
pub proof fn law_read_conserves_bytes(v: ReaderView, capacity: nat)
    requires
        v.position + read_len(v, capacity) <= u64::MAX,
    ensures
        v.buffered.take(read_len(v, capacity) as int) + after_read(
            v,
            read_len(v, capacity),
        ).buffered == v.buffered,
        after_read(v, read_len(v, capacity)).position == v.position + read_len(v, capacity),
        after_read(v, read_len(v, capacity)).finished == v.finished,
{
    let n = read_len(v, capacity);
    assert(v.buffered.take(n as int) + v.buffered.skip(n as int) =~= v.buffered);
}

/// Once a reader no longer waits, a read into a non-empty buffer comes back empty only
/// at the end of the stream.
pub proof fn law_empty_read_only_at_end(v: ReaderView, capacity: nat)
    requires
        capacity > 0,
        !(v.buffered.len() == 0 && !v.finished),
    ensures
        read_len(v, capacity) == 0 <==> (v.finished && v.buffered.len() == 0),
{
}

/// The recorder never keeps more than delay plus overlap bytes after an announcement,
/// and what it keeps is the newest audio.
pub proof fn law_retained_audio_is_bounded_tail(buffered: Seq<u8>, keep: nat)
    ensures
        retained(buffered, keep).len() <= keep || retained(buffered, keep) == buffered,
        retained(buffered, keep).len() <= buffered.len(),
        retained(buffered, keep) == buffered.skip(buffered.len() - retained(buffered, keep).len()),
{
    if buffered.len() <= keep {
        assert(buffered.skip(0) =~= buffered);
    }
}

/// After a track's recording is handed back from a long enough buffer, the audio kept
/// begins the overlap before the end of that recording: the next recording repeats
/// exactly the overlap.
pub proof fn law_recordings_overlap(before: RecorderView, after: RecorderView)
    requires
        before.buffered == before.received.skip(before.dropped as int),
        before.dropped <= before.received.len(),
        after.buffered == after.received.skip(after.dropped as int),
        after.dropped <= after.received.len(),
        after.received == before.received,
        before.buffered.len() > before.delay_bytes + before.overlap_bytes,
        after.buffered == retained(before.buffered, before.delay_bytes + before.overlap_bytes),
    ensures
        after.dropped + before.overlap_bytes == before.received.len() - before.delay_bytes,
{
    let keep = before.delay_bytes + before.overlap_bytes;
    assert(after.buffered.len() == after.received.len() - after.dropped);
    assert(before.buffered.skip(before.buffered.len() - keep).len() == keep);
    assert(after.buffered.len() == keep);
}

/// A second failed poll leaves the slowed-down interval as it is.
pub proof fn law_backoff_is_stable(secs: u64)
    ensures
        interval_after_error(interval_after_error(secs)) == interval_after_error(secs),
        interval_after_error(secs) >= secs,
{
}

/// Taking a piece to decode loses nothing: the piece followed by what remains is the
/// buffer before.
pub proof fn law_decode_chunk_conserves_bytes(buffer: Seq<u8>)
    requires
        decode_take(buffer.len()) <= buffer.len(),
    ensures
        buffer.take(decode_take(buffer.len()) as int) + buffer.skip(
            decode_take(buffer.len()) as int,
        ) == buffer,
{
    assert(buffer.take(decode_take(buffer.len()) as int) + buffer.skip(
        decode_take(buffer.len()) as int,
    ) =~= buffer);
}

/// The sample store never holds more than its cap and keeps the newest samples.
pub proof fn law_latest_is_bounded_tail<T>(s: Seq<T>, cap: nat)
    ensures
        latest(s, cap).len() <= cap || latest(s, cap) == s,
        latest(s, cap) == s.skip(s.len() - latest(s, cap).len()),
{
    if s.len() <= cap {
        assert(s.skip(0) =~= s);
    }
}

/// A recording's path lies directly in `./recordings/`: after that prefix no `/` occurs.
pub proof fn law_recording_path_stays_in_directory(artist: Seq<char>, title: Seq<char>)
    ensures
        recording_path(artist, title).take(13) == "./recordings/"@,
        forall|i: int|
            13 <= i < recording_path(artist, title).len() ==> #[trigger] recording_path(
                artist,
                title,
            )[i] != '/',
{
    reveal_strlit("./recordings/");
    reveal_strlit(" - ");
    reveal_strlit(".aac");
    let a = sanitized(artist);
    let t = sanitized(title);
    let p = recording_path(artist, title);
    assert(p == "./recordings/"@ + a + " - "@ + t + ".aac"@);
    assert(p.take(13) =~= "./recordings/"@);
    lemma_sanitized_has_no_forbidden(artist);
    lemma_sanitized_has_no_forbidden(title);
    assert forall|i: int| 13 <= i < p.len() implies #[trigger] p[i] != '/' by {
        let j = i - 13;
        if j < a.len() {
            assert(p[i] == a[j]);
            assert(!is_forbidden_in_file_name(a[j]));
        } else if j < a.len() + 3 {
            assert(p[i] == " - "@[j - a.len()]);
        } else if j < a.len() + 3 + t.len() {
            assert(p[i] == t[j - a.len() - 3]);
            assert(!is_forbidden_in_file_name(t[j - a.len() - 3]));
        } else {
            assert(p[i] == ".aac"@[j - a.len() - 3 - t.len()]);
        }
    }
}

/// Sanitizing a name a second time changes nothing.
pub proof fn law_sanitize_is_idempotent(name: Seq<char>)
    ensures
        sanitized(sanitized(name)) == sanitized(name),
{
    let once = sanitized(name);
    lemma_sanitized_has_no_forbidden(name);
    lemma_trimmed_is_piece(name.map_values(|c: char| file_name_char(c)));
    let m = once.map_values(|c: char| file_name_char(c));
    assert(m =~= once);
    lemma_trimmed_fixed(once);
}

/// The first row of a stored answer is the track row, each field taken from the
/// answer's own field; where a release is described, the second row is the release row,
/// its label from the release's label, its artwork address from the release's artwork
/// address, and so on.
pub proof fn law_track_and_release_rows_carry_their_fields(
    p: TrackMetadataPayload,
    ids: Seq<Seq<char>>,
)
    ensures
        metadata_rows(p, ids).len() >= 1,
        metadata_rows(p, ids)[0] == (RowView::Track {
            track_id: text_or_empty(p.track_id),
            title: text_or_empty(p.title),
            artist_credits: text_or_empty(p.artist_credits),
            artwork_url: opt_text(p.artwork_url),
            raw_metadata: p.raw_metadata@,
        }),
        p.release matches Some(r) ==> {
            &&& metadata_rows(p, ids).len() >= 2
            &&& metadata_rows(p, ids)[1] == (RowView::Release {
                track_id: text_or_empty(p.track_id),
                title: text_or_empty(r.title),
                year: r.year,
                label: opt_text(r.label),
                artwork_url: opt_text(r.artwork_url),
                raw_metadata: r.raw_metadata@,
            })
        },
{
}

/// `row` is the link row of `link` for the entity `id` of kind `entity_type`: the link
/// has a kind and an address, and the row carries them.
pub open spec fn is_link_row_of(
    row: RowView,
    entity_type: Seq<char>,
    id: Seq<char>,
    link: LinkPayload,
) -> bool {
    match (link.link_type, link.url) {
        (Some(t), Some(u)) => row == (RowView::ExternalLink {
            entity_type,
            entity_id: id,
            link_type: t@,
            url: u@,
        }),
        _ => false,
    }
}

/// `row` is the image row of `image` for the artist `id`: the image has an address, and
/// the row carries it with the image's own license, source and thumbnail.
pub open spec fn is_image_row_of(row: RowView, id: Seq<char>, image: ImagePayload) -> bool {
    match image.url {
        Some(u) => row == (RowView::ArtistImage {
            artist_id: id,
            url: u@,
            license: opt_text(image.license),
            source: opt_text(image.source),
            thumbnail: opt_text(image.thumbnail),
        }),
        None => false,
    }
}

/// Row `k` of `rows` is the link row of some link of `links`.
pub open spec fn link_row_has_source(
    rows: Seq<RowView>,
    k: int,
    entity_type: Seq<char>,
    id: Seq<char>,
    links: Seq<LinkPayload>,
) -> bool {
    exists|j: int| 0 <= j < links.len() && #[trigger] is_link_row_of(rows[k], entity_type, id, links[j])
}

/// Row `k` of `rows` is the image row of some image of `images`.
pub open spec fn image_row_has_source(
    rows: Seq<RowView>,
    k: int,
    id: Seq<char>,
    images: Seq<ImagePayload>,
) -> bool {
    exists|j: int| 0 <= j < images.len() && #[trigger] is_image_row_of(rows[k], id, images[j])
}

/// Every link row comes from a link with both a kind and an address, carrying that kind
/// and address for the given entity; there are no more rows than links, and a link list
/// whose every entry is complete gives one row per link.
pub proof fn law_link_rows_come_from_complete_links(
    entity_type: Seq<char>,
    id: Seq<char>,
    links: Seq<LinkPayload>,
)
    ensures
        link_rows(entity_type, id, links).len() <= links.len(),
        forall|k: int|
            0 <= k < link_rows(entity_type, id, links).len() ==> #[trigger] link_row_has_source(
                link_rows(entity_type, id, links),
                k,
                entity_type,
                id,
                links,
            ),
        (forall|j: int| 0 <= j < links.len() ==> (#[trigger] links[j]).link_type is Some
            && links[j].url is Some) ==> link_rows(entity_type, id, links).len() == links.len(),
    decreases links.len(),
{
    if links.len() > 0 {
        let prev = links.drop_last();
        law_link_rows_come_from_complete_links(entity_type, id, prev);
        let rows = link_rows(entity_type, id, links);
        let prows = link_rows(entity_type, id, prev);
        assert forall|k: int| 0 <= k < rows.len() implies #[trigger] link_row_has_source(
            rows,
            k,
            entity_type,
            id,
            links,
        ) by {
            if k < prows.len() {
                assert(link_row_has_source(prows, k, entity_type, id, prev));
                let j = choose|j: int|
                    0 <= j < prev.len() && #[trigger] is_link_row_of(prows[k], entity_type, id, prev[j]);
                assert(rows[k] == prows[k]);
                assert(prev[j] == links[j]);
                assert(is_link_row_of(rows[k], entity_type, id, links[j]));
            } else {
                let last = links[links.len() - 1];
                assert(last == links.last());
                assert(last.link_type is Some && last.url is Some);
                assert(rows == prows.push(rows[k]));
                assert(is_link_row_of(rows[k], entity_type, id, last));
            }
        }
        if forall|j: int| 0 <= j < links.len() ==> (#[trigger] links[j]).link_type is Some
            && links[j].url is Some {
            assert forall|j: int| 0 <= j < prev.len() implies (#[trigger] prev[j]).link_type is Some
                && prev[j].url is Some by {
                assert(prev[j] == links[j]);
            }
            assert(links.last() == links[links.len() - 1]);
        }
    } else {
        assert(link_rows(entity_type, id, links).len() == 0);
    }
}

/// Every image row comes from an image with an address, carrying that address and the
/// image's own license, source and thumbnail; there are no more rows than images.
pub proof fn law_image_rows_come_from_images(id: Seq<char>, images: Seq<ImagePayload>)
    ensures
        image_rows(id, images).len() <= images.len(),
        forall|k: int|
            0 <= k < image_rows(id, images).len() ==> #[trigger] image_row_has_source(
                image_rows(id, images),
                k,
                id,
                images,
            ),
    decreases images.len(),
{
    if images.len() > 0 {
        let prev = images.drop_last();
        law_image_rows_come_from_images(id, prev);
        let rows = image_rows(id, images);
        let prows = image_rows(id, prev);
        assert forall|k: int| 0 <= k < rows.len() implies #[trigger] image_row_has_source(
            rows,
            k,
            id,
            images,
        ) by {
            if k < prows.len() {
                assert(image_row_has_source(prows, k, id, prev));
                let j = choose|j: int|
                    0 <= j < prev.len() && #[trigger] is_image_row_of(prows[k], id, prev[j]);
                assert(rows[k] == prows[k]);
                assert(prev[j] == images[j]);
                assert(is_image_row_of(rows[k], id, images[j]));
            } else {
                let last = images[images.len() - 1];
                assert(last == images.last());
                assert(last.url is Some);
                assert(is_image_row_of(rows[k], id, last));
            }
        }
    }
}

/// An artist's rows begin with the artist row, each field from the artist's own field,
/// then the row linking the artist to the track.
pub proof fn law_artist_rows_carry_their_fields(
    track_id: Seq<char>,
    a: ArtistPayload,
    artist_id: Seq<char>,
)
    ensures
        artist_rows(track_id, a, artist_id).len() >= 2,
        artist_rows(track_id, a, artist_id)[0] == (RowView::Artist {
            artist_id,
            name: text_or_empty(a.name),
            about_content: opt_text(a.about_content),
            about_source: opt_text(a.about_source),
            country: opt_text(a.country),
            raw_metadata: a.raw_metadata@,
        }),
        artist_rows(track_id, a, artist_id)[1] == (RowView::TrackArtist { track_id, artist_id }),
{
}

/// A buffer of at least the minimum is decoded whole while it is below the maximum, and
/// the maximum is taken from a longer one; a shorter one is left alone.
pub proof fn law_decode_piece_is_whole_buffer_up_to_max(len: nat)
    ensures
        len < MIN_DECODE_BYTES ==> decode_take(len) == 0,
        MIN_DECODE_BYTES <= len < MAX_DECODE_BYTES ==> decode_take(len) == len,
        MAX_DECODE_BYTES <= len ==> decode_take(len) == MAX_DECODE_BYTES,
{
}

/// A timeout changes nothing; only a disconnection ends the stream; a chunk goes to the
/// back of the queue while the stream has not ended.
pub proof fn law_receipts(v: ReaderView, r: ChunkReceipt)
    ensures
        after_receipt(v, ChunkReceipt::Timeout) == v,
        after_receipt(v, r).finished <==> (v.finished || r is Disconnected),
        after_receipt(v, r).position == v.position,
        r is Disconnected ==> after_receipt(v, r).buffered == v.buffered,
        r matches ChunkReceipt::Chunk(c) ==> after_receipt(v, r).buffered == if v.finished {
            v.buffered
        } else {
            v.buffered + c@
        },
{
}

/// Sanitizing replaces exactly `/ \ : * ? " < > |` by `_` and keeps every other
/// character; it only trims white space from the ends.
pub proof fn law_sanitize_replaces_exactly_the_forbidden(name: Seq<char>)
    ensures
        exists|k: int| #[trigger] keeps_all_but_forbidden(name, sanitized(name), k),
        (name.len() == 0 || (!is_white_space(name[0]) && !is_white_space(name.last())))
            ==> sanitized(name).len() == name.len(),
{
    lemma_sanitized_keeps_others(name);
}

/// The status line begins with `Streaming: ` and the streaming flag, and ends with
/// ` | Recording: `, the recording flag, ` | ` and the stream status.
pub proof fn law_status_line_shows_each_flag(s: AppState)
    ensures
        s.is_streaming ==> status_text(s).take(15) == "Streaming: true"@,
        !s.is_streaming ==> status_text(s).take(16) == "Streaming: false"@,
        status_text(s).skip(
            status_text(s).len() - (s.stream_status@.len() + 3 + 14 + if s.is_recording {
                4int
            } else {
                5int
            }),
        ) == " | Recording: "@ + (if s.is_recording {
            "true"@
        } else {
            "false"@
        }) + " | "@ + s.stream_status@,
{
    reveal_strlit("Streaming: ");
    reveal_strlit("Streaming: true");
    reveal_strlit("Streaming: false");
    reveal_strlit(" | Playing: ");
    reveal_strlit(" | Recording: ");
    reveal_strlit(" | ");
    reveal_strlit("true");
    reveal_strlit("false");
    let t = status_text(s);
    let head = "Streaming: "@ + (if s.is_streaming { "true"@ } else { "false"@ });
    let mid = " | Playing: "@ + (if s.is_playing { "true"@ } else { "false"@ });
    let tail = " | Recording: "@ + (if s.is_recording { "true"@ } else { "false"@ }) + " | "@
        + s.stream_status@;
    assert(t =~= head + mid + tail);
    assert(t.take(head.len() as int) =~= head);
    if s.is_streaming {
        assert(head =~= "Streaming: true"@);
    } else {
        assert(head =~= "Streaming: false"@);
    }
    assert(t.skip(t.len() - tail.len()) =~= tail);
}

} // verus!
