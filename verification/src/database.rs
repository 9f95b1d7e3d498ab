//! Track metadata: image addresses, the image cache's file names, the stored record
//! types, and the rows that a current-track answer is stored as.

use vstd::prelude::*;
use vstd::utf8::encode_utf8;
use crate::channels::sized_artwork_url;
use crate::text::{concat3, contains_str, lower_hex, occurs_in, push_char, to_lower_hex};

verus! {

/// The sizes in which artwork can be asked for.
#[derive(Debug, Clone, Copy, PartialEq, Eq)]
pub enum ImageSize {
    Thumbnail,
    Small,
    Medium,
    Large,
    Original,
}

/// A stored track.
#[derive(Debug, Clone)]
pub struct TrackRecord {
    pub track_id: String,
    pub title: String,
    pub artist_credits: String,
    pub artwork_url: Option<String>,
    pub raw_metadata: String,
    pub created_at: String,
    pub updated_at: String,
}

/// A stored artist.
#[derive(Debug, Clone)]
pub struct ArtistRecord {
    pub artist_id: String,
    pub name: String,
    pub about_content: Option<String>,
    pub about_source: Option<String>,
    pub country: Option<String>,
    pub raw_metadata: String,
    pub created_at: String,
    pub updated_at: String,
}

/// The value of the `type` parameter for `size`.
pub open spec fn size_param(size: ImageSize) -> Seq<char> {
    match size {
        ImageSize::Thumbnail => "thumbnail"@,
        ImageSize::Small => "small"@,
        ImageSize::Medium => "medium"@,
        ImageSize::Large => "large"@,
        ImageSize::Original => Seq::empty(),
    }
}

/// `url` asking for `size` where the artwork host serves sizes; the original size is
/// `url` itself.
pub open spec fn enhanced_image_url(url: Seq<char>, size: ImageSize) -> Seq<char> {
    match size {
        ImageSize::Original => url,
        _ => sized_artwork_url(url, size_param(size)),
    }
}

/// The address of the image at `url` in the size `size`.
pub fn enhance_image_url(url: &str, size: ImageSize) -> (res: String)
    ensures
        res@ == enhanced_image_url(url@, size),
        size is Original || !occurs_in("fluxmusic.cdn.radiosphere.io"@, url@) ==> res@ == url@,
        size !is Original && occurs_in("fluxmusic.cdn.radiosphere.io"@, url@) ==> res@ == url@
            + "?type="@ + match size {
            ImageSize::Thumbnail => "thumbnail"@,
            ImageSize::Small => "small"@,
            ImageSize::Medium => "medium"@,
            _ => "large"@,
        },
{
    let param = match size {
        ImageSize::Thumbnail => "thumbnail",
        ImageSize::Small => "small",
        ImageSize::Medium => "medium",
        ImageSize::Large => "large",
        ImageSize::Original => {
            return String::from_str(url);
        },
    };
    if contains_str(url, "fluxmusic.cdn.radiosphere.io") {
        concat3(url, "?type=", param)
    } else {
        String::from_str(url)
    }
}

/// The MD5 digest of `data`.
pub uninterp spec fn md5_digest(data: Seq<u8>) -> Seq<u8>;

/// `md5::compute`: the MD5 digest of `data`, 16 bytes.
#[verifier::external_body]
fn md5_compute(data: &[u8]) -> (d: Vec<u8>)
    ensures
        d@ == md5_digest(data@),
        d@.len() == 16,
{
    md5::compute(data).0.to_vec()
}

/// What follows the last `.` of `s`; all of `s` where it holds none.
pub open spec fn after_last_dot(s: Seq<char>) -> Seq<char>
    decreases s.len(),
{
    if s.len() == 0 {
        Seq::empty()
    } else if s.last() == '.' {
        Seq::empty()
    } else {
        after_last_dot(s.drop_last()).push(s.last())
    }
}

/// The cache file name of the image at `url`: the hexadecimal MD5 digest of the
/// address, a dot, and what follows the address's last dot.
pub open spec fn cache_file_name_of(url: Seq<char>) -> Seq<char> {
    lower_hex(md5_digest(encode_utf8(url))) + "."@ + after_last_dot(url)
}

/// What follows the last `.` of `s`.
pub fn last_dot_segment(s: &str) -> (res: String)
    ensures
        res@ == after_last_dot(s@),
{
    let mut seg = String::new();
    let ghost mut seen: Seq<char> = Seq::empty();
    for c in it: s.chars()
        invariant
            it.seq() == s@,
            seen == it.history(),
            seg@ == after_last_dot(seen),
    {
        let ghost h = it.history();
        if c == '.' {
            seg = String::new();
        } else {
            push_char(&mut seg, c);
        }
        proof {
            assert(h.push(c).drop_last() =~= h);
            seen = h.push(c);
        }
    }
    assert(seen =~= s@);
    seg
}

/// The file name under which the image at `url` is cached.
pub fn cache_file_name(url: &str) -> (res: String)
    ensures
        res@ == cache_file_name_of(url@),
{
    let digest = md5_compute(url.as_bytes());
    let hex = to_lower_hex(digest.as_slice());
    let ext = last_dot_segment(url);
    concat3(hex.as_str(), ".", ext.as_str())
}

} // verus!
