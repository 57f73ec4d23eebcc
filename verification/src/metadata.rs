//! Per-track metadata extraction: title, artist and embedded artwork read
//! from an audio file's byte content, plus the normalization that keeps the
//! rendered metadata all-present or all-absent.
//!
//! Tag parsing is done by the lofty crate on an in-memory copy of the file;
//! a parse failure of any kind simply yields absent values.

use std::io::Cursor;
use vstd::prelude::*;

verus! {

/// The text tags that lofty's primary tag yields for a given file content:
/// the title and the artist, each absent when the content holds no parseable
/// tag or the tag lacks the item. A function of the bytes alone.
pub uninterp spec fn tag_text_of(bytes: Seq<u8>) -> (Option<Seq<char>>, Option<Seq<char>>);

/// The first embedded picture that lofty's primary tag yields for a given
/// file content, absent when there is none or nothing parses. A function of
/// the bytes alone.
pub uninterp spec fn tag_artwork_of(bytes: Seq<u8>) -> Option<Seq<u8>>;

pub open spec fn opt_string_view(o: Option<String>) -> Option<Seq<char>> {
    match o {
        Some(s) => Some(s@),
        None => None,
    }
}

pub open spec fn opt_bytes_view(o: Option<Vec<u8>>) -> Option<Seq<u8>> {
    match o {
        Some(v) => Some(v@),
        None => None,
    }
}

/// Relies on lofty's `Probe::read`, `TaggedFileExt::primary_tag` and the
/// `Accessor` title/artist getters: on the same byte content they always
/// yield the same title and artist, and an unparseable content yields none.
#[verifier::external_body]
fn read_text_tags(bytes: &Vec<u8>) -> (r: (Option<String>, Option<String>))
    ensures
        (opt_string_view(r.0), opt_string_view(r.1)) == tag_text_of(bytes@),
{
    let parsed = lofty::Probe::new(Cursor::new(bytes.as_slice()))
        .guess_file_type()
        .ok()
        .and_then(|probe| probe.read().ok());
    match parsed.as_ref().and_then(lofty::TaggedFileExt::primary_tag) {
        Some(tag) => (
            lofty::Accessor::title(tag).map(|t| t.to_string()),
            lofty::Accessor::artist(tag).map(|a| a.to_string()),
        ),
        None => (None, None),
    }
}

/// Relies on lofty's `Probe::read`, `TaggedFileExt::primary_tag` and
/// `Tag::pictures`: on the same byte content they always yield the same
/// first picture, and an unparseable content yields none.
#[verifier::external_body]
fn read_first_picture(bytes: &Vec<u8>) -> (r: Option<Vec<u8>>)
    ensures
        opt_bytes_view(r) == tag_artwork_of(bytes@),
{
    let parsed = lofty::Probe::new(Cursor::new(bytes.as_slice()))
        .guess_file_type()
        .ok()
        .and_then(|probe| probe.read().ok());
    parsed
        .as_ref()
        .and_then(lofty::TaggedFileExt::primary_tag)
        .and_then(|tag| tag.pictures().first())
        .map(|picture| picture.data().to_vec())
}

/// The title and artist embedded in the given audio file content, each
/// independently optional; both absent when nothing parses.
pub fn extract_metadata(bytes: &Vec<u8>) -> (r: (Option<String>, Option<String>))
    ensures
        opt_string_view(r.0) == tag_text_of(bytes@).0,
        opt_string_view(r.1) == tag_text_of(bytes@).1,
{
    read_text_tags(bytes)
}

/// The raw bytes of the first picture embedded in the given audio file
/// content, absent when there is none or nothing parses.
pub fn extract_album_art(bytes: &Vec<u8>) -> (r: Option<Vec<u8>>)
    ensures
        opt_bytes_view(r) == tag_artwork_of(bytes@),
{
    read_first_picture(bytes)
}

/// The metadata shown for the currently loaded track. Either all three items
/// are present together, or the whole record is absent.
#[derive(Debug, Clone)]
pub struct TrackMetadata {
    pub title: String,
    pub artist: String,
    pub artwork: Vec<u8>,
}

/// A partial extraction result is normalized to a fully absent one: the
/// record exists exactly when title, artist and artwork are all present.
pub open spec fn normalized_metadata(
    title: Option<String>,
    artist: Option<String>,
    artwork: Option<Vec<u8>>,
) -> Option<TrackMetadata> {
    match (title, artist, artwork) {
        (Some(t), Some(a), Some(w)) => Some(TrackMetadata { title: t, artist: a, artwork: w }),
        _ => None,
    }
}

/// Combines an extraction result into the displayed record: all three items
/// present together, or nothing. A file with no tag, or a tag missing any
/// item, yields a fully absent result.
pub fn normalize_metadata(
    title: Option<String>,
    artist: Option<String>,
    artwork: Option<Vec<u8>>,
) -> (r: Option<TrackMetadata>)
    ensures
        r == normalized_metadata(title, artist, artwork),
        r is Some <==> (title is Some && artist is Some && artwork is Some),
{
    match (title, artist, artwork) {
        (Some(t), Some(a), Some(w)) => Some(TrackMetadata { title: t, artist: a, artwork: w }),
        _ => None,
    }
}

} // verus!
