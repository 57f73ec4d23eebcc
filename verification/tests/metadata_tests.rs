use music_jester::metadata::{extract_album_art, extract_metadata, normalize_metadata};

fn flac_block(ty: u8, last: bool, content: &[u8]) -> Vec<u8> {
    let mut v = Vec::new();
    v.push(if last { ty | 0x80 } else { ty });
    let len = content.len() as u32;
    v.push((len >> 16) as u8);
    v.push((len >> 8) as u8);
    v.push(len as u8);
    v.extend_from_slice(content);
    v
}

fn vorbis_comments(items: &[&str]) -> Vec<u8> {
    let vendor = b"test vendor";
    let mut c = Vec::new();
    c.extend_from_slice(&(vendor.len() as u32).to_le_bytes());
    c.extend_from_slice(vendor);
    c.extend_from_slice(&(items.len() as u32).to_le_bytes());
    for item in items {
        c.extend_from_slice(&(item.len() as u32).to_le_bytes());
        c.extend_from_slice(item.as_bytes());
    }
    c
}

fn flac_picture(data: &[u8]) -> Vec<u8> {
    let mime = b"image/png";
    let mut c = Vec::new();
    c.extend_from_slice(&3u32.to_be_bytes()); // picture type: front cover
    c.extend_from_slice(&(mime.len() as u32).to_be_bytes());
    c.extend_from_slice(mime);
    c.extend_from_slice(&0u32.to_be_bytes()); // empty description
    c.extend_from_slice(&0u32.to_be_bytes()); // width
    c.extend_from_slice(&0u32.to_be_bytes()); // height
    c.extend_from_slice(&0u32.to_be_bytes()); // colour depth
    c.extend_from_slice(&0u32.to_be_bytes()); // palette size
    c.extend_from_slice(&(data.len() as u32).to_be_bytes());
    c.extend_from_slice(data);
    c
}

/// A minimal FLAC stream: the `fLaC` marker, an all-zero STREAMINFO block,
/// and optionally a Vorbis comment block and a picture block.
fn minimal_flac(comments: Option<&[&str]>, art: Option<&[u8]>) -> Vec<u8> {
    let mut v = Vec::new();
    v.extend_from_slice(b"fLaC");
    let streaminfo = [0u8; 34];
    let only_streaminfo = comments.is_none() && art.is_none();
    v.extend_from_slice(&flac_block(0, only_streaminfo, &streaminfo));
    if let Some(items) = comments {
        v.extend_from_slice(&flac_block(4, art.is_none(), &vorbis_comments(items)));
    }
    if let Some(data) = art {
        v.extend_from_slice(&flac_block(6, true, &flac_picture(data)));
    }
    v
}

#[test]
fn tagged_file_yields_title_and_artist() {
    let bytes = minimal_flac(Some(&["TITLE=X", "ARTIST=Y"]), None);
    let (title, artist) = extract_metadata(&bytes);
    assert_eq!(title.as_deref(), Some("X"));
    assert_eq!(artist.as_deref(), Some("Y"));
}

#[test]
fn tagged_file_yields_first_picture_bytes() {
    let art: &[u8] = &[1, 2, 3, 4, 5];
    let bytes = minimal_flac(Some(&["TITLE=X"]), Some(art));
    let found = extract_album_art(&bytes);
    assert_eq!(found.as_deref(), Some(art));
}

#[test]
fn title_only_tag_leaves_artist_absent() {
    let bytes = minimal_flac(Some(&["TITLE=Solo"]), None);
    let (title, artist) = extract_metadata(&bytes);
    assert_eq!(title.as_deref(), Some("Solo"));
    assert!(artist.is_none());
}

#[test]
fn file_without_tag_yields_fully_absent_metadata() {
    let bytes = minimal_flac(None, None);
    let (title, artist) = extract_metadata(&bytes);
    assert!(title.is_none());
    assert!(artist.is_none());
    assert!(extract_album_art(&bytes).is_none());
}

#[test]
fn unparseable_content_yields_fully_absent_metadata() {
    let bytes = vec![0x00, 0x01, 0x02, 0x03, 0xff, 0xfe];
    let (title, artist) = extract_metadata(&bytes);
    assert!(title.is_none());
    assert!(artist.is_none());
    assert!(extract_album_art(&bytes).is_none());
}

#[test]
fn empty_content_yields_fully_absent_metadata() {
    let bytes = Vec::new();
    let (title, artist) = extract_metadata(&bytes);
    assert!(title.is_none());
    assert!(artist.is_none());
    assert!(extract_album_art(&bytes).is_none());
}

#[test]
fn normalization_keeps_a_complete_record() {
    let r = normalize_metadata(
        Some("T".to_string()),
        Some("A".to_string()),
        Some(vec![1, 2]),
    );
    let meta = r.expect("complete metadata is kept");
    assert_eq!(meta.title, "T");
    assert_eq!(meta.artist, "A");
    assert_eq!(meta.artwork, vec![1, 2]);
}

#[test]
fn normalization_discards_partial_records() {
    assert!(normalize_metadata(None, None, None).is_none());
    assert!(normalize_metadata(Some("T".to_string()), None, None).is_none());
    assert!(normalize_metadata(None, Some("A".to_string()), None).is_none());
    assert!(normalize_metadata(None, None, Some(vec![1])).is_none());
    assert!(
        normalize_metadata(Some("T".to_string()), Some("A".to_string()), None).is_none()
    );
    assert!(normalize_metadata(Some("T".to_string()), None, Some(vec![1])).is_none());
    assert!(normalize_metadata(None, Some("A".to_string()), Some(vec![1])).is_none());
}
