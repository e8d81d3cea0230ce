use rawpreview::arw::Arw;
use rawpreview::cr2::Cr2;
use rawpreview::cr3::Cr3;
use rawpreview::error::RawError;
use rawpreview::nef::Nef;
use rawpreview::tiff::Thumbnail;

fn le_tag(id: u16, typ: u16, count: u32, last: [u8; 4]) -> Vec<u8> {
    let mut r = Vec::new();
    r.extend_from_slice(&id.to_le_bytes());
    r.extend_from_slice(&typ.to_le_bytes());
    r.extend_from_slice(&count.to_le_bytes());
    r.extend_from_slice(&last);
    r
}

fn tiff_header_le(first_ifd: u32) -> Vec<u8> {
    let mut b = vec![0x49, 0x49, 0x2a, 0x00];
    b.extend_from_slice(&first_ifd.to_le_bytes());
    b
}

/// A CR2 buffer: an empty first directory, then a second directory with
/// one-strip arrays [(100, 50)].
fn cr2_two_directory_buffer() -> Vec<u8> {
    let mut buf = tiff_header_le(8);
    // Directory 0 at offset 8: zero tags, next -> 14.
    buf.extend_from_slice(&[0x00, 0x00]);
    buf.extend_from_slice(&14u32.to_le_bytes());
    // Directory 1 at offset 14: one-strip offset/byte-count arrays, inline.
    buf.extend_from_slice(&[0x02, 0x00]);
    buf.extend(le_tag(273, 4, 1, [100, 0, 0, 0]));
    buf.extend(le_tag(279, 4, 1, [50, 0, 0, 0]));
    buf.extend_from_slice(&[0, 0, 0, 0]);
    buf
}

#[test]
fn test_cr2_second_directory_strip() {
    let cr2 = Cr2::new(cr2_two_directory_buffer());
    assert_eq!(
        cr2.locate_thumbnail(),
        Ok(Thumbnail { offset: 100, length: 50 })
    );
}

#[test]
fn test_cr2_descriptor_out_of_bounds() {
    // The descriptor {100, 50} reads past this 44-byte buffer.
    let cr2 = Cr2::new(cr2_two_directory_buffer());
    assert_eq!(cr2.thumbnail_bytes(), Err(RawError::OutOfBounds));
}

#[test]
fn test_cr2_strip_bytes_roundtrip() {
    let mut b = cr2_two_directory_buffer();
    while b.len() < 100 {
        b.push(0);
    }
    b.extend(std::iter::repeat(0xEE).take(50));
    let cr2 = Cr2::new(b);
    let first = cr2.thumbnail_bytes().unwrap();
    let second = cr2.thumbnail_bytes().unwrap();
    assert_eq!(first, vec![0xEE; 50]);
    // Extracting twice from the same buffer is idempotent.
    assert_eq!(first, second);
    assert_eq!(cr2.locate_thumbnail(), cr2.locate_thumbnail());
}

#[test]
fn test_cr2_chain_terminates_early() {
    // Directory 0's next-pointer is 0: no second directory.
    let mut buf = tiff_header_le(8);
    buf.extend_from_slice(&[0x00, 0x00]);
    buf.extend_from_slice(&[0, 0, 0, 0]);
    let cr2 = Cr2::new(buf);
    assert_eq!(cr2.locate_thumbnail(), Err(RawError::ThumbnailNotFound));
}

#[test]
fn test_cr2_second_directory_without_strips() {
    let mut buf = tiff_header_le(8);
    buf.extend_from_slice(&[0x00, 0x00]);
    buf.extend_from_slice(&14u32.to_le_bytes());
    buf.extend_from_slice(&[0x00, 0x00]);
    buf.extend_from_slice(&[0, 0, 0, 0]);
    let cr2 = Cr2::new(buf);
    assert_eq!(cr2.locate_thumbnail(), Err(RawError::ThumbnailNotFound));
}

/// An ARW buffer: one directory carrying the thumbnail pair {40, 4}, with
/// the preview bytes [9, 9, 9, 9] at offset 40.
fn arw_buffer() -> Vec<u8> {
    let mut buf = tiff_header_le(8);
    buf.extend_from_slice(&[0x02, 0x00]);
    buf.extend(le_tag(513, 4, 1, [40, 0, 0, 0]));
    buf.extend(le_tag(514, 4, 1, [4, 0, 0, 0]));
    buf.extend_from_slice(&[0, 0, 0, 0]);
    while buf.len() < 40 {
        buf.push(0);
    }
    buf.extend_from_slice(&[9, 9, 9, 9]);
    buf
}

#[test]
fn test_arw_directory_with_pair() {
    let arw = Arw::new(arw_buffer());
    assert_eq!(
        arw.locate_thumbnail(),
        Ok(Thumbnail { offset: 40, length: 4 })
    );
    assert_eq!(arw.thumbnail_bytes(), Ok(vec![9, 9, 9, 9]));
}

#[test]
fn test_arw_extraction_idempotent() {
    let arw = Arw::new(arw_buffer());
    assert_eq!(arw.locate_thumbnail(), arw.locate_thumbnail());
    assert_eq!(arw.thumbnail_bytes(), arw.thumbnail_bytes());
}

#[test]
fn test_arw_cycle_terminates_not_found() {
    // Directory 0's next-pointer points back at directory 0 itself: the
    // bounded walk must end in ThumbnailNotFound, not loop forever.
    let mut buf = tiff_header_le(8);
    buf.extend_from_slice(&[0x00, 0x00]);
    buf.extend_from_slice(&8u32.to_le_bytes());
    let arw = Arw::new(buf);
    assert_eq!(arw.locate_thumbnail(), Err(RawError::ThumbnailNotFound));
}

#[test]
fn test_arw_two_directory_cycle_not_found() {
    // Two directories pointing at each other.
    let mut buf = tiff_header_le(8);
    buf.extend_from_slice(&[0x00, 0x00]);
    buf.extend_from_slice(&14u32.to_le_bytes());
    buf.extend_from_slice(&[0x00, 0x00]);
    buf.extend_from_slice(&8u32.to_le_bytes());
    let arw = Arw::new(buf);
    assert_eq!(arw.locate_thumbnail(), Err(RawError::ThumbnailNotFound));
}

#[test]
fn test_arw_missing_length_tag_not_found() {
    let mut buf = tiff_header_le(8);
    buf.extend_from_slice(&[0x01, 0x00]);
    buf.extend(le_tag(513, 4, 1, [40, 0, 0, 0]));
    buf.extend_from_slice(&[0, 0, 0, 0]);
    let arw = Arw::new(buf);
    assert_eq!(arw.locate_thumbnail(), Err(RawError::ThumbnailNotFound));
}

#[test]
fn test_arw_malformed_header() {
    let arw = Arw::new(vec![0x00, 0x11]);
    assert_eq!(arw.locate_thumbnail(), Err(RawError::MalformedHeader));
}

/// A NEF buffer: the first directory carries the sub-directory pointer
/// (tag 330) to offset 26; the sub-directory carries the pair {60, 5}.
fn nef_buffer() -> Vec<u8> {
    let mut buf = tiff_header_le(8);
    buf.extend_from_slice(&[0x01, 0x00]);
    buf.extend(le_tag(330, 4, 1, [26, 0, 0, 0]));
    buf.extend_from_slice(&[0, 0, 0, 0]);
    assert_eq!(buf.len(), 26);
    buf.extend_from_slice(&[0x02, 0x00]);
    buf.extend(le_tag(513, 4, 1, [60, 0, 0, 0]));
    buf.extend(le_tag(514, 4, 1, [5, 0, 0, 0]));
    buf.extend_from_slice(&[0, 0, 0, 0]);
    while buf.len() < 60 {
        buf.push(0);
    }
    buf.extend_from_slice(&[7, 7, 7, 7, 7]);
    buf
}

#[test]
fn test_nef_subdirectory_pair() {
    let nef = Nef::new(nef_buffer());
    assert_eq!(
        nef.locate_thumbnail(),
        Ok(Thumbnail { offset: 60, length: 5 })
    );
    assert_eq!(nef.thumbnail_bytes(), Ok(vec![7; 5]));
}

#[test]
fn test_nef_missing_subifd_not_found() {
    // No sub-directory pointer tag: NEF does not fall back to scanning the
    // top-level chain, even though this directory carries the pair itself.
    let mut buf = tiff_header_le(8);
    buf.extend_from_slice(&[0x02, 0x00]);
    buf.extend(le_tag(513, 4, 1, [40, 0, 0, 0]));
    buf.extend(le_tag(514, 4, 1, [4, 0, 0, 0]));
    buf.extend_from_slice(&[0, 0, 0, 0]);
    while buf.len() < 44 {
        buf.push(9);
    }
    let nef = Nef::new(buf);
    assert_eq!(nef.locate_thumbnail(), Err(RawError::ThumbnailNotFound));
}

#[test]
fn test_nef_subdirectory_without_pair_not_found() {
    let mut buf = tiff_header_le(8);
    buf.extend_from_slice(&[0x01, 0x00]);
    buf.extend(le_tag(330, 4, 1, [26, 0, 0, 0]));
    buf.extend_from_slice(&[0, 0, 0, 0]);
    buf.extend_from_slice(&[0x00, 0x00]);
    buf.extend_from_slice(&[0, 0, 0, 0]);
    let nef = Nef::new(buf);
    assert_eq!(nef.locate_thumbnail(), Err(RawError::ThumbnailNotFound));
}

#[test]
fn test_nef_short_pointer_value_not_found() {
    // The sub-directory pointer tag holds fewer than 4 value bytes.
    let mut buf = tiff_header_le(8);
    buf.extend_from_slice(&[0x01, 0x00]);
    buf.extend(le_tag(330, 3, 1, [26, 0, 0, 0]));
    buf.extend_from_slice(&[0, 0, 0, 0]);
    let nef = Nef::new(buf);
    assert_eq!(nef.locate_thumbnail(), Err(RawError::ThumbnailNotFound));
}

const PRVW_UUID: [u8; 16] = [
    0xea, 0xf4, 0x2b, 0x5e, 0x1c, 0x98, 0x4b, 0x88, 0xb9, 0xfb, 0xb7, 0xdc, 0x40, 0x6e, 0x4d,
    0x16,
];

const MOOV_UUID: [u8; 16] = [
    0x85, 0xc0, 0xb6, 0x87, 0x82, 0x0f, 0x11, 0xe0, 0x81, 0x11, 0xf4, 0xce, 0x46, 0x2b, 0x6a,
    0x48,
];

fn box_header(size: u32, typ: &[u8; 4]) -> Vec<u8> {
    let mut b = Vec::new();
    b.extend_from_slice(&size.to_be_bytes());
    b.extend_from_slice(typ);
    b
}

/// A CR3 buffer: a 16-byte filler box, then a UUID box at offset 16 whose
/// identifier is `uuid`, 4 bytes of preview-record prefix, the big-endian
/// payload size 200 at offset 44, and 200 payload bytes from offset 48.
fn cr3_buffer(uuid: [u8; 16]) -> Vec<u8> {
    let mut buf = box_header(16, b"free");
    buf.extend_from_slice(&[0; 8]);
    assert_eq!(buf.len(), 16);
    buf.extend(box_header(232, b"uuid"));
    buf.extend_from_slice(&uuid);
    buf.extend_from_slice(&[0; 4]);
    assert_eq!(buf.len(), 44);
    buf.extend_from_slice(&200u32.to_be_bytes());
    buf.extend(std::iter::repeat(0xAB).take(200));
    buf
}

#[test]
fn test_cr3_preview_box() {
    let cr3 = Cr3::new(cr3_buffer(PRVW_UUID));
    assert_eq!(
        cr3.locate_thumbnail(),
        Ok(Thumbnail { offset: 48, length: 200 })
    );
    assert_eq!(cr3.thumbnail_bytes(), Ok(vec![0xAB; 200]));
}

#[test]
fn test_cr3_movie_box_skipped_not_found() {
    // The movie-box identifier is recognized and skipped: the scan reaches
    // end-of-buffer without a match.
    let cr3 = Cr3::new(cr3_buffer(MOOV_UUID));
    assert_eq!(cr3.locate_thumbnail(), Err(RawError::ThumbnailNotFound));
}

#[test]
fn test_cr3_size_field_out_of_bounds() {
    // The preview UUID matches but the buffer ends before the size field.
    let mut buf = box_header(32, b"uuid");
    buf.extend_from_slice(&PRVW_UUID);
    let cr3 = Cr3::new(buf);
    assert_eq!(cr3.locate_thumbnail(), Err(RawError::OutOfBounds));
}

#[test]
fn test_cr3_payload_out_of_bounds() {
    // The size field declares more payload bytes than the buffer holds.
    let mut buf = box_header(232, b"uuid");
    buf.extend_from_slice(&PRVW_UUID);
    buf.extend_from_slice(&[0; 4]);
    buf.extend_from_slice(&200u32.to_be_bytes());
    buf.extend_from_slice(&[0xAB; 10]);
    let cr3 = Cr3::new(buf);
    assert_eq!(
        cr3.locate_thumbnail(),
        Ok(Thumbnail { offset: 32, length: 200 })
    );
    assert_eq!(cr3.thumbnail_bytes(), Err(RawError::OutOfBounds));
}

#[test]
fn test_cr3_scan_cap_bounds_zero_length_boxes() {
    // A zero-length box never advances: the bounded scan must still end.
    let mut buf = box_header(0, b"free");
    buf.extend_from_slice(&[0; 24]);
    let cr3 = Cr3::new(buf);
    assert_eq!(cr3.locate_thumbnail(), Err(RawError::ThumbnailNotFound));
}

#[test]
fn test_cr3_empty_buffer_not_found() {
    let cr3 = Cr3::new(Vec::new());
    assert_eq!(cr3.locate_thumbnail(), Err(RawError::ThumbnailNotFound));
}

#[test]
fn test_cr3_parse_box() {
    let cr3 = Cr3::new(cr3_buffer(PRVW_UUID));
    let bx = cr3.parse_box(0).unwrap();
    assert_eq!(bx.size, 16);
    assert_eq!(bx.box_type, b"free".to_vec());
    let bx = cr3.parse_box(16).unwrap();
    assert_eq!(bx.size, 232);
    assert_eq!(bx.box_type, b"uuid".to_vec());
}

#[test]
fn test_cr3_parse_box_out_of_bounds() {
    let cr3 = Cr3::new(vec![0, 0, 0, 8]);
    assert_eq!(cr3.parse_box(0).map(|_| ()), Err(RawError::OutOfBounds));
}

#[test]
fn test_cr3_prase_uuid_hex() {
    let cr3 = Cr3::new(PRVW_UUID.to_vec());
    assert_eq!(
        cr3.prase_uuid(0).unwrap(),
        "eaf42b5e1c984b88b9fbb7dc406e4d16"
    );
}

#[test]
fn test_cr3_prase_uuid_pads_low_bytes() {
    let bytes: [u8; 16] = [
        0x0e, 0x01, 0x00, 0xff, 0x10, 0x09, 0x80, 0x07, 0x0a, 0x0b, 0x0c, 0x0d, 0x02, 0x03,
        0x04, 0x05,
    ];
    let cr3 = Cr3::new(bytes.to_vec());
    assert_eq!(
        cr3.prase_uuid(0).unwrap(),
        "0e0100ff100980070a0b0c0d02030405"
    );
}

#[test]
fn test_cr3_prase_uuid_out_of_bounds() {
    let cr3 = Cr3::new(vec![0; 10]);
    assert_eq!(cr3.prase_uuid(0).map(|_| ()), Err(RawError::OutOfBounds));
}
