use rawpreview::cursor::{read_u16, read_u32, slice_bytes, ByteOrder};
use rawpreview::error::RawError;
use rawpreview::tiff::{Tags, Thumbnail, Tiff};

/// A 12-byte tag record: id, type, count (little-endian), then the 4-byte
/// inline-value/offset field.
fn tag_record(id: u16, typ: u16, count: u32, last: [u8; 4]) -> Vec<u8> {
    let mut r = Vec::new();
    r.extend_from_slice(&id.to_le_bytes());
    r.extend_from_slice(&typ.to_le_bytes());
    r.extend_from_slice(&count.to_le_bytes());
    r.extend_from_slice(&last);
    r
}

#[test]
fn test_parse_header_little_endian() {
    let buf = vec![0x49, 0x49, 0x2a, 0x00, 0x78, 0x56, 0x34, 0x12];
    let h = Tiff::parse_header(&buf).unwrap();
    assert_eq!(h.byte_order, ByteOrder::LittleEndian);
    assert_eq!(h.number, 42);
    assert_eq!(h.ifd_offset, 0x12345678);
}

#[test]
fn test_parse_header_big_endian() {
    let buf = vec![0x4d, 0x4d, 0x00, 0x2a, 0x12, 0x34, 0x56, 0x78];
    let h = Tiff::parse_header(&buf).unwrap();
    assert_eq!(h.byte_order, ByteOrder::BigEndian);
    assert_eq!(h.number, 42);
    assert_eq!(h.ifd_offset, 0x12345678);
}

#[test]
fn test_parse_header_short_buffer() {
    let buf = vec![0x49, 0x49, 0x2a, 0x00, 0x08, 0x00, 0x00];
    assert_eq!(Tiff::parse_header(&buf), Err(RawError::MalformedHeader));
}

#[test]
fn test_parse_header_bad_marker() {
    let buf = vec![0x49, 0x4d, 0x2a, 0x00, 0x08, 0x00, 0x00, 0x00];
    assert_eq!(Tiff::parse_header(&buf), Err(RawError::MalformedHeader));
}

#[test]
fn test_parse_tag_inline_value() {
    // One SHORT (2 bytes <= 4): the value is the record's own bytes 8..10.
    let buf = tag_record(259, 3, 1, [0xAA, 0xBB, 0xCC, 0xDD]);
    let t = Tiff::parse_tag(&buf, 0).unwrap();
    assert_eq!(t.tag, 259);
    assert_eq!(t.tag_type, 3);
    assert_eq!(t.count, 1);
    assert_eq!(t.value, vec![0xAA, 0xBB]);
}

#[test]
fn test_parse_tag_offset_value() {
    // Two LONGs (8 bytes > 4): the record's last field is an absolute
    // offset, here 12, where the 8 value bytes live.
    let mut buf = tag_record(273, 4, 2, [12, 0, 0, 0]);
    buf.extend_from_slice(&[1, 2, 3, 4, 5, 6, 7, 8]);
    let t = Tiff::parse_tag(&buf, 0).unwrap();
    assert_eq!(t.count, 2);
    assert_eq!(t.value, vec![1, 2, 3, 4, 5, 6, 7, 8]);
}

#[test]
fn test_parse_tag_value_out_of_bounds() {
    // The offset points past the buffer end.
    let buf = tag_record(273, 4, 2, [100, 0, 0, 0]);
    assert!(matches!(Tiff::parse_tag(&buf, 0), Err(RawError::OutOfBounds)));
}

#[test]
fn test_parse_tag_truncated_record() {
    let buf = vec![0x11, 0x01, 0x04, 0x00];
    assert!(matches!(Tiff::parse_tag(&buf, 0), Err(RawError::OutOfBounds)));
}

#[test]
fn test_parse_ifd_single_tag() {
    let mut buf = vec![0x01, 0x00];
    buf.extend(tag_record(259, 3, 1, [8, 0, 0, 0]));
    buf.extend_from_slice(&[0x2a, 0x00, 0x00, 0x00]);
    let d = Tiff::parse_ifd(&buf, 0).unwrap();
    assert_eq!(d.tags.len(), 1);
    assert_eq!(d.tags[0].tag, 259);
    assert_eq!(d.tags[0].value, vec![8, 0]);
    assert_eq!(d.next, 0x2a);
}

#[test]
fn test_parse_ifd_overrunning_count() {
    // A count of 0xFFFF cannot fit in a 10-byte buffer.
    let buf = vec![0xFF, 0xFF, 0, 0, 0, 0, 0, 0, 0, 0];
    assert_eq!(
        Tiff::parse_ifd(&buf, 0).map(|_| ()),
        Err(RawError::MalformedDirectory)
    );
}

#[test]
fn test_get_tag_first_match() {
    // Two records with the same id: the scan takes the first in on-disk
    // order.
    let mut buf = vec![0x02, 0x00];
    buf.extend(tag_record(513, 4, 1, [1, 0, 0, 0]));
    buf.extend(tag_record(513, 4, 1, [2, 0, 0, 0]));
    buf.extend_from_slice(&[0, 0, 0, 0]);
    let d = Tiff::parse_ifd(&buf, 0).unwrap();
    let t = d.get_tag(513).unwrap();
    assert_eq!(t.value, vec![1, 0, 0, 0]);
    assert!(d.get_tag(999).is_none());
}

#[test]
fn test_get_thumbnail_pair() {
    let mut buf = vec![0x02, 0x00];
    buf.extend(tag_record(Tags::ThumbnailOffset.id(), 4, 1, [100, 0, 0, 0]));
    buf.extend(tag_record(Tags::ThumbnailLength.id(), 4, 1, [50, 0, 0, 0]));
    buf.extend_from_slice(&[0, 0, 0, 0]);
    let d = Tiff::parse_ifd(&buf, 0).unwrap();
    assert_eq!(
        d.get_thumbnail(),
        Some(Thumbnail { offset: 100, length: 50 })
    );
}

#[test]
fn test_get_thumbnail_missing_length() {
    let mut buf = vec![0x01, 0x00];
    buf.extend(tag_record(Tags::ThumbnailOffset.id(), 4, 1, [100, 0, 0, 0]));
    buf.extend_from_slice(&[0, 0, 0, 0]);
    let d = Tiff::parse_ifd(&buf, 0).unwrap();
    assert!(d.get_thumbnail().is_none());
}

#[test]
fn test_get_strips_two_strips() {
    // Compression 8, and two strips whose arrays (8 bytes each) are stored
    // at absolute offsets behind the directory.
    let mut buf = vec![0x03, 0x00];
    buf.extend(tag_record(Tags::Compression.id(), 3, 1, [8, 0, 0, 0]));
    buf.extend(tag_record(Tags::StripOffsets.id(), 4, 2, [44, 0, 0, 0]));
    buf.extend(tag_record(Tags::StripByteCounts.id(), 4, 2, [52, 0, 0, 0]));
    buf.extend_from_slice(&[0, 0, 0, 0]);
    assert_eq!(buf.len(), 42);
    buf.extend_from_slice(&[0, 0]); // padding to offset 44
    buf.extend_from_slice(&[100, 0, 0, 0, 200, 0, 0, 0]); // strip offsets
    buf.extend_from_slice(&[10, 0, 0, 0, 20, 0, 0, 0]); // strip byte counts
    let d = Tiff::parse_ifd(&buf, 0).unwrap();
    let strips = d.get_strips();
    assert_eq!(strips.len(), 2);
    assert_eq!(strips[0].offset, 100);
    assert_eq!(strips[0].length, 10);
    assert_eq!(strips[0].compression, 8);
    assert_eq!(strips[1].offset, 200);
    assert_eq!(strips[1].length, 20);
}

#[test]
fn test_get_strips_missing_tag_empty() {
    let mut buf = vec![0x01, 0x00];
    buf.extend(tag_record(Tags::StripOffsets.id(), 4, 1, [0, 0, 0, 0]));
    buf.extend_from_slice(&[0, 0, 0, 0]);
    let d = Tiff::parse_ifd(&buf, 0).unwrap();
    assert!(d.get_strips().is_empty());
}

#[test]
fn test_read_fixed_width_endianness() {
    let buf = vec![0x12, 0x34, 0x56, 0x78];
    assert_eq!(read_u16(&buf, 0, ByteOrder::LittleEndian), Ok(0x3412));
    assert_eq!(read_u16(&buf, 0, ByteOrder::BigEndian), Ok(0x1234));
    assert_eq!(read_u32(&buf, 0, ByteOrder::LittleEndian), Ok(0x78563412));
    assert_eq!(read_u32(&buf, 0, ByteOrder::BigEndian), Ok(0x12345678));
    assert_eq!(
        read_u32(&buf, 1, ByteOrder::LittleEndian),
        Err(RawError::OutOfBounds)
    );
    assert_eq!(
        read_u16(&buf, 3, ByteOrder::BigEndian),
        Err(RawError::OutOfBounds)
    );
}

#[test]
fn test_slice_bytes_bounds() {
    let buf = vec![1, 2, 3, 4, 5];
    assert_eq!(slice_bytes(&buf, 1, 3), Ok(vec![2, 3, 4]));
    assert_eq!(slice_bytes(&buf, 0, 5), Ok(vec![1, 2, 3, 4, 5]));
    assert_eq!(slice_bytes(&buf, 3, 3), Err(RawError::OutOfBounds));
    assert_eq!(slice_bytes(&buf, 6, 0), Err(RawError::OutOfBounds));
}
