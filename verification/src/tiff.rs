//! TIFF file header, tag records, and IFD (Image File Directory) parsing.
//!
//! A TIFF-derived file starts with an 8-byte header (byte-order marker,
//! magic number, offset of the first directory). Each directory holds a
//! 2-byte tag count, that many 12-byte tag records, and a 4-byte pointer to
//! the next directory (0 means terminal). A tag's value is stored inline in
//! the record's last 4 bytes when `count * type size <= 4`, and at the
//! absolute offset held by those bytes otherwise.
//!
//! Multi-byte fields of tag records and directories are read little-endian;
//! the header's magic number and first-directory offset follow the header's
//! declared byte order.

use vstd::prelude::*;

use crate::cursor::{read_u16, read_u32, slice_bytes, u16_be, u16_le, u32_be, u32_le, ByteOrder};
use crate::error::RawError;

verus! {

/// The tag ids the locators look for, as the TIFF/EXIF specification and
/// the manufacturer notes number them.
#[derive(Clone, Copy, Debug, PartialEq, Eq, Structural)]
pub enum Tags {
    Compression,
    StripOffsets,
    StripByteCounts,
    SubIDF,
    ThumbnailOffset,
    ThumbnailLength,
}

impl Tags {
    /// The numeric id of this tag in a directory record.
    pub open spec fn spec_id(self) -> u16 {
        match self {
            Tags::Compression => 259,
            Tags::StripOffsets => 273,
            Tags::StripByteCounts => 279,
            Tags::SubIDF => 330,
            Tags::ThumbnailOffset => 513,
            Tags::ThumbnailLength => 514,
        }
    }

    /// The numeric id of this tag in a directory record.
    #[verifier::when_used_as_spec(spec_id)]
    pub fn id(self) -> (r: u16)
        ensures
            r == self.spec_id(),
    {
        match self {
            Tags::Compression => 259,
            Tags::StripOffsets => 273,
            Tags::StripByteCounts => 279,
            Tags::SubIDF => 330,
            Tags::ThumbnailOffset => 513,
            Tags::ThumbnailLength => 514,
        }
    }
}

/// A parsed TIFF file header.
#[derive(Clone, Copy, Debug, PartialEq, Eq, Structural)]
pub struct Fileheader {
    pub byte_order: ByteOrder,
    pub number: u16,
    pub ifd_offset: u32,
}

/// A parsed tag record with its resolved value bytes.
#[derive(Debug)]
pub struct Tag {
    pub tag: u16,
    pub tag_type: u16,
    pub count: u32,
    pub value: Vec<u8>,
}

/// The mathematical image of a `Tag`: the same fields with the value as a
/// byte sequence.
#[verifier::ext_equal]
pub ghost struct TagModel {
    pub tag: u16,
    pub tag_type: u16,
    pub count: u32,
    pub value: Seq<u8>,
}

impl View for Tag {
    type V = TagModel;

    open spec fn view(&self) -> TagModel {
        TagModel {
            tag: self.tag,
            tag_type: self.tag_type,
            count: self.count,
            value: self.value@,
        }
    }
}

/// A parsed directory: its tag records in on-disk order, and the offset of
/// the next directory in the chain (0 means terminal).
#[derive(Debug)]
pub struct IFD {
    pub tags: Vec<Tag>,
    pub next: usize,
}

/// The mathematical image of an `IFD`.
#[verifier::ext_equal]
pub ghost struct IfdModel {
    pub tags: Seq<TagModel>,
    pub next: usize,
}

impl View for IFD {
    type V = IfdModel;

    open spec fn view(&self) -> IfdModel {
        IfdModel { tags: self.tags@.map_values(|t: Tag| t@), next: self.next }
    }
}

/// A strip descriptor: one row-band of a strip-encoded reduced image.
#[derive(Clone, Copy, Debug, PartialEq, Eq, Structural)]
pub struct Strip {
    pub offset: usize,
    pub length: usize,
    pub compression: u16,
}

/// A preview descriptor: the byte range of the embedded JPEG inside the
/// source buffer.
#[derive(Clone, Copy, Debug, PartialEq, Eq, Structural)]
pub struct Thumbnail {
    pub offset: usize,
    pub length: usize,
}

/// The width in bytes of one element of the given tag type; unknown types
/// count as zero-width, so their values resolve to no bytes.
pub open spec fn tag_type_size(t: u16) -> nat {
    if t == 1 {
        1
    } else if t == 2 {
        1
    } else if t == 3 {
        2
    } else if t == 4 {
        4
    } else if t == 5 {
        8
    } else if t == 7 {
        1
    } else if t == 9 {
        4
    } else if t == 10 {
        8
    } else if t == 12 {
        8
    } else if t == 13 {
        4
    } else {
        0
    }
}

/// The whole 12-byte tag record lies inside the buffer.
pub open spec fn tag_record_ok(b: Seq<u8>, off: int) -> bool {
    0 <= off && off + 12 <= b.len()
}

pub open spec fn tag_id_at(b: Seq<u8>, off: int) -> u16 {
    u16_le(b, off)
}

pub open spec fn tag_type_at(b: Seq<u8>, off: int) -> u16 {
    u16_le(b, off + 2)
}

pub open spec fn tag_count_at(b: Seq<u8>, off: int) -> u32 {
    u32_le(b, off + 4)
}

/// The byte length of the tag's resolved value: element count times
/// element width.
pub open spec fn tag_value_len(b: Seq<u8>, off: int) -> nat {
    (tag_count_at(b, off) as nat) * tag_type_size(tag_type_at(b, off))
}

/// A value of at most 4 bytes is stored inline in the record's last field;
/// a longer one at the absolute offset that field holds.
pub open spec fn tag_value_inline(b: Seq<u8>, off: int) -> bool {
    tag_value_len(b, off) <= 4
}

/// Where the tag's value bytes start in the buffer, per the inline/offset
/// rule.
pub open spec fn tag_value_start(b: Seq<u8>, off: int) -> int {
    if tag_value_inline(b, off) {
        off + 8
    } else {
        u32_le(b, off + 8) as int
    }
}

/// The record and its resolved value both lie inside the buffer.
pub open spec fn tag_value_ok(b: Seq<u8>, off: int) -> bool {
    tag_record_ok(b, off) && tag_value_start(b, off) + tag_value_len(b, off) <= b.len()
}

/// The tag record at `off`, with its value resolved.
pub open spec fn tag_model(b: Seq<u8>, off: int) -> TagModel {
    TagModel {
        tag: tag_id_at(b, off),
        tag_type: tag_type_at(b, off),
        count: tag_count_at(b, off),
        value: b.subrange(
            tag_value_start(b, off),
            tag_value_start(b, off) + tag_value_len(b, off),
        ),
    }
}

/// What parsing a tag record at `off` yields: the resolved record, or
/// `OutOfBounds` when the record or its value reads past the buffer end.
pub open spec fn tag_parse(b: Seq<u8>, off: int) -> Result<TagModel, RawError> {
    if tag_value_ok(b, off) {
        Ok(tag_model(b, off))
    } else {
        Err(RawError::OutOfBounds)
    }
}

/// The tag count of the directory at `off`.
pub open spec fn dir_count(b: Seq<u8>, off: int) -> u16 {
    u16_le(b, off)
}

/// The directory's count field, records, and next-pointer all lie inside
/// the buffer.
pub open spec fn dir_header_ok(b: Seq<u8>, off: int) -> bool {
    &&& 0 <= off
    &&& off + 2 <= b.len()
    &&& off + 2 + 12 * (dir_count(b, off) as int) + 4 <= b.len()
}

/// Where the `i`-th tag record of the directory at `off` starts.
pub open spec fn dir_tag_off(b: Seq<u8>, off: int, i: int) -> int {
    off + 2 + 12 * i
}

/// Every tag record of the directory resolves its value inside the buffer.
pub open spec fn dir_tags_ok(b: Seq<u8>, off: int) -> bool {
    forall|i: int|
        0 <= i < dir_count(b, off) ==> #[trigger] tag_value_ok(b, dir_tag_off(b, off, i))
}

/// The directory's trailing next-pointer.
pub open spec fn dir_next(b: Seq<u8>, off: int) -> u32 {
    u32_le(b, off + 2 + 12 * (dir_count(b, off) as int))
}

/// The directory at `off` with every tag resolved.
pub open spec fn dir_model(b: Seq<u8>, off: int) -> IfdModel {
    IfdModel {
        tags: Seq::new(dir_count(b, off) as nat, |i: int| tag_model(b, dir_tag_off(b, off, i))),
        next: dir_next(b, off) as usize,
    }
}

/// What parsing a directory at `off` yields: `MalformedDirectory` when the
/// tag count times the record size plus the header overruns the buffer,
/// `OutOfBounds` when some tag's value does, the directory otherwise.
pub open spec fn dir_parse(b: Seq<u8>, off: int) -> Result<IfdModel, RawError> {
    if !dir_header_ok(b, off) {
        Err(RawError::MalformedDirectory)
    } else if !dir_tags_ok(b, off) {
        Err(RawError::OutOfBounds)
    } else {
        Ok(dir_model(b, off))
    }
}

/// What parsing the file header yields: `MalformedHeader` when the buffer
/// is shorter than 8 bytes or the order marker is neither `II` nor `MM`;
/// otherwise the order, the magic number, and the first-directory offset,
/// the latter two decoded in the declared order.
pub open spec fn header_parse(b: Seq<u8>) -> Result<Fileheader, RawError> {
    if b.len() < 8 {
        Err(RawError::MalformedHeader)
    } else if b[0] == 0x49 && b[1] == 0x49 {
        // "II": little-endian
        Ok(
            Fileheader {
                byte_order: ByteOrder::LittleEndian,
                number: u16_le(b, 2),
                ifd_offset: u32_le(b, 4),
            },
        )
    } else if b[0] == 0x4d && b[1] == 0x4d {
        // "MM": big-endian
        Ok(
            Fileheader {
                byte_order: ByteOrder::BigEndian,
                number: u16_be(b, 2),
                ifd_offset: u32_be(b, 4),
            },
        )
    } else {
        Err(RawError::MalformedHeader)
    }
}

/// The first tag with the given id, scanning in on-disk order from
/// position `i`; ids are not assumed sorted.
pub open spec fn find_tag_from(tags: Seq<TagModel>, id: u16, i: int) -> Option<TagModel>
    decreases tags.len() - i,
{
    if i < 0 || i >= tags.len() {
        None
    } else if tags[i].tag == id {
        Some(tags[i])
    } else {
        find_tag_from(tags, id, i + 1)
    }
}

/// The first tag with the given id, if any.
pub open spec fn find_tag_spec(tags: Seq<TagModel>, id: u16) -> Option<TagModel> {
    find_tag_from(tags, id, 0)
}

/// The preview descriptor a directory carries under the given offset/length
/// tag pair: present exactly when both tags are present with at least 4
/// value bytes each, read little-endian from the head of each value.
pub open spec fn thumb_pair_spec(tags: Seq<TagModel>, off_id: u16, len_id: u16) -> Option<
    Thumbnail,
> {
    match (find_tag_spec(tags, off_id), find_tag_spec(tags, len_id)) {
        (Some(o), Some(l)) => {
            if o.value.len() >= 4 && l.value.len() >= 4 {
                Some(
                    Thumbnail {
                        offset: u32_le(o.value, 0) as usize,
                        length: u32_le(l.value, 0) as usize,
                    },
                )
            } else {
                None
            }
        },
        _ => None,
    }
}

/// The preview descriptor under the generic thumbnail tag pair.
pub open spec fn thumb_spec(tags: Seq<TagModel>) -> Option<Thumbnail> {
    thumb_pair_spec(tags, Tags::ThumbnailOffset.spec_id(), Tags::ThumbnailLength.spec_id())
}

/// The directory's compression code, or 0 when the tag is absent or too
/// short.
pub open spec fn strip_compression(tags: Seq<TagModel>) -> u16 {
    match find_tag_spec(tags, Tags::Compression.spec_id()) {
        Some(c) => if c.value.len() >= 2 {
            u16_le(c.value, 0)
        } else {
            0u16
        },
        None => 0u16,
    }
}

pub open spec fn min_nat(a: nat, b: nat) -> nat {
    if a <= b {
        a
    } else {
        b
    }
}

/// How many strips the parallel arrays describe: the byte-count tag's
/// element count, limited to the 4-byte entries both values actually hold.
pub open spec fn strip_count(o: TagModel, l: TagModel) -> nat {
    min_nat(l.count as nat, min_nat(o.value.len() / 4, l.value.len() / 4))
}

/// The strip descriptors a directory carries: the parallel strip-offset and
/// strip-byte-count arrays read as 4-byte little-endian entries, empty when
/// either tag is absent.
pub open spec fn strips_spec(tags: Seq<TagModel>) -> Seq<Strip> {
    match (
        find_tag_spec(tags, Tags::StripOffsets.spec_id()),
        find_tag_spec(tags, Tags::StripByteCounts.spec_id()),
    ) {
        (Some(o), Some(l)) => Seq::new(
            strip_count(o, l),
            |i: int|
                Strip {
                    offset: u32_le(o.value, 4 * i) as usize,
                    length: u32_le(l.value, 4 * i) as usize,
                    compression: strip_compression(tags),
                },
        ),
        _ => Seq::empty(),
    }
}

/// Reads the little-endian 32-bit value at the head of a tag's value bytes.
pub(crate) fn read_u32_head(v: &Vec<u8>, at: usize) -> (r: u32)
    requires
        at + 4 <= v@.len(),
    ensures
        r == u32_le(v@, at as int),
{
    let n: usize = v.len();
    assert(at + 4 <= n);
    v[at] as u32 + 0x100 * (v[at + 1] as u32) + 0x10000 * (v[at + 2] as u32) + 0x1000000 * (v[at
        + 3] as u32)
}

/// Reads the little-endian 16-bit value at the head of a tag's value bytes.
fn read_u16_head(v: &Vec<u8>) -> (r: u16)
    requires
        v@.len() >= 2,
    ensures
        r == u16_le(v@, 0),
{
    v[0] as u16 + 0x100 * (v[1] as u16)
}

impl IFD {
    /// The first tag with the given id, by linear scan in on-disk order.
    pub fn get_tag(&self, tag: u16) -> (r: Option<&Tag>)
        ensures
            match r {
                Some(t) => find_tag_spec(self@.tags, tag) == Some(t@),
                None => find_tag_spec(self@.tags, tag) is None,
            },
    {
        let mut i: usize = 0;
        while i < self.tags.len()
            invariant
                i <= self.tags@.len(),
                find_tag_from(self@.tags, tag, 0) == find_tag_from(self@.tags, tag, i as int),
            decreases self.tags@.len() - i,
        {
            if self.tags[i].tag == tag {
                return Some(&self.tags[i]);
            }
            i = i + 1;
        }
        None
    }

    /// The preview descriptor under the generic thumbnail tag pair, if this
    /// directory carries one.
    pub fn get_thumbnail(&self) -> (r: Option<Thumbnail>)
        ensures
            r == thumb_spec(self@.tags),
    {
        let offset_tag = self.get_tag(Tags::ThumbnailOffset.id());
        let length_tag = self.get_tag(Tags::ThumbnailLength.id());
        match (offset_tag, length_tag) {
            (Some(o), Some(l)) => {
                if o.value.len() >= 4 && l.value.len() >= 4 {
                    let off = read_u32_head(&o.value, 0);
                    let len = read_u32_head(&l.value, 0);
                    Some(Thumbnail { offset: off as usize, length: len as usize })
                } else {
                    None
                }
            },
            _ => None,
        }
    }

    /// The strip descriptors this directory carries, in array order.
    pub fn get_strips(&self) -> (r: Vec<Strip>)
        ensures
            r@ == strips_spec(self@.tags),
    {
        let mut strips: Vec<Strip> = Vec::new();

        let compression_tag = self.get_tag(Tags::Compression.id());
        let mut compression: u16 = 0;
        match compression_tag {
            Some(c) => {
                if c.value.len() >= 2 {
                    compression = read_u16_head(&c.value);
                }
            },
            None => {},
        }
        assert(compression == strip_compression(self@.tags));

        let offsets = self.get_tag(Tags::StripOffsets.id());
        let lengths = self.get_tag(Tags::StripByteCounts.id());

        match (offsets, lengths) {
            (Some(o), Some(l)) => {
                let oc4: usize = o.value.len() / 4;
                let lc4: usize = l.value.len() / 4;
                let mut n: usize = if (l.count as usize) <= oc4 {
                    l.count as usize
                } else {
                    oc4
                };
                if lc4 < n {
                    n = lc4;
                }
                assert(n == strip_count(o@, l@));
                let ovn: usize = o.value.len();
                let lvn: usize = l.value.len();
                let ghost want = strips_spec(self@.tags);
                let mut i: usize = 0;
                while i < n
                    invariant
                        i <= n,
                        n == strip_count(o@, l@),
                        ovn == o@.value.len(),
                        lvn == l@.value.len(),
                        4 * (n as int) <= ovn,
                        4 * (n as int) <= lvn,
                        want == strips_spec(self@.tags),
                        want.len() == n,
                        compression == strip_compression(self@.tags),
                        find_tag_spec(self@.tags, Tags::StripOffsets.spec_id()) == Some(o@),
                        find_tag_spec(self@.tags, Tags::StripByteCounts.spec_id()) == Some(l@),
                        strips@.len() == i,
                        forall|j: int| 0 <= j < i ==> strips@[j] == want[j],
                    decreases n - i,
                {
                    let off = read_u32_head(&o.value, 4 * i);
                    let len = read_u32_head(&l.value, 4 * i);
                    strips.push(Strip { offset: off as usize, length: len as usize, compression });
                    i = i + 1;
                }
                proof {
                    assert(strips@ =~= want);
                }
            },
            _ => {},
        }
        strips
    }
}

/// The namespace of the TIFF parsing operations shared by the TIFF-derived
/// formats.
pub struct Tiff {}

impl Tiff {
    /// Parses the 8-byte file header, recovering byte order, magic number,
    /// and the offset of the first directory.
    pub fn parse_header(buffer: &Vec<u8>) -> (r: Result<Fileheader, RawError>)
        ensures
            r == header_parse(buffer@),
    {
        let n = buffer.len();
        if n < 8 {
            return Err(RawError::MalformedHeader);
        }
        let s = buffer.as_slice();
        let b0 = s[0];
        let b1 = s[1];
        if b0 == 0x49 && b1 == 0x49 {
            // "II": little-endian
            let number = match read_u16(s, 2, ByteOrder::LittleEndian) {
                Ok(v) => v,
                Err(e) => return Err(e),
            };
            let ifd_offset = match read_u32(s, 4, ByteOrder::LittleEndian) {
                Ok(v) => v,
                Err(e) => return Err(e),
            };
            Ok(Fileheader { byte_order: ByteOrder::LittleEndian, number, ifd_offset })
        } else if b0 == 0x4d && b1 == 0x4d {
            // "MM": big-endian
            let number = match read_u16(s, 2, ByteOrder::BigEndian) {
                Ok(v) => v,
                Err(e) => return Err(e),
            };
            let ifd_offset = match read_u32(s, 4, ByteOrder::BigEndian) {
                Ok(v) => v,
                Err(e) => return Err(e),
            };
            Ok(Fileheader { byte_order: ByteOrder::BigEndian, number, ifd_offset })
        } else {
            Err(RawError::MalformedHeader)
        }
    }

    /// Parses the 12-byte tag record at `offset` and resolves its value per
    /// the inline/offset rule.
    pub fn parse_tag(buffer: &Vec<u8>, offset: usize) -> (r: Result<Tag, RawError>)
        ensures
            r matches Ok(t) ==> tag_parse(buffer@, offset as int) == Ok::<TagModel, RawError>(t@),
            r matches Err(e) ==> tag_parse(buffer@, offset as int) == Err::<TagModel, RawError>(e),
    {
        let n = buffer.len();
        if !(n >= 12 && offset <= n - 12) {
            return Err(RawError::OutOfBounds);
        }
        let s = buffer.as_slice();
        let tag = match read_u16(s, offset, ByteOrder::LittleEndian) {
            Ok(v) => v,
            Err(e) => return Err(e),
        };
        let tag_type = match read_u16(s, offset + 2, ByteOrder::LittleEndian) {
            Ok(v) => v,
            Err(e) => return Err(e),
        };
        let count = match read_u32(s, offset + 4, ByteOrder::LittleEndian) {
            Ok(v) => v,
            Err(e) => return Err(e),
        };
        let value_offset = match read_u32(s, offset + 8, ByteOrder::LittleEndian) {
            Ok(v) => v,
            Err(e) => return Err(e),
        };

        let size = Tiff::type_size(tag_type);
        let count_w: u64 = count as u64;
        let size_w: u64 = size as u64;
        assert(count_w * size_w <= 0xFFFF_FFFFu64 * 8) by (nonlinear_arith)
            requires
                count_w <= 0xFFFF_FFFFu64,
                size_w <= 8u64,
        ;
        let value_len: u64 = count_w * size_w;

        // Inline storage: the value sits in the record's last 4 bytes.
        let start: usize = if value_len <= 4 {
            offset + 8
        } else {
            value_offset as usize
        };

        if value_len <= n as u64 && start as u64 <= n as u64 - value_len {
            let value = match slice_bytes(s, start, value_len as usize) {
                Ok(v) => v,
                Err(e) => return Err(e),
            };
            let t = Tag { tag, tag_type, count, value };
            proof {
                assert(tag_value_ok(buffer@, offset as int));
                assert(t@.value =~= tag_model(buffer@, offset as int).value);
                assert(t@ =~= tag_model(buffer@, offset as int));
            }
            Ok(t)
        } else {
            proof {
                assert(!tag_value_ok(buffer@, offset as int));
            }
            Err(RawError::OutOfBounds)
        }
    }

    /// The width in bytes of one element of the given tag type.
    fn type_size(t: u16) -> (s: u32)
        ensures
            s == tag_type_size(t),
            s <= 8,
    {
        if t == 1 {
            1
        } else if t == 2 {
            1
        } else if t == 3 {
            2
        } else if t == 4 {
            4
        } else if t == 5 {
            8
        } else if t == 7 {
            1
        } else if t == 9 {
            4
        } else if t == 10 {
            8
        } else if t == 12 {
            8
        } else if t == 13 {
            4
        } else {
            0
        }
    }

    /// Parses the directory at `offset`: its tag count, that many resolved
    /// tag records, and the trailing next-directory pointer.
    pub fn parse_ifd(buffer: &Vec<u8>, offset: usize) -> (r: Result<IFD, RawError>)
        ensures
            r matches Ok(d) ==> dir_parse(buffer@, offset as int) == Ok::<IfdModel, RawError>(d@),
            r matches Err(e) ==> dir_parse(buffer@, offset as int) == Err::<IfdModel, RawError>(e),
    {
        let n = buffer.len();
        let s = buffer.as_slice();
        let count = match read_u16(s, offset, ByteOrder::LittleEndian) {
            Ok(v) => v,
            Err(_) => return Err(RawError::MalformedDirectory),
        };
        let need: usize = 2 + (count as usize) * 12 + 4;
        if !(need <= n - offset) {
            return Err(RawError::MalformedDirectory);
        }

        let mut tags: Vec<Tag> = Vec::new();
        let mut i: usize = 0;
        while i < count as usize
            invariant
                i <= count,
                n == buffer@.len(),
                offset + 2 + 12 * (count as int) + 4 <= n,
                count == dir_count(buffer@, offset as int),
                dir_header_ok(buffer@, offset as int),
                tags@.len() == i,
                forall|j: int|
                    0 <= j < i ==> #[trigger] tag_value_ok(
                        buffer@,
                        dir_tag_off(buffer@, offset as int, j),
                    ),
                forall|j: int|
                    0 <= j < i ==> (#[trigger] tags@[j])@ == tag_model(
                        buffer@,
                        dir_tag_off(buffer@, offset as int, j),
                    ),
            decreases count - i,
        {
            let toff = offset + 2 + i * 12;
            let t = match Tiff::parse_tag(buffer, toff) {
                Ok(t) => t,
                Err(e) => {
                    proof {
                        assert(!tag_value_ok(buffer@, dir_tag_off(buffer@, offset as int, i as int)));
                        assert(!dir_tags_ok(buffer@, offset as int));
                    }
                    return Err(e);
                },
            };
            tags.push(t);
            i = i + 1;
        }

        let next_off = offset + 2 + (count as usize) * 12;
        let next = match read_u32(s, next_off, ByteOrder::LittleEndian) {
            Ok(v) => v,
            Err(_) => return Err(RawError::MalformedDirectory),
        };
        let d = IFD { tags, next: next as usize };
        proof {
            assert(dir_tags_ok(buffer@, offset as int));
            assert(d@.tags =~= dir_model(buffer@, offset as int).tags);
            assert(d@ =~= dir_model(buffer@, offset as int));
        }
        Ok(d)
    }
}

/// The bytes a located preview descriptor denotes: the described range of
/// the buffer, or `OutOfBounds` when that range reads past the buffer end;
/// a locator failure passes through.
pub open spec fn thumb_bytes(b: Seq<u8>, located: Result<Thumbnail, RawError>) -> Result<
    Seq<u8>,
    RawError,
> {
    match located {
        Err(e) => Err(e),
        Ok(t) => {
            if t.offset + t.length <= b.len() {
                Ok(b.subrange(t.offset as int, t.offset + t.length))
            } else {
                Err(RawError::OutOfBounds)
            }
        },
    }
}

/// A valid header is decoded per its declared byte order: the recovered
/// first-directory offset is exactly the 32-bit value written at bytes
/// 4..8, little-endian under `II` and big-endian under `MM`.
pub proof fn lemma_header_recovers_offset(b: Seq<u8>)
    requires
        b.len() >= 8,
        (b[0] == 0x49 && b[1] == 0x49) || (b[0] == 0x4d && b[1] == 0x4d),
    ensures
        header_parse(b) matches Ok(h) && h.ifd_offset == (
            if b[0] == 0x49 {
                u32_le(b, 4)
            } else {
                u32_be(b, 4)
            }
        ),
{
}

/// A tag whose value length is at most 4 bytes resolves to the bytes
/// stored inline in the record itself.
pub proof fn lemma_tag_value_inline(b: Seq<u8>, off: int)
    requires
        tag_value_ok(b, off),
        tag_value_len(b, off) <= 4,
    ensures
        tag_model(b, off).value == b.subrange(off + 8, off + 8 + tag_value_len(b, off)),
{
}

/// A tag whose value length exceeds 4 bytes resolves to the bytes at the
/// absolute offset recorded in the record's last field.
pub proof fn lemma_tag_value_offset(b: Seq<u8>, off: int)
    requires
        tag_value_ok(b, off),
        tag_value_len(b, off) > 4,
    ensures
        tag_model(b, off).value == b.subrange(
            u32_le(b, off + 8) as int,
            u32_le(b, off + 8) + tag_value_len(b, off),
        ),
{
}

} // verus!
