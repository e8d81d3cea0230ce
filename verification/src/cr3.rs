//! The CR3 preview locator.
//!
//! A CR3 file is an ISO-BMFF-style flat sequence of boxes, each prefixed
//! with a 4-byte big-endian length (which includes the 8-byte header) and a
//! 4-character type. The preview sits in a UUID-extension box whose 16-byte
//! identifier, rendered as lowercase hex, equals a known constant; a second
//! known identifier marks the movie box, which is recognized and
//! deliberately skipped. The scan is bounded by a fixed box count.

use vstd::prelude::*;

use crate::cursor::{read_u32, slice_bytes, u32_be};
use crate::decode::{decode_guessed, decode_ok};
use crate::error::RawError;
use crate::tiff::{thumb_bytes, Thumbnail};
use vstd::string::StringExecFns;

verus! {

/// The most boxes one scan visits.
pub const CR3_BOX_SCAN_CAP: usize = 6;

/// Bytes from a preview box's start to the 4-byte big-endian size of the
/// embedded JPEG that follows it: the 8-byte box header, the 16-byte UUID,
/// and 4 bytes of preview-record prefix. The distance is kept as the
/// constant the reference layout gives; the JPEG stream starts directly
/// after the size field.
pub const PRVW_SIZE_FIELD_SKIP: usize = 28;

/// The lowercase-hex identifier of the preview UUID box.
pub open spec fn prvw_uuid_chars() -> Seq<char> {
    "eaf42b5e1c984b88b9fbb7dc406e4d16"@
}

/// The lowercase-hex identifier of the preview UUID box.
pub fn uuid_prvw() -> (r: &'static str)
    ensures
        r@ == prvw_uuid_chars(),
{
    "eaf42b5e1c984b88b9fbb7dc406e4d16"
}

/// The lowercase-hex identifier of the movie UUID box, which delimits
/// content the extractor does not need: it is recognized and skipped.
pub open spec fn moov_uuid_chars() -> Seq<char> {
    "85c0b687820f11e08111f4ce462b6a48"@
}

/// The lowercase-hex identifier of the movie UUID box.
pub fn uuid_moov() -> (r: &'static str)
    ensures
        r@ == moov_uuid_chars(),
{
    "85c0b687820f11e08111f4ce462b6a48"
}

/// The lowercase hex digit for a value below 16.
pub open spec fn hex_digit(n: u8) -> char {
    if n == 0 {
        '0'
    } else if n == 1 {
        '1'
    } else if n == 2 {
        '2'
    } else if n == 3 {
        '3'
    } else if n == 4 {
        '4'
    } else if n == 5 {
        '5'
    } else if n == 6 {
        '6'
    } else if n == 7 {
        '7'
    } else if n == 8 {
        '8'
    } else if n == 9 {
        '9'
    } else if n == 10 {
        'a'
    } else if n == 11 {
        'b'
    } else if n == 12 {
        'c'
    } else if n == 13 {
        'd'
    } else if n == 14 {
        'e'
    } else if n == 15 {
        'f'
    } else {
        '0'
    }
}

/// One byte as two lowercase hex digits.
pub open spec fn hex_pair(x: u8) -> Seq<char> {
    seq![hex_digit(x / 16), hex_digit(x % 16)]
}

/// A byte sequence rendered as lowercase hex, two digits per byte.
pub open spec fn hex_of(s: Seq<u8>) -> Seq<char>
    decreases s.len(),
{
    if s.len() == 0 {
        Seq::empty()
    } else {
        hex_of(s.drop_last()) + hex_pair(s.last())
    }
}

/// The four type bytes of a UUID-extension box, `"uuid"` in ASCII.
pub open spec fn uuid_box_type() -> Seq<u8> {
    seq![0x75u8, 0x75u8, 0x69u8, 0x64u8]
}

/// The box's 8-byte header lies inside the buffer.
pub open spec fn box_header_ok(b: Seq<u8>, off: int) -> bool {
    0 <= off && off + 8 <= b.len()
}

/// The box's declared total length, header included.
pub open spec fn box_size(b: Seq<u8>, off: int) -> u32 {
    u32_be(b, off)
}

/// The box's four type bytes.
pub open spec fn box_type(b: Seq<u8>, off: int) -> Seq<u8> {
    b.subrange(off + 4, off + 8)
}

/// The preview descriptor inside the preview box at `box_off`: the 4-byte
/// big-endian JPEG size sits a fixed distance into the box and the stream
/// follows it directly. A size field past the buffer end is `OutOfBounds`.
pub open spec fn prvw_payload(b: Seq<u8>, box_off: int) -> Result<Thumbnail, RawError> {
    let p = box_off + PRVW_SIZE_FIELD_SKIP;
    if p + 4 > b.len() {
        Err(RawError::OutOfBounds)
    } else {
        Ok(Thumbnail { offset: (p + 4) as usize, length: u32_be(b, p) as usize })
    }
}

/// One step of the bounded box scan at `off` with `fuel` boxes left: spent
/// fuel, end of buffer, or a header that does not fit is
/// `ThumbnailNotFound`; a UUID box whose identifier matches the preview
/// constant yields its payload; any other box, the movie box included, is
/// skipped by its declared length.
pub open spec fn cr3_scan(b: Seq<u8>, off: int, fuel: nat) -> Result<Thumbnail, RawError>
    decreases fuel,
{
    if fuel == 0 || off < 0 || off >= b.len() {
        Err(RawError::ThumbnailNotFound)
    } else if !box_header_ok(b, off) {
        Err(RawError::ThumbnailNotFound)
    } else if box_type(b, off) == uuid_box_type() {
        if off + 24 > b.len() {
            Err(RawError::OutOfBounds)
        } else if hex_of(b.subrange(off + 8, off + 24)) == prvw_uuid_chars() {
            prvw_payload(b, off)
        } else {
            cr3_scan(b, off + box_size(b, off), (fuel - 1) as nat)
        }
    } else {
        cr3_scan(b, off + box_size(b, off), (fuel - 1) as nat)
    }
}

/// Where the CR3 preview lies: the bounded scan from the buffer's start.
pub open spec fn cr3_locate(b: Seq<u8>) -> Result<Thumbnail, RawError> {
    cr3_scan(b, 0, CR3_BOX_SCAN_CAP as nat)
}

/// The CR3 preview's bytes: the located range, bounds-checked.
pub open spec fn cr3_bytes(b: Seq<u8>) -> Result<Seq<u8>, RawError> {
    thumb_bytes(b, cr3_locate(b))
}

/// A parsed box header: the declared total length and the type bytes.
pub struct Cr3Box {
    pub size: usize,
    pub box_type: Vec<u8>,
}

/// A CR3 file held in memory.
pub struct Cr3 {
    buffer: Vec<u8>,
}

impl View for Cr3 {
    type V = Seq<u8>;

    closed spec fn view(&self) -> Seq<u8> {
        self.buffer@
    }
}

/// The lowercase hex digit for a value below 16, as a 1-character string.
fn hex_char_str(n: u8) -> (r: &'static str)
    requires
        n < 16,
    ensures
        r@ == seq![hex_digit(n)],
{
    if n == 0 {
        proof {
            reveal_strlit("0");
            assert("0"@ =~= seq![hex_digit(n)]);
        }
        "0"
    } else if n == 1 {
        proof {
            reveal_strlit("1");
            assert("1"@ =~= seq![hex_digit(n)]);
        }
        "1"
    } else if n == 2 {
        proof {
            reveal_strlit("2");
            assert("2"@ =~= seq![hex_digit(n)]);
        }
        "2"
    } else if n == 3 {
        proof {
            reveal_strlit("3");
            assert("3"@ =~= seq![hex_digit(n)]);
        }
        "3"
    } else if n == 4 {
        proof {
            reveal_strlit("4");
            assert("4"@ =~= seq![hex_digit(n)]);
        }
        "4"
    } else if n == 5 {
        proof {
            reveal_strlit("5");
            assert("5"@ =~= seq![hex_digit(n)]);
        }
        "5"
    } else if n == 6 {
        proof {
            reveal_strlit("6");
            assert("6"@ =~= seq![hex_digit(n)]);
        }
        "6"
    } else if n == 7 {
        proof {
            reveal_strlit("7");
            assert("7"@ =~= seq![hex_digit(n)]);
        }
        "7"
    } else if n == 8 {
        proof {
            reveal_strlit("8");
            assert("8"@ =~= seq![hex_digit(n)]);
        }
        "8"
    } else if n == 9 {
        proof {
            reveal_strlit("9");
            assert("9"@ =~= seq![hex_digit(n)]);
        }
        "9"
    } else if n == 10 {
        proof {
            reveal_strlit("a");
            assert("a"@ =~= seq![hex_digit(n)]);
        }
        "a"
    } else if n == 11 {
        proof {
            reveal_strlit("b");
            assert("b"@ =~= seq![hex_digit(n)]);
        }
        "b"
    } else if n == 12 {
        proof {
            reveal_strlit("c");
            assert("c"@ =~= seq![hex_digit(n)]);
        }
        "c"
    } else if n == 13 {
        proof {
            reveal_strlit("d");
            assert("d"@ =~= seq![hex_digit(n)]);
        }
        "d"
    } else if n == 14 {
        proof {
            reveal_strlit("e");
            assert("e"@ =~= seq![hex_digit(n)]);
        }
        "e"
    } else {
        proof {
            reveal_strlit("f");
            assert("f"@ =~= seq![hex_digit(n)]);
        }
        "f"
    }
}

impl Cr3 {
    /// Wraps a fully read CR3 file.
    pub fn new(buffer: Vec<u8>) -> (r: Cr3)
        ensures
            r@ == buffer@,
    {
        Cr3 { buffer }
    }

    /// Parses the box header at `offset`: its big-endian length and its
    /// four type bytes.
    pub fn parse_box(&self, offset: usize) -> (r: Result<Cr3Box, RawError>)
        ensures
            r matches Ok(bx) ==> box_header_ok(self@, offset as int) && bx.size == box_size(
                self@,
                offset as int,
            ) && bx.box_type@ == box_type(self@, offset as int),
            r matches Err(e) ==> e == RawError::OutOfBounds && !box_header_ok(
                self@,
                offset as int,
            ),
    {
        let n = self.buffer.len();
        if !(n >= 8 && offset <= n - 8) {
            return Err(RawError::OutOfBounds);
        }
        let s = self.buffer.as_slice();
        let size = match read_u32(s, offset, crate::cursor::ByteOrder::BigEndian) {
            Ok(v) => v,
            Err(e) => return Err(e),
        };
        let box_type = match slice_bytes(s, offset + 4, 4) {
            Ok(v) => v,
            Err(e) => return Err(e),
        };
        Ok(Cr3Box { size: size as usize, box_type })
    }

    /// Renders the 16 bytes at `offset` as lowercase hex, two digits per
    /// byte, or `OutOfBounds` if they do not lie inside the buffer.
    pub fn prase_uuid(&self, offset: usize) -> (r: Result<String, RawError>)
        ensures
            r matches Ok(u) ==> offset + 16 <= self@.len() && u@ == hex_of(
                self@.subrange(offset as int, offset + 16),
            ),
            r matches Err(e) ==> e == RawError::OutOfBounds && offset + 16 > self@.len(),
    {
        let n = self.buffer.len();
        if !(n >= 16 && offset <= n - 16) {
            return Err(RawError::OutOfBounds);
        }
        let ghost bytes = self@.subrange(offset as int, offset + 16);
        let mut uuid = String::new();
        let mut i: usize = 0;
        while i < 16
            invariant
                i <= 16,
                n == self@.len(),
                offset + 16 <= n,
                bytes == self@.subrange(offset as int, offset + 16),
                uuid@ == hex_of(bytes.take(i as int)),
            decreases 16 - i,
        {
            let byte = self.buffer[offset + i];
            uuid.append(hex_char_str(byte / 16));
            uuid.append(hex_char_str(byte % 16));
            proof {
                assert(bytes.take(i + 1).drop_last() =~= bytes.take(i as int));
                assert(bytes.take(i + 1).last() == byte);
                assert(uuid@ =~= hex_of(bytes.take(i + 1)));
            }
            i = i + 1;
        }
        proof {
            assert(bytes.take(16int) =~= bytes);
        }
        Ok(uuid)
    }

    /// Locates the preview descriptor: the bounded scan over the top-level
    /// boxes for the preview UUID box.
    pub fn locate_thumbnail(&self) -> (r: Result<Thumbnail, RawError>)
        ensures
            r == cr3_locate(self@),
    {
        let n = self.buffer.len();
        let mut offset: usize = 0;
        let mut fuel: usize = CR3_BOX_SCAN_CAP;
        while fuel > 0
            invariant
                n == self@.len(),
                cr3_scan(self@, offset as int, fuel as nat) == cr3_locate(self@),
            decreases fuel,
        {
            if offset >= n {
                return Err(RawError::ThumbnailNotFound);
            }
            let bx = match self.parse_box(offset) {
                Ok(bx) => bx,
                Err(_) => return Err(RawError::ThumbnailNotFound),
            };
            let bt = &bx.box_type;
            let is_uuid = bt.len() == 4 && bt[0] == 0x75 && bt[1] == 0x75 && bt[2] == 0x69 && bt[3]
                == 0x64;
            proof {
                if is_uuid {
                    assert(box_type(self@, offset as int) =~= uuid_box_type());
                } else {
                    assert(box_type(self@, offset as int) != uuid_box_type());
                }
            }
            if is_uuid {
                if n - (offset + 8) < 16 {
                    return Err(RawError::OutOfBounds);
                }
                let uuid = match self.prase_uuid(offset + 8) {
                    Ok(u) => u,
                    Err(e) => return Err(e),
                };
                let prvw: String = uuid_prvw().to_owned();
                if uuid == prvw {
                    // The preview box: read the embedded JPEG's size field.
                    if n - offset < PRVW_SIZE_FIELD_SKIP + 4 {
                        return Err(RawError::OutOfBounds);
                    }
                    let p = offset + PRVW_SIZE_FIELD_SKIP;
                    let byte_size = match read_u32(
                        self.buffer.as_slice(),
                        p,
                        crate::cursor::ByteOrder::BigEndian,
                    ) {
                        Ok(v) => v,
                        Err(e) => return Err(e),
                    };
                    return Ok(Thumbnail { offset: p + 4, length: byte_size as usize });
                }
                // Any other identifier — the movie box's among them — marks
                // content the extractor does not need: skip the box.
            }
            let remaining = n - offset;
            if bx.size > remaining {
                // The declared length runs past the buffer: the scan ends
                // without a match.
                proof {
                    assert(cr3_scan(self@, offset + box_size(self@, offset as int), (fuel - 1) as nat)
                        matches Err(e) && e == RawError::ThumbnailNotFound);
                }
                return Err(RawError::ThumbnailNotFound);
            }
            offset = offset + bx.size;
            fuel = fuel - 1;
        }
        Err(RawError::ThumbnailNotFound)
    }

    /// Copies the located preview's bytes out of the buffer, or
    /// `OutOfBounds` when the descriptor reads past the buffer end.
    pub fn thumbnail_bytes(&self) -> (r: Result<Vec<u8>, RawError>)
        ensures
            r matches Ok(v) ==> cr3_bytes(self@) == Ok::<Seq<u8>, RawError>(v@),
            r matches Err(e) ==> cr3_bytes(self@) == Err::<Seq<u8>, RawError>(e),
    {
        let t = match self.locate_thumbnail() {
            Ok(t) => t,
            Err(e) => return Err(e),
        };
        slice_bytes(self.buffer.as_slice(), t.offset, t.length)
    }

    /// Extracts the preview and hands it to the external decoder. Once a
    /// preview is located in bounds, the call succeeds exactly when the
    /// decoder accepts the extracted bytes; its rejection is reported as
    /// `DecodeFailure`.
    pub fn get_thumbnail(&self) -> (r: Result<image::DynamicImage, RawError>)
        ensures
            cr3_bytes(self@) matches Err(e) ==> (r matches Err(e2) && e2 == e),
            cr3_bytes(self@) matches Ok(v) ==> (
                if decode_ok(v) {
                    r is Ok
                } else {
                    r matches Err(e) && e == RawError::DecodeFailure
                }
            ),
    {
        let data = match self.thumbnail_bytes() {
            Ok(v) => v,
            Err(e) => return Err(e),
        };
        match decode_guessed(data.as_slice()) {
            Ok(img) => Ok(img),
            Err(_) => Err(RawError::DecodeFailure),
        }
    }
}

} // verus!
