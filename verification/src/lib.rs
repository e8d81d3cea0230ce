//! Extraction of the embedded JPEG preview from camera RAW containers.
//!
//! Camera RAW files wrap a small preview image inside manufacturer-specific
//! binary containers: TIFF-style tag directories (CR2, ARW, NEF) or an
//! ISO-BMFF-style box tree (CR3). This crate parses those containers with
//! explicit bounds checking and returns the preview's byte range, decoding
//! it through the `image` crate at the very edge.

use vstd::prelude::*;

pub mod any;
pub mod arw;
pub mod cr2;
pub mod cr3;
pub mod cursor;
pub mod decode;
pub mod dng;
pub mod error;
pub mod nef;
pub mod tiff;

use crate::arw::{arw_bytes, Arw};
use crate::cr2::{cr2_bytes, Cr2};
use crate::cr3::{cr3_bytes, Cr3};
use crate::decode::decode_ok;
use crate::error::RawError;
use crate::nef::{nef_bytes, Nef};

verus! {

/// ASCII lowercasing of one byte.
pub open spec fn lower_byte(c: u8) -> u8 {
    if 0x41 <= c && c <= 0x5a {
        (c + 0x20) as u8
    } else {
        c
    }
}

/// ASCII lowercasing of an extension's bytes.
pub open spec fn lower_bytes(s: Seq<u8>) -> Seq<u8> {
    s.map_values(|c: u8| lower_byte(c))
}

/// The extension `"cr2"` as bytes.
pub open spec fn ext_cr2() -> Seq<u8> {
    seq![0x63u8, 0x72u8, 0x32u8]
}

/// The extension `"cr3"` as bytes.
pub open spec fn ext_cr3() -> Seq<u8> {
    seq![0x63u8, 0x72u8, 0x33u8]
}

/// The extension `"nef"` as bytes.
pub open spec fn ext_nef() -> Seq<u8> {
    seq![0x6eu8, 0x65u8, 0x66u8]
}

/// The extension `"arw"` as bytes.
pub open spec fn ext_arw() -> Seq<u8> {
    seq![0x61u8, 0x72u8, 0x77u8]
}

/// What extraction yields for a buffer and an extension: the preview's
/// bytes under the format the lowercased extension selects, or
/// `UnsupportedFormat` for any other extension.
pub open spec fn dispatch_bytes(b: Seq<u8>, ext: Seq<u8>) -> Result<Seq<u8>, RawError> {
    let e = lower_bytes(ext);
    if e == ext_cr2() {
        cr2_bytes(b)
    } else if e == ext_cr3() {
        cr3_bytes(b)
    } else if e == ext_nef() {
        nef_bytes(b)
    } else if e == ext_arw() {
        arw_bytes(b)
    } else {
        Err(RawError::UnsupportedFormat)
    }
}

/// Extraction is a function of the buffer and the extension alone: two
/// outcomes that both meet the dispatcher's contract are one and the same,
/// so extracting twice from the same buffer is idempotent.
pub proof fn lemma_extract_deterministic(
    b: Seq<u8>,
    ext: Seq<u8>,
    r1: Result<Seq<u8>, RawError>,
    r2: Result<Seq<u8>, RawError>,
)
    requires
        r1 == dispatch_bytes(b, ext),
        r2 == dispatch_bytes(b, ext),
    ensures
        r1 == r2,
{
}

/// ASCII-lowercases an extension's bytes.
fn lower_ascii(ext: &[u8]) -> (r: Vec<u8>)
    ensures
        r@ == lower_bytes(ext@),
{
    let n = ext.len();
    let mut out: Vec<u8> = Vec::new();
    let mut i: usize = 0;
    while i < n
        invariant
            i <= n,
            n == ext@.len(),
            out@.len() == i,
            forall|j: int| 0 <= j < i ==> out@[j] == lower_byte(ext@[j]),
        decreases n - i,
    {
        let c = ext[i];
        if 0x41 <= c && c <= 0x5a {
            out.push(c + 0x20);
        } else {
            out.push(c);
        }
        i = i + 1;
    }
    proof {
        assert(out@ =~= lower_bytes(ext@));
    }
    out
}

/// Whether a byte vector equals the given three bytes.
fn ext_eq3(e: &Vec<u8>, a: u8, b: u8, c: u8) -> (r: bool)
    ensures
        r == (e@ == seq![a, b, c]),
{
    if e.len() == 3 && e[0] == a && e[1] == b && e[2] == c {
        proof {
            assert(e@ =~= seq![a, b, c]);
        }
        true
    } else {
        proof {
            assert(e@ != seq![a, b, c]) by {
                if e@ == seq![a, b, c] {
                    assert(e@.len() == 3 && e@[0] == a && e@[1] == b && e@[2] == c);
                }
            }
        }
        false
    }
}

/// Selects the container format by the file extension, case-insensitively,
/// and extracts and decodes the preview from the buffer. An unrecognized
/// extension is `UnsupportedFormat`; locator failures pass through; once a
/// preview is located in bounds, the call succeeds exactly when the
/// external decoder accepts the extracted bytes; its rejection is reported
/// as `DecodeFailure`.
pub fn extract_thumbnail(buffer: Vec<u8>, extension: &[u8]) -> (r: Result<
    image::DynamicImage,
    RawError,
>)
    ensures
        dispatch_bytes(buffer@, extension@) matches Err(e) ==> (r matches Err(e2) && e2 == e),
        dispatch_bytes(buffer@, extension@) matches Ok(v) ==> (
            if decode_ok(v) {
                r is Ok
            } else {
                r matches Err(e) && e == RawError::DecodeFailure
            }
        ),
{
    let ext = lower_ascii(extension);
    if ext_eq3(&ext, 0x63, 0x72, 0x32) {
        // "cr2"
        Cr2::new(buffer).get_thumbnail()
    } else if ext_eq3(&ext, 0x63, 0x72, 0x33) {
        // "cr3"
        Cr3::new(buffer).get_thumbnail()
    } else if ext_eq3(&ext, 0x6e, 0x65, 0x66) {
        // "nef"
        Nef::new(buffer).get_thumbnail()
    } else if ext_eq3(&ext, 0x61, 0x72, 0x77) {
        // "arw"
        Arw::new(buffer).get_thumbnail()
    } else {
        Err(RawError::UnsupportedFormat)
    }
}

} // verus!

