//! The CR2 preview locator.
//!
//! In a CR2 file the preview lives in the second directory of the chain
//! (zero-based index 1) and is described by the strip arrays rather than by
//! direct offset/length tags: the descriptor is the first strip.

use vstd::prelude::*;

use crate::cursor::slice_bytes;
use crate::decode::{decode_guessed, decode_ok};
use crate::error::RawError;
use crate::tiff::{
    dir_parse, header_parse, strips_spec, thumb_bytes, Fileheader, IfdModel, Thumbnail, Tiff, IFD,
};

verus! {

/// A CR2 file held in memory.
pub struct Cr2 {
    buffer: Vec<u8>,
}

impl View for Cr2 {
    type V = Seq<u8>;

    closed spec fn view(&self) -> Seq<u8> {
        self.buffer@
    }
}

/// Where the CR2 preview lies: follow the chain to the second directory and
/// take the first strip's range. A terminated chain, a missing second
/// directory, or one without strips is `ThumbnailNotFound`; header and
/// directory failures pass through.
pub open spec fn cr2_locate(b: Seq<u8>) -> Result<Thumbnail, RawError> {
    match header_parse(b) {
        Err(e) => Err(e),
        Ok(h) => {
            let off0 = h.ifd_offset as int;
            if !(0 < off0 && off0 < b.len()) {
                Err(RawError::ThumbnailNotFound)
            } else {
                match dir_parse(b, off0) {
                    Err(e) => Err(e),
                    Ok(d0) => {
                        let off1 = d0.next as int;
                        if !(0 < off1 && off1 < b.len()) {
                            Err(RawError::ThumbnailNotFound)
                        } else {
                            match dir_parse(b, off1) {
                                Err(e) => Err(e),
                                Ok(d1) => {
                                    let strips = strips_spec(d1.tags);
                                    if strips.len() > 0 {
                                        Ok(
                                            Thumbnail {
                                                offset: strips[0].offset,
                                                length: strips[0].length,
                                            },
                                        )
                                    } else {
                                        Err(RawError::ThumbnailNotFound)
                                    }
                                },
                            }
                        }
                    },
                }
            }
        },
    }
}

/// The CR2 preview's bytes: the located range, bounds-checked.
pub open spec fn cr2_bytes(b: Seq<u8>) -> Result<Seq<u8>, RawError> {
    thumb_bytes(b, cr2_locate(b))
}

impl Cr2 {
    /// Wraps a fully read CR2 file.
    pub fn new(buffer: Vec<u8>) -> (r: Cr2)
        ensures
            r@ == buffer@,
    {
        Cr2 { buffer }
    }

    /// Parses this file's TIFF header.
    pub fn parse_header(&self) -> (r: Result<Fileheader, RawError>)
        ensures
            r == header_parse(self@),
    {
        Tiff::parse_header(&self.buffer)
    }

    /// Parses the directory at `offset` of this file.
    pub fn parse_ifd(&self, offset: usize) -> (r: Result<IFD, RawError>)
        ensures
            r matches Ok(d) ==> dir_parse(self@, offset as int) == Ok::<IfdModel, RawError>(d@),
            r matches Err(e) ==> dir_parse(self@, offset as int) == Err::<IfdModel, RawError>(e),
    {
        Tiff::parse_ifd(&self.buffer, offset)
    }

    /// Locates the preview descriptor: the first strip of the second
    /// directory in the chain.
    pub fn locate_thumbnail(&self) -> (r: Result<Thumbnail, RawError>)
        ensures
            r == cr2_locate(self@),
    {
        let header = match Tiff::parse_header(&self.buffer) {
            Ok(h) => h,
            Err(e) => return Err(e),
        };
        let off0 = header.ifd_offset as usize;
        if !(off0 > 0 && off0 < self.buffer.len()) {
            return Err(RawError::ThumbnailNotFound);
        }
        let d0 = match Tiff::parse_ifd(&self.buffer, off0) {
            Ok(d) => d,
            Err(e) => return Err(e),
        };
        let off1 = d0.next;
        if !(off1 > 0 && off1 < self.buffer.len()) {
            return Err(RawError::ThumbnailNotFound);
        }
        let d1 = match Tiff::parse_ifd(&self.buffer, off1) {
            Ok(d) => d,
            Err(e) => return Err(e),
        };
        let strips = d1.get_strips();
        if strips.len() > 0 {
            let s = strips[0];
            Ok(Thumbnail { offset: s.offset, length: s.length })
        } else {
            Err(RawError::ThumbnailNotFound)
        }
    }

    /// Copies the located preview's bytes out of the buffer, or
    /// `OutOfBounds` when the descriptor reads past the buffer end.
    pub fn thumbnail_bytes(&self) -> (r: Result<Vec<u8>, RawError>)
        ensures
            r matches Ok(v) ==> cr2_bytes(self@) == Ok::<Seq<u8>, RawError>(v@),
            r matches Err(e) ==> cr2_bytes(self@) == Err::<Seq<u8>, RawError>(e),
    {
        let t = match self.locate_thumbnail() {
            Ok(t) => t,
            Err(e) => return Err(e),
        };
        slice_bytes(self.buffer.as_slice(), t.offset, t.length)
    }

    /// Extracts the preview and hands it to the external decoder. Once a
    /// preview is located in bounds, the call succeeds exactly when the
    /// decoder accepts the extracted bytes; its rejection is reported as
    /// `DecodeFailure`.
    pub fn get_thumbnail(&self) -> (r: Result<image::DynamicImage, RawError>)
        ensures
            cr2_bytes(self@) matches Err(e) ==> (r matches Err(e2) && e2 == e),
            cr2_bytes(self@) matches Ok(v) ==> (
                if decode_ok(v) {
                    r is Ok
                } else {
                    r matches Err(e) && e == RawError::DecodeFailure
                }
            ),
    {
        let data = match self.thumbnail_bytes() {
            Ok(v) => v,
            Err(e) => return Err(e),
        };
        match decode_guessed(data.as_slice()) {
            Ok(img) => Ok(img),
            Err(_) => Err(RawError::DecodeFailure),
        }
    }
}

} // verus!
