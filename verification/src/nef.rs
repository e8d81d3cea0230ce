//! The NEF preview locator.
//!
//! A NEF file needs one level of indirection: the first directory carries a
//! sub-directory pointer tag, and the pointed-to sub-directory carries the
//! preview's offset/length pair. There is no fallback scan over the
//! top-level chain: a missing pointer or pair is `ThumbnailNotFound`.
//! The manufacturer's JPEG start/length tag ids coincide numerically with
//! the generic thumbnail pair.

use vstd::prelude::*;

use crate::cursor::{slice_bytes, u32_le};
use crate::decode::{decode_guessed, decode_ok};
use crate::error::RawError;
use crate::tiff::{
    dir_parse, find_tag_spec, header_parse, read_u32_head, thumb_bytes, thumb_spec, Fileheader,
    IfdModel, Tags, Thumbnail, Tiff, IFD,
};

verus! {

/// Where the NEF preview lies: parse the first directory, resolve its
/// sub-directory pointer tag, and take the preview pair of the pointed-to
/// sub-directory. A missing pointer tag, a pointer value shorter than 4
/// bytes, or a sub-directory without the pair is `ThumbnailNotFound`;
/// header and directory failures pass through.
pub open spec fn nef_locate(b: Seq<u8>) -> Result<Thumbnail, RawError> {
    match header_parse(b) {
        Err(e) => Err(e),
        Ok(h) => match dir_parse(b, h.ifd_offset as int) {
            Err(e) => Err(e),
            Ok(d) => match find_tag_spec(d.tags, Tags::SubIDF.spec_id()) {
                None => Err(RawError::ThumbnailNotFound),
                Some(sub) => {
                    if sub.value.len() < 4 {
                        Err(RawError::ThumbnailNotFound)
                    } else {
                        match dir_parse(b, u32_le(sub.value, 0) as int) {
                            Err(e) => Err(e),
                            Ok(sd) => match thumb_spec(sd.tags) {
                                None => Err(RawError::ThumbnailNotFound),
                                Some(t) => Ok(t),
                            },
                        }
                    }
                },
            },
        },
    }
}

/// The NEF preview's bytes: the located range, bounds-checked.
pub open spec fn nef_bytes(b: Seq<u8>) -> Result<Seq<u8>, RawError> {
    thumb_bytes(b, nef_locate(b))
}

/// A NEF file held in memory.
pub struct Nef {
    buffer: Vec<u8>,
}

impl View for Nef {
    type V = Seq<u8>;

    closed spec fn view(&self) -> Seq<u8> {
        self.buffer@
    }
}

impl Nef {
    /// Wraps a fully read NEF file.
    pub fn new(buffer: Vec<u8>) -> (r: Nef)
        ensures
            r@ == buffer@,
    {
        Nef { buffer }
    }

    /// Parses this file's TIFF header.
    pub fn parse_header(&self) -> (r: Result<Fileheader, RawError>)
        ensures
            r == header_parse(self@),
    {
        Tiff::parse_header(&self.buffer)
    }

    /// Parses the directory at `offset` of this file.
    pub fn parse_ifd(&self, offset: usize) -> (r: Result<IFD, RawError>)
        ensures
            r matches Ok(d) ==> dir_parse(self@, offset as int) == Ok::<IfdModel, RawError>(d@),
            r matches Err(e) ==> dir_parse(self@, offset as int) == Err::<IfdModel, RawError>(e),
    {
        Tiff::parse_ifd(&self.buffer, offset)
    }

    /// The preview pair a sub-directory carries under the manufacturer's
    /// JPEG start/length tag ids, which coincide with the generic
    /// thumbnail pair.
    pub fn get_jpeg(&self, ifd: IFD) -> (r: Option<Thumbnail>)
        ensures
            r == thumb_spec(ifd@.tags),
    {
        ifd.get_thumbnail()
    }

    /// Locates the preview descriptor through the sub-directory pointer of
    /// the first directory.
    pub fn locate_thumbnail(&self) -> (r: Result<Thumbnail, RawError>)
        ensures
            r == nef_locate(self@),
    {
        let header = match Tiff::parse_header(&self.buffer) {
            Ok(h) => h,
            Err(e) => return Err(e),
        };
        let ifd = match Tiff::parse_ifd(&self.buffer, header.ifd_offset as usize) {
            Ok(d) => d,
            Err(e) => return Err(e),
        };
        let sub_ifd_tag = match ifd.get_tag(Tags::SubIDF.id()) {
            Some(t) => t,
            None => return Err(RawError::ThumbnailNotFound),
        };
        if sub_ifd_tag.value.len() < 4 {
            return Err(RawError::ThumbnailNotFound);
        }
        let sub_ifd0_offset = read_u32_head(&sub_ifd_tag.value, 0);
        let sub_ifd = match Tiff::parse_ifd(&self.buffer, sub_ifd0_offset as usize) {
            Ok(d) => d,
            Err(e) => return Err(e),
        };
        match self.get_jpeg(sub_ifd) {
            Some(t) => Ok(t),
            None => Err(RawError::ThumbnailNotFound),
        }
    }

    /// Copies the located preview's bytes out of the buffer, or
    /// `OutOfBounds` when the descriptor reads past the buffer end.
    pub fn thumbnail_bytes(&self) -> (r: Result<Vec<u8>, RawError>)
        ensures
            r matches Ok(v) ==> nef_bytes(self@) == Ok::<Seq<u8>, RawError>(v@),
            r matches Err(e) ==> nef_bytes(self@) == Err::<Seq<u8>, RawError>(e),
    {
        let t = match self.locate_thumbnail() {
            Ok(t) => t,
            Err(e) => return Err(e),
        };
        slice_bytes(self.buffer.as_slice(), t.offset, t.length)
    }

    /// Extracts the preview and hands it to the external decoder. Once a
    /// preview is located in bounds, the call succeeds exactly when the
    /// decoder accepts the extracted bytes; its rejection is reported as
    /// `DecodeFailure`.
    pub fn get_thumbnail(&self) -> (r: Result<image::DynamicImage, RawError>)
        ensures
            nef_bytes(self@) matches Err(e) ==> (r matches Err(e2) && e2 == e),
            nef_bytes(self@) matches Ok(v) ==> (
                if decode_ok(v) {
                    r is Ok
                } else {
                    r matches Err(e) && e == RawError::DecodeFailure
                }
            ),
    {
        let data = match self.thumbnail_bytes() {
            Ok(v) => v,
            Err(e) => return Err(e),
        };
        match decode_guessed(data.as_slice()) {
            Ok(img) => Ok(img),
            Err(_) => Err(RawError::DecodeFailure),
        }
    }
}

} // verus!
