//! The ARW preview locator.
//!
//! An ARW file carries the preview under the generic thumbnail offset and
//! length tags in some directory of the chain: the locator walks the whole
//! chain in order and takes the first directory carrying both. The walk is
//! bounded by a fixed hop count so that a corrupt, cyclic chain ends in
//! `ThumbnailNotFound` rather than looping forever.

use vstd::prelude::*;

use crate::cursor::slice_bytes;
use crate::decode::{decode_guessed, decode_ok};
use crate::error::RawError;
use crate::tiff::{
    dir_parse, header_parse, thumb_bytes, thumb_spec, Fileheader, IfdModel, Thumbnail, Tiff, IFD,
};

verus! {

/// The most directories any chain walk visits.
pub const MAX_IFD_CHAIN: usize = 32;

/// One step of the bounded chain walk from `off` with `fuel` hops left:
/// a zero or out-of-range offset or spent fuel is `ThumbnailNotFound`; a
/// directory failure passes through; a directory carrying the thumbnail
/// pair ends the walk; otherwise the walk follows the next-pointer.
pub open spec fn arw_walk(b: Seq<u8>, off: int, fuel: nat) -> Result<Thumbnail, RawError>
    decreases fuel,
{
    if fuel == 0 || !(0 < off && off < b.len()) {
        Err(RawError::ThumbnailNotFound)
    } else {
        match dir_parse(b, off) {
            Err(e) => Err(e),
            Ok(d) => match thumb_spec(d.tags) {
                Some(t) => Ok(t),
                None => arw_walk(b, d.next as int, (fuel - 1) as nat),
            },
        }
    }
}

/// Where the ARW preview lies: the bounded walk from the header's first
/// directory offset.
pub open spec fn arw_locate(b: Seq<u8>) -> Result<Thumbnail, RawError> {
    match header_parse(b) {
        Err(e) => Err(e),
        Ok(h) => arw_walk(b, h.ifd_offset as int, MAX_IFD_CHAIN as nat),
    }
}

/// The ARW preview's bytes: the located range, bounds-checked.
pub open spec fn arw_bytes(b: Seq<u8>) -> Result<Seq<u8>, RawError> {
    thumb_bytes(b, arw_locate(b))
}

/// A chain in which no directory carries the thumbnail tag pair is never
/// reported as found, whatever offset the walk starts from and however much
/// fuel it has: the bounded walk can only end in an error. In particular a
/// cyclic chain of such directories exhausts its hop bound instead of
/// looping forever.
pub proof fn lemma_chain_without_pair_never_found(b: Seq<u8>, off: int, fuel: nat)
    requires
        forall|o: int| (#[trigger] dir_parse(b, o)) matches Ok(d) ==> thumb_spec(d.tags) is None,
    ensures
        !(arw_walk(b, off, fuel) is Ok),
    decreases fuel,
{
    if fuel == 0 || !(0 < off && off < b.len()) {
    } else {
        match dir_parse(b, off) {
            Err(_) => {},
            Ok(d) => {
                lemma_chain_without_pair_never_found(b, d.next as int, (fuel - 1) as nat);
            },
        }
    }
}

/// An ARW file held in memory.
pub struct Arw {
    buffer: Vec<u8>,
}

impl View for Arw {
    type V = Seq<u8>;

    closed spec fn view(&self) -> Seq<u8> {
        self.buffer@
    }
}

impl Arw {
    /// Wraps a fully read ARW file.
    pub fn new(buffer: Vec<u8>) -> (r: Arw)
        ensures
            r@ == buffer@,
    {
        Arw { buffer }
    }

    /// Parses this file's TIFF header.
    pub fn parse_header(&self) -> (r: Result<Fileheader, RawError>)
        ensures
            r == header_parse(self@),
    {
        Tiff::parse_header(&self.buffer)
    }

    /// Parses the directory at `offset` of this file.
    pub fn parse_ifd(&self, offset: usize) -> (r: Result<IFD, RawError>)
        ensures
            r matches Ok(d) ==> dir_parse(self@, offset as int) == Ok::<IfdModel, RawError>(d@),
            r matches Err(e) ==> dir_parse(self@, offset as int) == Err::<IfdModel, RawError>(e),
    {
        Tiff::parse_ifd(&self.buffer, offset)
    }

    /// Locates the preview descriptor: the first directory in chain order
    /// carrying both thumbnail tags, within the hop bound.
    pub fn locate_thumbnail(&self) -> (r: Result<Thumbnail, RawError>)
        ensures
            r == arw_locate(self@),
    {
        let header = match Tiff::parse_header(&self.buffer) {
            Ok(h) => h,
            Err(e) => return Err(e),
        };
        let mut offset: usize = header.ifd_offset as usize;
        let mut fuel: usize = MAX_IFD_CHAIN;
        while fuel > 0 && offset > 0 && offset < self.buffer.len()
            invariant
                arw_walk(self@, offset as int, fuel as nat) == arw_locate(self@),
            decreases fuel,
        {
            let ifd = match Tiff::parse_ifd(&self.buffer, offset) {
                Ok(d) => d,
                Err(e) => return Err(e),
            };
            match ifd.get_thumbnail() {
                Some(t) => return Ok(t),
                None => {},
            }
            offset = ifd.next;
            fuel = fuel - 1;
        }
        Err(RawError::ThumbnailNotFound)
    }

    /// Copies the located preview's bytes out of the buffer, or
    /// `OutOfBounds` when the descriptor reads past the buffer end.
    pub fn thumbnail_bytes(&self) -> (r: Result<Vec<u8>, RawError>)
        ensures
            r matches Ok(v) ==> arw_bytes(self@) == Ok::<Seq<u8>, RawError>(v@),
            r matches Err(e) ==> arw_bytes(self@) == Err::<Seq<u8>, RawError>(e),
    {
        let t = match self.locate_thumbnail() {
            Ok(t) => t,
            Err(e) => return Err(e),
        };
        slice_bytes(self.buffer.as_slice(), t.offset, t.length)
    }

    /// Extracts the preview and hands it to the external decoder. Once a
    /// preview is located in bounds, the call succeeds exactly when the
    /// decoder accepts the extracted bytes; its rejection is reported as
    /// `DecodeFailure`.
    pub fn get_thumbnail(&self) -> (r: Result<image::DynamicImage, RawError>)
        ensures
            arw_bytes(self@) matches Err(e) ==> (r matches Err(e2) && e2 == e),
            arw_bytes(self@) matches Ok(v) ==> (
                if decode_ok(v) {
                    r is Ok
                } else {
                    r matches Err(e) && e == RawError::DecodeFailure
                }
            ),
    {
        let data = match self.thumbnail_bytes() {
            Ok(v) => v,
            Err(e) => return Err(e),
        };
        match decode_guessed(data.as_slice()) {
            Ok(img) => Ok(img),
            Err(_) => Err(RawError::DecodeFailure),
        }
    }
}

} // verus!
