//! Typed failures shared by every container parser.

use vstd::prelude::*;

verus! {

/// Every parser returns one of these kinds instead of panicking: a corrupt
/// or truncated file always yields a typed failure.
#[derive(Clone, Copy, Debug, PartialEq, Eq, Structural)]
pub enum RawError {
    /// The byte-order marker is unrecognized or the buffer is too short for
    /// a TIFF file header.
    MalformedHeader,
    /// A directory's tag count times the record size plus its header would
    /// overrun the buffer.
    MalformedDirectory,
    /// A computed offset/length pair would read past the buffer end.
    OutOfBounds,
    /// The container parsed, but no locator found a preview (absent tags,
    /// absent preview box, exhausted chain or scan cap).
    ThumbnailNotFound,
    /// The file extension names no supported container.
    UnsupportedFormat,
    /// The external decoder rejected the extracted byte range.
    DecodeFailure,
}

} // verus!
