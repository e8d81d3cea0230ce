//! A DNG placeholder: no locator is implemented for this container, so
//! extraction hands back an empty image.

use vstd::prelude::*;

use crate::decode::empty_rgb_image;

verus! {

/// A DNG file held in memory.
pub struct Dng {
    buffer: Vec<u8>,
}

impl View for Dng {
    type V = Seq<u8>;

    closed spec fn view(&self) -> Seq<u8> {
        self.buffer@
    }
}

impl Dng {
    /// Wraps a fully read DNG file.
    pub fn new(buffer: Vec<u8>) -> (r: Dng)
        ensures
            r@ == buffer@,
    {
        Dng { buffer }
    }

    /// Always an empty placeholder image: this container's preview layout
    /// is not parsed.
    pub fn get_thumbnail(&self) -> image::DynamicImage {
        empty_rgb_image()
    }
}

} // verus!
