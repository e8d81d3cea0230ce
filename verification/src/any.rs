//! A format-agnostic fallback: scan the whole buffer for embedded JPEG
//! start markers and decode the byte range between consecutive markers.

use vstd::prelude::*;

use crate::cursor::slice_bytes;
use crate::decode::{decode_jpeg, decode_jpeg_ok};
use crate::error::RawError;

verus! {

/// A JPEG stream starts at `i`: the two-byte start-of-image marker.
pub open spec fn is_jpeg_marker(b: Seq<u8>, i: int) -> bool {
    0 <= i && i + 2 <= b.len() && b[i] == 0xff && b[i + 1] == 0xd8
}

/// The marker positions below `n`, in increasing order.
pub open spec fn marker_positions_upto(b: Seq<u8>, n: int) -> Seq<usize>
    decreases n,
{
    if n <= 0 {
        Seq::empty()
    } else if is_jpeg_marker(b, n - 1) {
        marker_positions_upto(b, n - 1).push((n - 1) as usize)
    } else {
        marker_positions_upto(b, n - 1)
    }
}

/// Every position where a JPEG start marker begins, in increasing order.
pub open spec fn marker_positions(b: Seq<u8>) -> Seq<usize> {
    marker_positions_upto(b, b.len() - 1)
}

/// The positions below `n` are markers, lie below `n`, and are strictly
/// increasing.
pub proof fn lemma_marker_positions_sorted(b: Seq<u8>, n: int)
    requires
        n <= usize::MAX + 1,
    ensures
        forall|j: int|
            0 <= j < marker_positions_upto(b, n).len() ==> is_jpeg_marker(
                b,
                #[trigger] marker_positions_upto(b, n)[j] as int,
            ) && marker_positions_upto(b, n)[j] < n,
        forall|j: int, k: int|
            0 <= j < k < marker_positions_upto(b, n).len() ==> marker_positions_upto(b, n)[j]
                < marker_positions_upto(b, n)[k],
    decreases n,
{
    if n <= 0 {
    } else {
        lemma_marker_positions_sorted(b, n - 1);
        let prev = marker_positions_upto(b, n - 1);
        let cur = marker_positions_upto(b, n);
        if is_jpeg_marker(b, n - 1) {
            assert(cur == prev.push((n - 1) as usize));
            assert forall|j: int|
                0 <= j < cur.len() implies is_jpeg_marker(b, cur[j] as int) && cur[j] < n by {
                if j < prev.len() {
                    assert(cur[j] == prev[j]);
                } else {
                    assert(cur[j] == (n - 1) as usize);
                }
            }
            assert forall|j: int, k: int| 0 <= j < k < cur.len() implies cur[j] < cur[k] by {
                if k < prev.len() {
                    assert(cur[j] == prev[j] && cur[k] == prev[k]);
                } else {
                    assert(cur[j] == prev[j] && cur[k] == (n - 1) as usize);
                }
            }
        } else {
            assert(cur == prev);
        }
    }
}

/// The byte range between markers `i` and `i + 1`, a candidate JPEG
/// stream.
pub open spec fn marker_segment(b: Seq<u8>, i: int) -> Seq<u8> {
    b.subrange(marker_positions(b)[i] as int, marker_positions(b)[i + 1] as int)
}

/// Every byte range between consecutive markers is one the external
/// decoder accepts as a JPEG stream.
pub open spec fn all_segments_jpeg(b: Seq<u8>) -> bool {
    forall|i: int|
        0 <= i && i + 1 < marker_positions(b).len() ==> decode_jpeg_ok(
            #[trigger] marker_segment(b, i),
        )
}

/// A buffer held in memory, format unknown.
pub struct Any {
    buffer: Vec<u8>,
}

impl View for Any {
    type V = Seq<u8>;

    closed spec fn view(&self) -> Seq<u8> {
        self.buffer@
    }
}

impl Any {
    /// Wraps a fully read file.
    pub fn new(buffer: Vec<u8>) -> (r: Any)
        ensures
            r@ == buffer@,
    {
        Any { buffer }
    }

    /// Every position where a JPEG start marker begins, in increasing
    /// order.
    pub fn find_jpeg_markers(&self) -> (r: Vec<usize>)
        ensures
            r@ == marker_positions(self@),
    {
        let n = self.buffer.len();
        let mut out: Vec<usize> = Vec::new();
        if n < 2 {
            proof {
                assert(marker_positions(self@) =~= Seq::<usize>::empty());
            }
            return out;
        }
        let mut i: usize = 0;
        while i < n - 1
            invariant
                n == self@.len(),
                2 <= n,
                i <= n - 1,
                out@ == marker_positions_upto(self@, i as int),
            decreases n - i,
        {
            if self.buffer[i] == 0xff && self.buffer[i + 1] == 0xd8 {
                out.push(i);
            }
            i = i + 1;
        }
        out
    }

    /// Decodes each byte range between consecutive markers and hands back
    /// the one at `image_index`, provided more than one decoded. When
    /// every segment is one the decoder accepts, the call succeeds exactly
    /// when more than two markers were found and the index lies within the
    /// decoded segments, and is `ThumbnailNotFound` otherwise; a segment
    /// the decoder rejects is `DecodeFailure`.
    pub fn get_thumbnail_array(&self, image_index: usize) -> (r: Result<
        image::DynamicImage,
        RawError,
    >)
        ensures
            all_segments_jpeg(self@) ==> (
            if marker_positions(self@).len() > 2 && image_index + 1 < marker_positions(
                self@,
            ).len() {
                r is Ok
            } else {
                r matches Err(e) && e == RawError::ThumbnailNotFound
            }),
            !all_segments_jpeg(self@) ==> (r matches Err(e) && e == RawError::DecodeFailure),
    {
        let positions = self.find_jpeg_markers();
        let n = self.buffer.len();
        proof {
            lemma_marker_positions_sorted(self@, n as int - 1);
        }
        let np = positions.len();
        let mut images: Vec<image::DynamicImage> = Vec::new();
        let mut i: usize = 0;
        while i + 1 < np
            invariant
                positions@ == marker_positions(self@),
                np == positions@.len(),
                i + 1 <= np || i == 0,
                images@.len() == i,
                forall|j: int|
                    0 <= j < np ==> is_jpeg_marker(self@, #[trigger] positions@[j] as int)
                        && positions@[j] < self@.len(),
                forall|j: int, k: int|
                    0 <= j < k < np ==> positions@[j] < positions@[k],
                forall|j: int| 0 <= j < i ==> decode_jpeg_ok(#[trigger] marker_segment(self@, j)),
            decreases np - i,
        {
            let start = positions[i];
            let end = positions[i + 1];
            let data = match slice_bytes(self.buffer.as_slice(), start, end - start) {
                Ok(v) => v,
                Err(_) => return Err(RawError::ThumbnailNotFound),
            };
            proof {
                assert(data@ =~= marker_segment(self@, i as int));
            }
            match decode_jpeg(data.as_slice()) {
                Ok(img) => images.push(img),
                Err(_) => {
                    proof {
                        assert(!all_segments_jpeg(self@));
                    }
                    return Err(RawError::DecodeFailure);
                },
            }
            i = i + 1;
        }
        proof {
            assert(all_segments_jpeg(self@));
        }
        if images.len() > 1 {
            if image_index < images.len() {
                Ok(images.remove(image_index))
            } else {
                Err(RawError::ThumbnailNotFound)
            }
        } else {
            Err(RawError::ThumbnailNotFound)
        }
    }
}

} // verus!
