//! Validation policy for produced screenshots: a minimum byte size that is
//! enforced, and a format-signature check that is only reported.

use vstd::prelude::*;

verus! {

/// Number of bytes below which a produced screenshot is rejected as an
/// error artifact rather than accepted as an image.
pub const MIN_IMAGE_BYTES: usize = 1000;

/// A capture outcome below the minimum size is never accepted.
pub fn image_size_acceptable(len: usize) -> (r: bool)
    ensures
        r == (len >= MIN_IMAGE_BYTES),
{
    len >= MIN_IMAGE_BYTES
}

/// The eight-byte signature every PNG stream starts with.
pub open spec fn is_png_signature(bytes: Seq<u8>) -> bool {
    &&& bytes.len() >= 8
    &&& bytes[0] == 0x89u8
    &&& bytes[1] == 0x50u8
    &&& bytes[2] == 0x4eu8
    &&& bytes[3] == 0x47u8
    &&& bytes[4] == 0x0du8
    &&& bytes[5] == 0x0au8
    &&& bytes[6] == 0x1au8
    &&& bytes[7] == 0x0au8
}

/// Whether the buffer starts with the PNG signature.  A mismatch is worth a
/// warning but does not by itself reject a capture; only size does.
pub fn png_signature_matches(data: &Vec<u8>) -> (r: bool)
    ensures
        r == is_png_signature(data@),
{
    data.len() >= 8 && data[0] == 0x89 && data[1] == 0x50 && data[2] == 0x4e && data[3] == 0x47
        && data[4] == 0x0d && data[5] == 0x0a && data[6] == 0x1a && data[7] == 0x0a
}

} // verus!
