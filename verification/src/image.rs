//! Which files the image lister takes for images.

use crate::text::equals;
use crate::words::{lowercase_of, to_lowercase};
use vstd::prelude::*;

verus! {

/// The file extensions of images, in lower case.
pub open spec fn image_extensions() -> Seq<Seq<char>> {
    seq!["jpg"@, "jpeg"@, "png"@, "gif"@, "bmp"@, "tiff"@, "webp"@, "ppm"@]
}

/// Tests whether a file extension, without its dot, is that of an image:
/// whether its lower-case form is one of `image_extensions`.
pub fn is_image_extension(extension: &str) -> (image: bool)
    ensures
        image == image_extensions().contains(lowercase_of(extension@)),
{
    let lower: String = to_lowercase(extension);
    is_known_extension(lower.as_str())
}

/// Tests whether an extension already in lower case is one of
/// `image_extensions`.
pub fn is_known_extension(lower: &str) -> (known: bool)
    ensures
        known == image_extensions().contains(lower@),
{
    let known: [&str; 8] = ["jpg", "jpeg", "png", "gif", "bmp", "tiff", "webp", "ppm"];
    let mut i: usize = 0;
    while i < 8
        invariant
            i <= 8,
            known@.len() == 8,
            forall|j: int| 0 <= j < 8 ==> (#[trigger] known@[j])@ == image_extensions()[j],
            forall|j: int| 0 <= j < i ==> (#[trigger] image_extensions()[j]) != lower@,
        decreases 8 - i,
    {
        if equals(lower, known[i]) {
            assert(image_extensions()[i as int] == lower@);
            return true;
        }
        i += 1;
    }
    false
}

} // verus!
