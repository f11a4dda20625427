//! Decoded images, and what the `image` crate makes of them for upload.

use vstd::prelude::*;

verus! {

/// A decoded image of the `image` crate.
#[verifier::external_type_specification]
#[verifier::external_body]
pub struct ExDynamicImage(image::DynamicImage);

/// What `DynamicImage::flipv` returns for `img`: the image with the order of
/// its rows reversed.
pub uninterp spec fn flipped(img: image::DynamicImage) -> image::DynamicImage;

/// What `DynamicImage::to_rgb8` returns for `img`: width and height of the
/// image, and its pixels in rows from the first to the last, each pixel as
/// three bytes of red, green and blue.
pub uninterp spec fn rgb8_pixels(img: image::DynamicImage) -> (u32, u32, Seq<u8>);

/// An image as rows of pixels of three bytes each.
#[derive(Debug, Clone, PartialEq, Eq)]
pub struct RgbPixels {
    pub width: u32,
    pub height: u32,
    pub bytes: Vec<u8>,
}

impl View for RgbPixels {
    type V = (u32, u32, Seq<u8>);

    open spec fn view(&self) -> (u32, u32, Seq<u8>) {
        (self.width, self.height, self.bytes@)
    }
}

/// Calls `DynamicImage::flipv`: the result is a new image, which is
/// [`flipped`] of `img`.
#[verifier::external_body]
pub(crate) fn flip_vertically(img: &image::DynamicImage) -> (turned: image::DynamicImage)
    ensures
        turned == flipped(*img),
{
    img.flipv()
}

/// Calls `DynamicImage::to_rgb8` and takes the resulting buffer apart into
/// its width, its height and its bytes: they are [`rgb8_pixels`] of `img`.
#[verifier::external_body]
pub(crate) fn to_rgb8(img: &image::DynamicImage) -> (pixels: RgbPixels)
    ensures
        pixels@ == rgb8_pixels(*img),
{
    let rgb = img.to_rgb8();
    RgbPixels { width: rgb.width(), height: rgb.height(), bytes: rgb.into_raw() }
}

} // verus!
