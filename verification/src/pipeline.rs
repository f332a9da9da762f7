//! The transform pipeline: an ordered, deterministic sequence of pixel-space
//! adjustments applied to an RGBA buffer before it is hashed. Each stage is a
//! pure function of the buffer, the dimensions and one amount; the stages run
//! in a fixed, load-bearing order.

use vstd::prelude::*;

use crate::state::State;

verus! {

/// What `image::DynamicImage::blur` returns for an RGBA buffer of the given
/// dimensions and the given radius.
pub uninterp spec fn spec_blur(pixels: Seq<u8>, width: int, height: int, radius: int) -> Seq<u8>;

/// What `image::DynamicImage::huerotate` returns, with degrees as the amount.
pub uninterp spec fn spec_huerotate(pixels: Seq<u8>, width: int, height: int, degrees: int) -> Seq<
    u8,
>;

/// What `image::DynamicImage::adjust_contrast` returns.
pub uninterp spec fn spec_contrast(pixels: Seq<u8>, width: int, height: int, amount: int) -> Seq<
    u8,
>;

/// What `image::DynamicImage::brighten` returns, with the raw additive offset
/// as the amount.
pub uninterp spec fn spec_brighten(pixels: Seq<u8>, width: int, height: int, offset: int) -> Seq<
    u8,
>;

/// Relies on `image::DynamicImage::blur`: a Gaussian blur that keeps the
/// image's dimensions and depends only on the buffer, the dimensions and the
/// radius. A radius of zero is mapped to the library's minimal sigma; a
/// negative radius would fail its sigma assertion, so the radius must not be
/// negative.
#[verifier::external_body]
fn blur_rgba(pixels: &Vec<u8>, width: u32, height: u32, radius: i32) -> (r: Vec<u8>)
    requires
        radius >= 0,
        width >= 1,
        height >= 1,
        pixels@.len() == 4 * width * height,
    ensures
        r@ == spec_blur(pixels@, width as int, height as int, radius as int),
        r@.len() == pixels@.len(),
{
    let img = image::RgbaImage::from_vec(width, height, pixels.clone()).unwrap();
    image::DynamicImage::ImageRgba8(img).blur(radius as _).into_rgba8().into_vec()
}

/// Relies on `image::DynamicImage::huerotate`: rotates each pixel's hue by
/// the given degrees, keeping the image's dimensions.
#[verifier::external_body]
fn huerotate_rgba(pixels: &Vec<u8>, width: u32, height: u32, degrees: i32) -> (r: Vec<u8>)
    requires
        width >= 1,
        height >= 1,
        pixels@.len() == 4 * width * height,
    ensures
        r@ == spec_huerotate(pixels@, width as int, height as int, degrees as int),
        r@.len() == pixels@.len(),
{
    let img = image::RgbaImage::from_vec(width, height, pixels.clone()).unwrap();
    image::DynamicImage::ImageRgba8(img).huerotate(degrees).into_rgba8().into_vec()
}

/// Relies on `image::DynamicImage::adjust_contrast`: adjusts the contrast by
/// the given amount, keeping the image's dimensions.
#[verifier::external_body]
fn contrast_rgba(pixels: &Vec<u8>, width: u32, height: u32, amount: i32) -> (r: Vec<u8>)
    requires
        width >= 1,
        height >= 1,
        pixels@.len() == 4 * width * height,
    ensures
        r@ == spec_contrast(pixels@, width as int, height as int, amount as int),
        r@.len() == pixels@.len(),
{
    let img = image::RgbaImage::from_vec(width, height, pixels.clone()).unwrap();
    image::DynamicImage::ImageRgba8(img).adjust_contrast(amount as _).into_rgba8().into_vec()
}

/// Relies on `image::DynamicImage::brighten`: adds the raw offset to each
/// pixel channel with clamping, keeping the image's dimensions. It sums a
/// channel (at most 255) and the offset in 32 bits before clamping, so the
/// offset must leave room for that sum.
#[verifier::external_body]
fn brighten_rgba(pixels: &Vec<u8>, width: u32, height: u32, offset: i32) -> (r: Vec<u8>)
    requires
        offset <= i32::MAX - 255,
        width >= 1,
        height >= 1,
        pixels@.len() == 4 * width * height,
    ensures
        r@ == spec_brighten(pixels@, width as int, height as int, offset as int),
        r@.len() == pixels@.len(),
{
    let img = image::RgbaImage::from_vec(width, height, pixels.clone()).unwrap();
    image::DynamicImage::ImageRgba8(img).brighten(offset).into_rgba8().into_vec()
}

/// What the pipeline produces for a source buffer and a snapshot: blur, then
/// hue rotation, then contrast, then brightness with the knob doubled.
pub open spec fn spec_transform(pixels: Seq<u8>, width: int, height: int, s: State) -> Seq<u8> {
    spec_brighten(
        spec_contrast(
            spec_huerotate(
                spec_blur(pixels, width, height, s.blur as int),
                width,
                height,
                s.hue_rotate as int,
            ),
            width,
            height,
            s.contrast as int,
        ),
        width,
        height,
        2 * s.brightness as int,
    )
}

/// The raw adjustment sequence: blur, hue rotation, contrast, then a plain
/// additive brightness offset, in that fixed order.
pub fn adjust(
    pixels: &Vec<u8>,
    width: u32,
    height: u32,
    blur: i32,
    hue: i32,
    contrast: i32,
    offset: i32,
) -> (r: Vec<u8>)
    requires
        blur >= 0,
        offset <= i32::MAX - 255,
        width >= 1,
        height >= 1,
        pixels@.len() == 4 * width * height,
    ensures
        r@ == spec_brighten(
            spec_contrast(
                spec_huerotate(
                    spec_blur(pixels@, width as int, height as int, blur as int),
                    width as int,
                    height as int,
                    hue as int,
                ),
                width as int,
                height as int,
                contrast as int,
            ),
            width as int,
            height as int,
            offset as int,
        ),
        r@.len() == pixels@.len(),
{
    let blurred = blur_rgba(pixels, width, height, blur);
    let rotated = huerotate_rgba(&blurred, width, height, hue);
    let contrasted = contrast_rgba(&rotated, width, height, contrast);
    brighten_rgba(&contrasted, width, height, offset)
}

/// The transform pipeline over a snapshot: the adjustments in their fixed
/// order, handing the brightness stage twice the snapshot's brightness knob.
pub fn transform(pixels: &Vec<u8>, width: u32, height: u32, s: &State) -> (r: Vec<u8>)
    requires
        s.valid(),
        width >= 1,
        height >= 1,
        pixels@.len() == 4 * width * height,
    ensures
        r@ == spec_transform(pixels@, width as int, height as int, *s),
        r@.len() == pixels@.len(),
{
    adjust(pixels, width, height, s.blur, s.hue_rotate, s.contrast, s.brightness * 2)
}

/// The documented brightness doubling: a snapshot's transform ends in a raw
/// additive offset of exactly twice the brightness knob, so brightness 50
/// matches a raw offset of 100 on the same preceding stages.
pub proof fn lemma_brightness_doubling(pixels: Seq<u8>, width: int, height: int, s: State)
    ensures
        spec_transform(pixels, width, height, s) == spec_brighten(
            spec_contrast(
                spec_huerotate(
                    spec_blur(pixels, width, height, s.blur as int),
                    width,
                    height,
                    s.hue_rotate as int,
                ),
                width,
                height,
                s.contrast as int,
            ),
            width,
            height,
            2 * s.brightness as int,
        ),
{
}

} // verus!
