//! The pixel work of pack loading, done by the `image` crate.

use vstd::prelude::*;

use crate::pack::{Sheet, SpriteSheet};

verus! {

/// What `image` reads as the width and height from the header of PNG bytes, or
/// the message of the error it reports.
pub uninterp spec fn png_header(bytes: Seq<u8>) -> Result<(u32, u32), Seq<char>>;

/// What `image` decodes from PNG bytes, converted to 8-bit RGBA: width, height and
/// the pixels row by row; or the message of the error it reports.
pub uninterp spec fn png_pixels(bytes: Seq<u8>) -> Result<(u32, u32, Seq<u8>), Seq<char>>;

/// The RGBA pixels that `image`'s nearest-neighbour resize produces from a
/// `width` x `height` image at `new_width` x `new_height`.
pub uninterp spec fn nearest_resized(
    rgba: Seq<u8>,
    width: u32,
    height: u32,
    new_width: u32,
    new_height: u32,
) -> Seq<u8>;

/// RGBA buffer of a `width` x `height` image.
pub open spec fn rgba_len(width: u32, height: u32) -> int {
    width * height * 4
}

/// The `width` x `height` rectangle at (`x`, `y`) of `source`, row by row.
pub open spec fn cropped(source: Sheet, x: u32, y: u32, width: u32, height: u32) -> Sheet {
    Sheet {
        width,
        height,
        rgba: Seq::new(
            rgba_len(width, height) as nat,
            |k: int|
                source.rgba[((y + (k / 4) / (width as int)) * source.width + x + (k / 4) % (
                width as int)) * 4 + k % 4],
        ),
    }
}

/// `bottom` with `top` drawn over it with its left edge at column `x`, top edge
/// at row 0.
pub open spec fn placed(bottom: Sheet, top: Sheet, x: u32) -> Sheet {
    Sheet {
        rgba: Seq::new(
            bottom.rgba.len(),
            |k: int|
                {
                    let p = k / 4;
                    let px = p % (bottom.width as int);
                    let py = p / (bottom.width as int);
                    if x <= px < x + top.width && py < top.height {
                        top.rgba[(py * top.width + px - x) * 4 + k % 4]
                    } else {
                        bottom.rgba[k]
                    }
                },
        ),
        ..bottom
    }
}

/// Calls `image::ImageReader::into_dimensions` on the bytes read as PNG. The
/// contract claims that the result is the crate's answer for these bytes alone,
/// with the error turned into its message.
#[verifier::external_body]
pub(crate) fn png_dimensions(bytes: &[u8]) -> (r: Result<(u32, u32), String>)
    ensures
        match r {
            Ok(d) => png_header(bytes@) == Ok::<(u32, u32), Seq<char>>(d),
            Err(m) => png_header(bytes@) == Err::<(u32, u32), Seq<char>>(m@),
        },
{
    let reader = image::ImageReader::with_format(std::io::Cursor::new(bytes), image::ImageFormat::Png);
    match reader.into_dimensions() {
        Ok(d) => Ok(d),
        Err(e) => Err(e.to_string()),
    }
}

/// Calls `image::load_from_memory_with_format` (PNG) and converts the image to
/// RGBA. The contract claims the result is the crate's answer for these bytes
/// alone, that an RGBA buffer holds four bytes for each pixel, as the crate
/// documents for `ImageBuffer`, and that the image has the size the header
/// declares (the crate builds the image from the decoder's `dimensions`, which
/// `into_dimensions` also returns).
#[verifier::external_body]
pub(crate) fn decode_png(bytes: &[u8]) -> (r: Result<SpriteSheet, String>)
    ensures
        match r {
            Ok(s) => {
                &&& png_pixels(bytes@) == Ok::<(u32, u32, Seq<u8>), Seq<char>>(
                    (s.width, s.height, s.rgba@),
                )
                &&& s.rgba@.len() == rgba_len(s.width, s.height)
                &&& png_header(bytes@) == Ok::<(u32, u32), Seq<char>>((s.width, s.height))
            },
            Err(m) => png_pixels(bytes@) == Err::<(u32, u32, Seq<u8>), Seq<char>>(m@),
        },
{
    match image::load_from_memory_with_format(bytes, image::ImageFormat::Png) {
        Ok(image) => {
            let image = image.into_rgba8();
            Ok(SpriteSheet { width: image.width(), height: image.height(), rgba: image.into_raw() })
        },
        Err(e) => Err(e.to_string()),
    }
}

/// Calls `image::imageops::crop_imm` and copies the view into a new image. The
/// contract claims what the crate's source shows for a rectangle inside the
/// image: the rectangle's pixels, row by row.
#[verifier::external_body]
pub(crate) fn crop(source: &SpriteSheet, x: u32, y: u32, width: u32, height: u32) -> (r: SpriteSheet)
    requires
        source.rgba@.len() == rgba_len(source.width, source.height),
        x + width <= source.width,
        y + height <= source.height,
    ensures
        r@ == cropped(source@, x, y, width, height),
{
    let image = image::RgbaImage::from_raw(source.width, source.height, source.rgba.clone()).unwrap();
    let part = image::imageops::crop_imm(&image, x, y, width, height).to_image();
    SpriteSheet { width: part.width(), height: part.height(), rgba: part.into_raw() }
}

/// Calls `image::imageops::resize` with the nearest-neighbour filter. The contract
/// claims the requested size, four bytes per pixel, and pixels that depend on the
/// source and the sizes alone.
#[verifier::external_body]
pub(crate) fn resize_nearest(source: &SpriteSheet, width: u32, height: u32) -> (r: SpriteSheet)
    requires
        source.rgba@.len() == rgba_len(source.width, source.height),
    ensures
        r.width == width,
        r.height == height,
        r.rgba@.len() == rgba_len(width, height),
        r.rgba@ == nearest_resized(source.rgba@, source.width, source.height, width, height),
{
    let image = image::RgbaImage::from_raw(source.width, source.height, source.rgba.clone()).unwrap();
    let resized = image::imageops::resize(&image, width, height, image::imageops::FilterType::Nearest);
    SpriteSheet { width: resized.width(), height: resized.height(), rgba: resized.into_raw() }
}

/// Calls `image::imageops::replace` at (`x`, 0). The contract claims what the
/// crate's source shows when `top` fits inside `bottom` there: those pixels are
/// replaced, all others kept.
#[verifier::external_body]
pub(crate) fn replace(bottom: &mut SpriteSheet, top: &SpriteSheet, x: u32)
    requires
        old(bottom).rgba@.len() == rgba_len(old(bottom).width, old(bottom).height),
        top.rgba@.len() == rgba_len(top.width, top.height),
        x + top.width <= old(bottom).width,
        top.height <= old(bottom).height,
    ensures
        final(bottom)@ == placed(old(bottom)@, top@, x),
{
    let mut image = image::RgbaImage::from_raw(bottom.width, bottom.height, std::mem::take(&mut bottom.rgba)).unwrap();
    let over = image::RgbaImage::from_raw(top.width, top.height, top.rgba.clone()).unwrap();
    image::imageops::replace(&mut image, &over, x as i64, 0);
    bottom.rgba = image.into_raw();
}

} // verus!
