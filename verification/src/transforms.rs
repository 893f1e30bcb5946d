use vstd::prelude::*;
use crate::errors::{LoadError, SaveError};
use crate::image_data::{Image, ImageView};

verus! {

// The pixel transforms are pure: each result below is a function of the
// named arguments alone, so it is given an uninterpreted name and every
// contract speaks of that name.

pub uninterp spec fn resized_of(img: ImageView, width: u32, height: u32) -> ImageView;

pub uninterp spec fn hue_rotated_of(img: ImageView, degrees: i32) -> ImageView;

pub uninterp spec fn blurred_of(img: ImageView, sigma_bits: u32) -> ImageView;

pub uninterp spec fn flipped_h_of(img: ImageView) -> ImageView;

pub uninterp spec fn flipped_v_of(img: ImageView) -> ImageView;

pub uninterp spec fn grayscaled_of(img: ImageView) -> ImageView;

pub uninterp spec fn brightened_of(img: ImageView, delta: i32) -> ImageView;

pub uninterp spec fn contrasted_of(img: ImageView, factor_bits: u32) -> ImageView;

pub uninterp spec fn decoded_of(bytes: Seq<u8>) -> Option<ImageView>;

pub uninterp spec fn png_encoding_of(img: ImageView) -> Option<Seq<u8>>;

/// The bit pattern of a strictly positive, normal 32-bit IEEE 754 value:
/// sign clear, exponent neither all zeros nor all ones.
pub open spec fn f32_bits_positive_normal(bits: u32) -> bool {
    &&& bits >> 31 == 0u32
    &&& 1u32 <= (bits >> 23) & 0xffu32
    &&& (bits >> 23) & 0xffu32 <= 254u32
}

/// The bit pattern of an IEEE 754 NaN: exponent all ones, mantissa nonzero.
pub open spec fn f32_bits_nan(bits: u32) -> bool {
    &&& (bits >> 23) & 0xffu32 == 255u32
    &&& bits & 0x7f_ffffu32 != 0u32
}

/// Sigmas the gaussian blur accepts without panicking: zero of either sign
/// (the library substitutes a default) or a positive normal value.
pub open spec fn blur_sigma_ok(sigma_bits: u32) -> bool {
    sigma_bits & 0x7fff_ffffu32 == 0u32 || f32_bits_positive_normal(sigma_bits)
}

/// Contrast factors the transform accepts without panicking: anything but NaN.
pub open spec fn contrast_factor_ok(factor_bits: u32) -> bool {
    !f32_bits_nan(factor_bits)
}

/// Brightness shifts the transform library accepts without overflow: it
/// widens each channel only to a 32-bit signed value before adding the
/// delta, so the sum must stay representable for the largest channel. The
/// low side is safe because channels are never negative.
pub open spec fn brightness_delta_ok(delta: i32) -> bool {
    delta <= i32::MAX - 255
}

/// What brighten does to one colour channel: shift by the delta and clamp
/// to the byte range.
pub open spec fn brightened_chan(b: u8, delta: i32) -> u8 {
    let v = b + delta;
    if v < 0 {
        0u8
    } else if v > 255 {
        255u8
    } else {
        v as u8
    }
}

/// Resize targets whose working buffers fit in memory: nonzero dimensions,
/// a four-byte-per-pixel result no larger than the allocator allows, and an
/// intermediate sampling buffer (sixteen bytes per pixel, source width by
/// target height) no larger either.
pub open spec fn resize_target_ok(src_width: u32, width: u32, height: u32) -> bool {
    &&& width >= 1
    &&& height >= 1
    &&& 16 * (src_width as int) * (height as int) <= isize::MAX as int
    &&& 4 * (width as int) * (height as int) <= isize::MAX as int
}

pub fn check_blur_sigma(sigma_bits: u32) -> (r: bool)
    ensures
        r == blur_sigma_ok(sigma_bits),
{
    let exponent: u32 = (sigma_bits >> 23) & 0xff;
    (sigma_bits & 0x7fff_ffff) == 0 || ((sigma_bits >> 31) == 0 && 1 <= exponent && exponent <= 254)
}

pub fn check_contrast_factor(factor_bits: u32) -> (r: bool)
    ensures
        r == contrast_factor_ok(factor_bits),
{
    let exponent: u32 = (factor_bits >> 23) & 0xff;
    !(exponent == 255 && (factor_bits & 0x7f_ffff) != 0)
}

pub fn check_resize_target(src_width: u32, width: u32, height: u32) -> (r: bool)
    ensures
        r == resize_target_ok(src_width, width, height),
{
    proof {
        assert(16 * (src_width as int) * (height as int) <= 16 * 0xffff_ffff * 0xffff_ffff)
            by (nonlinear_arith)
            requires
                0 <= src_width as int <= 0xffff_ffff,
                0 <= height as int <= 0xffff_ffff;
        assert(4 * (width as int) * (height as int) <= 4 * 0xffff_ffff * 0xffff_ffff)
            by (nonlinear_arith)
            requires
                0 <= width as int <= 0xffff_ffff,
                0 <= height as int <= 0xffff_ffff;
    }
    let intermediate: u128 = 16 * (src_width as u128) * (height as u128);
    let result: u128 = 4 * (width as u128) * (height as u128);
    width >= 1 && height >= 1 && intermediate <= (isize::MAX as u128) && result <= (isize::MAX
        as u128)
}

/// Relies on image::DynamicImage::resize_exact with the Lanczos3 filter:
/// the result is a function of the pixels and the target alone and has
/// exactly the requested dimensions.
#[verifier::external_body]
pub(crate) fn apply_resize(img: &Image, width: u32, height: u32) -> (r: Image)
    requires
        img@.wf(),
        resize_target_ok(img@.width, width, height),
    ensures
        r@ == resized_of(img@, width, height),
        r@.width == width,
        r@.height == height,
        r@.wf(),
{
    let buf = image::RgbaImage::from_raw(img.width, img.height, img.pixels.clone()).unwrap();
    let out = image::DynamicImage::ImageRgba8(buf)
        .resize_exact(width, height, image::imageops::FilterType::Lanczos3)
        .into_rgba8();
    Image { width: out.width(), height: out.height(), pixels: out.into_raw() }
}

/// Relies on image::DynamicImage::huerotate: a pixelwise recolouring that
/// keeps the dimensions.
#[verifier::external_body]
pub(crate) fn apply_hue_rotate(img: &Image, degrees: i32) -> (r: Image)
    requires
        img@.wf(),
    ensures
        r@ == hue_rotated_of(img@, degrees),
        r@.width == img@.width,
        r@.height == img@.height,
        r@.wf(),
{
    let buf = image::RgbaImage::from_raw(img.width, img.height, img.pixels.clone()).unwrap();
    let out = image::DynamicImage::ImageRgba8(buf).huerotate(degrees).into_rgba8();
    Image { width: out.width(), height: out.height(), pixels: out.into_raw() }
}

/// Relies on image::DynamicImage::blur: a gaussian blur that keeps the
/// dimensions. It panics unless the sigma is zero or positive normal, so
/// those bit patterns are required here.
#[verifier::external_body]
pub(crate) fn apply_blur(img: &Image, sigma_bits: u32) -> (r: Image)
    requires
        img@.wf(),
        img@.width >= 1,
        img@.height >= 1,
        blur_sigma_ok(sigma_bits),
    ensures
        r@ == blurred_of(img@, sigma_bits),
        r@.width == img@.width,
        r@.height == img@.height,
        r@.wf(),
{
    let buf = image::RgbaImage::from_raw(img.width, img.height, img.pixels.clone()).unwrap();
    let out = image::DynamicImage::ImageRgba8(buf).blur(bytemuck::cast(sigma_bits)).into_rgba8();
    Image { width: out.width(), height: out.height(), pixels: out.into_raw() }
}

/// Relies on image::DynamicImage::fliph: mirrors the columns, keeping the
/// dimensions, so each pixel comes from the opposite column of its row.
#[verifier::external_body]
pub(crate) fn apply_flip_horizontal(img: &Image) -> (r: Image)
    requires
        img@.wf(),
    ensures
        r@ == flipped_h_of(img@),
        r@.width == img@.width,
        r@.height == img@.height,
        r@.wf(),
        forall|x: int, y: int, c: int|
            0 <= x < img@.width && 0 <= y < img@.height && 0 <= c < 4 ==> #[trigger] r@.chan(
                x,
                y,
                c,
            ) == img@.chan(img@.width - 1 - x, y, c),
{
    let buf = image::RgbaImage::from_raw(img.width, img.height, img.pixels.clone()).unwrap();
    let out = image::DynamicImage::ImageRgba8(buf).fliph().into_rgba8();
    Image { width: out.width(), height: out.height(), pixels: out.into_raw() }
}

/// Relies on image::DynamicImage::flipv: mirrors the rows, keeping the
/// dimensions, so each pixel comes from the opposite row of its column.
#[verifier::external_body]
pub(crate) fn apply_flip_vertical(img: &Image) -> (r: Image)
    requires
        img@.wf(),
    ensures
        r@ == flipped_v_of(img@),
        r@.width == img@.width,
        r@.height == img@.height,
        r@.wf(),
        forall|x: int, y: int, c: int|
            0 <= x < img@.width && 0 <= y < img@.height && 0 <= c < 4 ==> #[trigger] r@.chan(
                x,
                y,
                c,
            ) == img@.chan(x, img@.height - 1 - y, c),
{
    let buf = image::RgbaImage::from_raw(img.width, img.height, img.pixels.clone()).unwrap();
    let out = image::DynamicImage::ImageRgba8(buf).flipv().into_rgba8();
    Image { width: out.width(), height: out.height(), pixels: out.into_raw() }
}

/// Relies on image::DynamicImage::grayscale: a pixelwise desaturation that
/// keeps the dimensions.
#[verifier::external_body]
pub(crate) fn apply_grayscale(img: &Image) -> (r: Image)
    requires
        img@.wf(),
    ensures
        r@ == grayscaled_of(img@),
        r@.width == img@.width,
        r@.height == img@.height,
        r@.wf(),
{
    let buf = image::RgbaImage::from_raw(img.width, img.height, img.pixels.clone()).unwrap();
    let out = image::DynamicImage::ImageRgba8(buf).grayscale().into_rgba8();
    Image { width: out.width(), height: out.height(), pixels: out.into_raw() }
}

/// Relies on image::DynamicImage::brighten: shifts every colour channel by
/// the given amount with clamping and keeps the alpha and the dimensions.
/// It widens each channel only to a 32-bit signed value before adding the
/// delta, which overflows for deltas within 255 of the maximum, so those
/// are required away here.
#[verifier::external_body]
pub(crate) fn apply_brighten(img: &Image, delta: i32) -> (r: Image)
    requires
        img@.wf(),
        brightness_delta_ok(delta),
    ensures
        r@ == brightened_of(img@, delta),
        r@.width == img@.width,
        r@.height == img@.height,
        r@.wf(),
        forall|x: int, y: int, c: int|
            0 <= x < img@.width && 0 <= y < img@.height && 0 <= c < 3 ==> #[trigger] r@.chan(
                x,
                y,
                c,
            ) == brightened_chan(img@.chan(x, y, c), delta),
        forall|x: int, y: int|
            0 <= x < img@.width && 0 <= y < img@.height ==> #[trigger] r@.chan(x, y, 3)
                == img@.chan(x, y, 3),
{
    let buf = image::RgbaImage::from_raw(img.width, img.height, img.pixels.clone()).unwrap();
    let out = image::DynamicImage::ImageRgba8(buf).brighten(delta).into_rgba8();
    Image { width: out.width(), height: out.height(), pixels: out.into_raw() }
}

/// Relies on image::DynamicImage::adjust_contrast: a pixelwise remapping
/// that keeps the dimensions. It panics on a NaN factor, so NaN bit
/// patterns are required away here.
#[verifier::external_body]
pub(crate) fn apply_contrast(img: &Image, factor_bits: u32) -> (r: Image)
    requires
        img@.wf(),
        contrast_factor_ok(factor_bits),
    ensures
        r@ == contrasted_of(img@, factor_bits),
        r@.width == img@.width,
        r@.height == img@.height,
        r@.wf(),
{
    let buf = image::RgbaImage::from_raw(img.width, img.height, img.pixels.clone()).unwrap();
    let out = image::DynamicImage::ImageRgba8(buf)
        .adjust_contrast(bytemuck::cast(factor_bits))
        .into_rgba8();
    Image { width: out.width(), height: out.height(), pixels: out.into_raw() }
}

/// Relies on image::load_from_memory with its built-in format detection:
/// the pixels are normalised to RGBA, four bytes per pixel. The name holds
/// under the assumption that no run-time decoding hook of the image
/// library is registered (this crate and its surrounding application
/// register none); hooks could widen or change what decodes, so a failed
/// decode is reported but deliberately not pinned to the name.
#[verifier::external_body]
pub(crate) fn decode_image(bytes: &[u8]) -> (r: Result<Image, LoadError>)
    ensures
        match r {
            Ok(img) => decoded_of(bytes@) == Some(img@) && img@.wf(),
            Err(e) => e == LoadError::Undecodable,
        },
{
    match image::load_from_memory(bytes) {
        Ok(decoded) => {
            let out = decoded.into_rgba8();
            Ok(Image { width: out.width(), height: out.height(), pixels: out.into_raw() })
        },
        Err(_) => Err(LoadError::Undecodable),
    }
}

impl Image {
    /// Encodes this image as PNG bytes: a pure export that succeeds for
    /// every image with pixels to write.
    pub fn to_png_bytes(&self) -> (r: Result<Vec<u8>, SaveError>)
        requires
            self@.wf(),
        ensures
            match r {
                Ok(bytes) => png_encoding_of(self@) == Some(bytes@),
                Err(e) => png_encoding_of(self@) is None && e == SaveError::Unencodable,
            },
            self@.width >= 1 && self@.height >= 1 ==> r is Ok,
    {
        encode_png(self)
    }
}

/// Relies on image::DynamicImage::write_to with the PNG format: encoding is
/// a function of the pixels alone, and it succeeds for every image with
/// nonzero dimensions (writing to a growable buffer cannot fail; the PNG
/// encoder rejects only a zero width or height).
#[verifier::external_body]
pub(crate) fn encode_png(img: &Image) -> (r: Result<Vec<u8>, SaveError>)
    requires
        img@.wf(),
    ensures
        match r {
            Ok(bytes) => png_encoding_of(img@) == Some(bytes@),
            Err(e) => png_encoding_of(img@) is None && e == SaveError::Unencodable,
        },
        img@.width >= 1 && img@.height >= 1 ==> r is Ok,
{
    let buf = image::RgbaImage::from_raw(img.width, img.height, img.pixels.clone()).unwrap();
    let mut out: Vec<u8> = Vec::new();
    let status = image::DynamicImage::ImageRgba8(buf)
        .write_to(&mut std::io::Cursor::new(&mut out), image::ImageFormat::Png);
    match status {
        Ok(()) => Ok(out),
        Err(_) => Err(SaveError::Unencodable),
    }
}

} // verus!
