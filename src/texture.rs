//! Decoding texture images and laying them out for upload.

use vstd::prelude::*;
use crate::viewport::Extent3;

verus! {

#[verifier::external_type_specification]
#[verifier::external_body]
pub struct ExImageError(image::ImageError);

/// What decoding the bytes gives, as width, height and RGBA bytes (four per
/// pixel, row by row), or `None` when they are not an image in a format that
/// the decoder knows.
pub uninterp spec fn decoded_rgba8(bytes: Seq<u8>) -> Option<(u32, u32, Seq<u8>)>;

/// Relies on `image::load_from_memory`, which guesses the format from the
/// leading bytes and decodes them, followed by `DynamicImage::to_rgba8`,
/// which copies the pixels into a fresh buffer of the same width and height
/// with four bytes per pixel. The result depends on the bytes alone.
#[verifier::external_body]
fn decode_rgba8(bytes: &[u8]) -> (r: Result<(u32, u32, Vec<u8>), image::ImageError>)
    ensures
        r.is_ok() == decoded_rgba8(bytes@).is_some(),
        r matches Ok((w, h, px)) ==> {
            &&& decoded_rgba8(bytes@) == Some((w, h, px@))
            &&& px@.len() == 4 * w * h
        },
{
    match image::load_from_memory(bytes) {
        Ok(img) => {
            let rgba = img.to_rgba8();
            Ok((rgba.width(), rgba.height(), rgba.into_raw()))
        },
        Err(e) => Err(e),
    }
}

/// Why a texture could not be made.
#[derive(Debug)]
pub enum TextureError {
    /// The bytes are not an image that can be decoded.
    Decode(image::ImageError),
}

/// An image as four bytes (red, green, blue, alpha) per pixel, row by row.
pub struct RgbaImage {
    width: u32,
    height: u32,
    pixels: Vec<u8>,
}

impl RgbaImage {
    /// The pixel bytes cover the whole image.
    pub open spec fn wf(self) -> bool {
        self.pixels_of().len() == 4 * self.width_of() * self.height_of()
    }

    pub closed spec fn width_of(self) -> u32 {
        self.width
    }

    pub closed spec fn height_of(self) -> u32 {
        self.height
    }

    pub closed spec fn pixels_of(self) -> Seq<u8> {
        self.pixels@
    }

    /// Decodes an encoded image (PNG, JPEG) into RGBA bytes.
    pub fn decode(bytes: &[u8]) -> (r: Result<RgbaImage, TextureError>)
        ensures
            r.is_ok() == decoded_rgba8(bytes@).is_some(),
            r matches Ok(img) ==> {
                &&& decoded_rgba8(bytes@) == Some(
                    (img.width_of(), img.height_of(), img.pixels_of()),
                )
                &&& img.wf()
            },
    {
        match decode_rgba8(bytes) {
            Ok((width, height, pixels)) => Ok(RgbaImage { width, height, pixels }),
            Err(e) => Err(TextureError::Decode(e)),
        }
    }

    pub fn width(&self) -> (r: u32)
        ensures
            r == self.width_of(),
    {
        self.width
    }

    pub fn height(&self) -> (r: u32)
        ensures
            r == self.height_of(),
    {
        self.height
    }

    pub fn pixels(&self) -> (r: &Vec<u8>)
        ensures
            r@ == self.pixels_of(),
    {
        &self.pixels
    }
}

/// The colour encoding that a texture is stored in.
#[derive(Clone, Copy, Debug, PartialEq, Eq, Structural)]
pub enum TexelFormat {
    /// Eight bits per channel, linear values: for normal maps, whose channels
    /// are directions rather than colours.
    Rgba8Unorm,
    /// Eight bits per channel, sRGB-encoded colour.
    Rgba8UnormSrgb,
}

/// How an RGBA8 image is described to the GPU for upload.
#[derive(Clone, Copy, Debug, PartialEq, Eq, Structural)]
pub struct TextureLayout {
    pub size: Extent3,
    pub format: TexelFormat,
    pub bytes_per_row: u32,
    pub rows_per_image: u32,
}

/// The largest width whose rows of four-byte pixels still have a byte count
/// that fits in a `u32`.
pub const MAX_TEXTURE_WIDTH: u32 = 0x3fff_ffff;

/// The upload layout of a `width` by `height` RGBA8 image: a single layer,
/// rows of four bytes per pixel, linear storage for normal maps and sRGB
/// storage for colour textures.
pub fn texture_layout(width: u32, height: u32, is_normal_map: bool) -> (r: TextureLayout)
    requires
        width <= MAX_TEXTURE_WIDTH,
    ensures
        r.size == (Extent3 { width, height, depth_or_array_layers: 1 }),
        r.format == (if is_normal_map {
            TexelFormat::Rgba8Unorm
        } else {
            TexelFormat::Rgba8UnormSrgb
        }),
        r.bytes_per_row == 4 * width,
        r.rows_per_image == height,
{
    let format = if is_normal_map {
        TexelFormat::Rgba8Unorm
    } else {
        TexelFormat::Rgba8UnormSrgb
    };
    TextureLayout {
        size: Extent3 { width, height, depth_or_array_layers: 1 },
        format,
        bytes_per_row: 4 * width,
        rows_per_image: height,
    }
}

} // verus!
