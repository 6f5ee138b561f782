//! Decoded texture input.
//!
//! The render core consumes an already-decoded image: a width, a height and
//! an RGBA8 pixel buffer holding exactly `width * height * 4` bytes. The
//! decoding itself is done by the `image` crate behind one trusted wrapper;
//! everything after the call is verified against the named decode results.

use vstd::prelude::*;

verus! {

/// Whether `image` decodes these bytes at all.
pub uninterp spec fn rgba_decode_ok(bytes: Seq<u8>) -> bool;

/// The width `image` reports for these bytes.
pub uninterp spec fn rgba_width(bytes: Seq<u8>) -> u32;

/// The height `image` reports for these bytes.
pub uninterp spec fn rgba_height(bytes: Seq<u8>) -> u32;

/// The RGBA8 pixel buffer `image` decodes these bytes to.
pub uninterp spec fn rgba_pixels(bytes: Seq<u8>) -> Seq<u8>;

#[verifier::external_type_specification]
#[verifier::external_body]
pub struct ExImageError(image::ImageError);

/// Relies on `image::load_from_memory` and `DynamicImage::to_rgba8`:
/// decoding is a pure function of the input bytes, either failing or
/// yielding dimensions and an RGBA8 buffer of exactly four bytes per pixel
/// (an `RgbaImage` always holds `width * height * 4` bytes). This program
/// registers none of `image`'s process-global decoding hooks, so the decode
/// depends on the bytes alone.
#[verifier::external_body]
fn decode_rgba(bytes: &Vec<u8>) -> (r: Result<(u32, u32, Vec<u8>), image::ImageError>)
    ensures
        r is Ok <==> rgba_decode_ok(bytes@),
        r is Ok ==> r->Ok_0.0 == rgba_width(bytes@),
        r is Ok ==> r->Ok_0.1 == rgba_height(bytes@),
        r is Ok ==> r->Ok_0.2@ == rgba_pixels(bytes@),
        r is Ok ==> r->Ok_0.2@.len() == rgba_width(bytes@) * rgba_height(bytes@) * 4,
{
    let img = image::load_from_memory(bytes.as_slice())?;
    let rgba = img.to_rgba8();
    let (w, h) = rgba.dimensions();
    Ok((w, h, rgba.into_raw()))
}

/// Why a texture input was rejected.
#[derive(Clone, Copy, PartialEq, Eq, Structural, Debug)]
pub enum TextureError {
    /// The byte stream is not a decodable image.
    Decode,
    /// The pixel buffer does not hold `width * height * 4` bytes.
    SizeMismatch,
}

/// A decoded image ready for upload: dimensions plus an RGBA8 buffer of
/// exactly `width * height * 4` bytes.
pub struct TextureData {
    /// Image width in pixels.
    pub width: u32,
    /// Image height in pixels.
    pub height: u32,
    /// RGBA8 bytes, row-major.
    pub pixels: Vec<u8>,
}

impl TextureData {
    /// The buffer holds exactly four bytes per pixel.
    pub open spec fn wf(self) -> bool {
        self.pixels@.len() == self.width * self.height * 4
    }

    /// Wrap already-decoded pixels, rejecting a buffer whose length does not
    /// match the dimensions.
    pub fn new(width: u32, height: u32, pixels: Vec<u8>) -> (r: Result<TextureData, TextureError>)
        ensures
            match r {
                Ok(td) => {
                    &&& pixels@.len() == width * height * 4
                    &&& td.width == width
                    &&& td.height == height
                    &&& td.pixels@ == pixels@
                    &&& td.wf()
                },
                Err(e) => {
                    &&& e == TextureError::SizeMismatch
                    &&& pixels@.len() != width * height * 4
                },
            },
    {
        proof {
            assert((width as int) * (height as int) * 4 < 0x1_0000_0000_0000_0000_0000)
                by (nonlinear_arith)
                requires
                    0 <= width < 0x1_0000_0000,
                    0 <= height < 0x1_0000_0000,
            ;
        }
        let expected: u128 = (width as u128) * (height as u128) * 4;
        if (pixels.len() as u128) == expected {
            Ok(TextureData { width, height, pixels })
        } else {
            Err(TextureError::SizeMismatch)
        }
    }

    /// Decode an image byte stream into RGBA8 texture data. Succeeds exactly
    /// when the bytes are a decodable image; a failed decode is reported,
    /// never a partial result.
    pub fn from_bytes(bytes: &Vec<u8>) -> (r: Result<TextureData, TextureError>)
        ensures
            r is Ok <==> rgba_decode_ok(bytes@),
            r is Ok ==> ({
                let td = r->Ok_0;
                &&& td.width == rgba_width(bytes@)
                &&& td.height == rgba_height(bytes@)
                &&& td.pixels@ == rgba_pixels(bytes@)
                &&& td.wf()
            }),
            !rgba_decode_ok(bytes@) ==> r == Err::<TextureData, TextureError>(TextureError::Decode),
    {
        match decode_rgba(bytes) {
            Ok((width, height, pixels)) => TextureData::new(width, height, pixels),
            Err(_) => Err(TextureError::Decode),
        }
    }

    /// The 1 by 1 opaque-white fallback texture substituted for a missing
    /// material texture.
    pub fn fallback_white() -> (r: TextureData)
        ensures
            r.width == 1,
            r.height == 1,
            r.pixels@ == seq![255u8, 255u8, 255u8, 255u8],
            r.wf(),
    {
        let mut pixels: Vec<u8> = Vec::new();
        pixels.push(255);
        pixels.push(255);
        pixels.push(255);
        pixels.push(255);
        proof {
            assert(pixels@ =~= seq![255u8, 255u8, 255u8, 255u8]);
        }
        TextureData { width: 1, height: 1, pixels }
    }
}

} // verus!
