use vstd::prelude::*;

use crate::dimensions::Dimensions;

verus! {

/// Whether the decoder accepts the given file bytes. Built-in format
/// detection and decoding under the default limits depend on the byte
/// content alone, so success is a function of the bytes.
pub uninterp spec fn decode_succeeds(bytes: Seq<u8>) -> bool;

/// The RGBA8 pixel bytes that decoding a given image file yields. What those
/// pixels are is known only to the decoder, so the function is left
/// uninterpreted and every contract speaks of it by name.
pub uninterp spec fn decoded_rgba_of(bytes: Seq<u8>) -> Seq<u8>;

/// The pixel width the decoder reports for the given image file.
pub uninterp spec fn decoded_width_of(bytes: Seq<u8>) -> u32;

/// The pixel height the decoder reports for the given image file.
pub uninterp spec fn decoded_height_of(bytes: Seq<u8>) -> u32;

/// Decoding failed: the bytes are not an image in a supported format, or
/// the decoder returned a pixel buffer that does not match its own reported
/// dimensions.
#[derive(Clone, Copy, PartialEq, Eq, Structural, Debug)]
pub enum ImageDecodeError {
    DecodeFailed,
}

/// A decoded texture asset: RGBA8 pixel bytes plus the dimensions they fill,
/// four bytes per texel.
#[derive(Clone, PartialEq, Eq, Debug)]
pub struct DecodedRgbaImage {
    pub pixels: Vec<u8>,
    pub width: u32,
    pub height: u32,
}

/// Relies on image::load_from_memory and DynamicImage::to_rgba8: decodes the
/// bytes of an image file into an RGBA8 pixel buffer with the dimensions the
/// decoder reports; it returns a result exactly when the decoder accepts the
/// bytes, and everything returned depends on the input bytes alone.
#[verifier::external_body]
fn decode_rgba_bytes(bytes: &Vec<u8>) -> (r: Option<(Vec<u8>, u32, u32)>)
    ensures
        r is Some <==> decode_succeeds(bytes@),
        match r {
            Some(t) => {
                &&& t.0@ == decoded_rgba_of(bytes@)
                &&& t.1 == decoded_width_of(bytes@)
                &&& t.2 == decoded_height_of(bytes@)
            },
            None => true,
        },
{
    match image::load_from_memory(bytes.as_slice()) {
        Ok(decoded) => {
            let rgba = decoded.to_rgba8();
            let (width, height) = rgba.dimensions();
            Some((rgba.into_raw(), width, height))
        },
        Err(_) => None,
    }
}

impl DecodedRgbaImage {
    pub open spec fn wf(self) -> bool {
        self.pixels@.len() == 4 * (self.width as int) * (self.height as int)
    }

    /// Decodes a texture asset from the raw bytes of an image file. This
    /// succeeds exactly when the decoder accepts the bytes and its pixel
    /// buffer fills its reported dimensions at four bytes per texel; that
    /// length consistency is checked here rather than taken on faith from
    /// the decoder. On success the pixels and dimensions are exactly the
    /// decoder's output.
    pub fn new_from_bytes(bytes: &Vec<u8>) -> (r: Result<Self, ImageDecodeError>)
        ensures
            r is Ok <==> decode_succeeds(bytes@) && decoded_rgba_of(bytes@).len() == 4 * (
            decoded_width_of(bytes@) as int) * (decoded_height_of(bytes@) as int),
            match r {
                Ok(img) => {
                    &&& img.wf()
                    &&& img.pixels@ == decoded_rgba_of(bytes@)
                    &&& img.width == decoded_width_of(bytes@)
                    &&& img.height == decoded_height_of(bytes@)
                },
                Err(e) => e == ImageDecodeError::DecodeFailed,
            },
    {
        match decode_rgba_bytes(bytes) {
            Some((pixels, width, height)) => {
                proof {
                    assert(4 * (width as int) * (height as int) < u128::MAX) by (nonlinear_arith)
                        requires
                            width <= u32::MAX,
                            height <= u32::MAX,
                    ;
                }
                let expected: u128 = 4u128 * (width as u128) * (height as u128);
                if pixels.len() as u128 == expected {
                    Ok(DecodedRgbaImage { pixels, width, height })
                } else {
                    Err(ImageDecodeError::DecodeFailed)
                }
            },
            None => Err(ImageDecodeError::DecodeFailed),
        }
    }

    /// The image's extent, with no depth: a 2D source asset.
    pub fn dimensions(&self) -> (r: Dimensions)
        ensures
            r.width == self.width,
            r.height == self.height,
            r.depth == 0,
    {
        Dimensions::new(self.width, self.height, 0)
    }

    /// Size in bytes of the staging buffer that uploads these pixels.
    pub fn staging_buffer_size(&self) -> (r: u64)
        requires
            self.pixels@.len() <= u64::MAX,
        ensures
            r == self.pixels@.len(),
    {
        self.pixels.len() as u64
    }
}

} // verus!
