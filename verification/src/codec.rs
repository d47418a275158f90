//! Image codec: decode, resize and encode, through the `image` crate.
//!
//! The pixel data itself is opaque to verification; an [`ImageBuffer`] pairs
//! it with its dimensions as plain values, and the trusted wrappers here keep
//! those fields equal to the pixel buffer's real dimensions. Everything the
//! resize decision reads is a plain value.

use vstd::prelude::*;

verus! {

/// The `image` crate's decoded image, left opaque: it is only carried between
/// the codec calls, never inspected.
#[verifier::external_type_specification]
#[verifier::external_body]
pub struct ExDynamicImage(image::DynamicImage);

/// The `image` crate's error, left opaque: it is only carried outward inside
/// the library's own outcome values.
#[verifier::external_type_specification]
#[verifier::external_body]
pub struct ExImageError(image::ImageError);

/// Container format of a candidate image, derived from its file extension,
/// so that a resized image is written back in its original format.
#[derive(Clone, Copy, Debug, PartialEq, Eq, Structural)]
pub enum ImgFormat {
    /// Portable Network Graphics, extension `png`.
    Png,
    /// JPEG, extensions `jpg` and `jpeg`.
    Jpeg,
}

/// Names what `image::load_from_memory` yields on `bytes`: the decoded
/// dimensions when the bytes parse as an image, `None` when they are
/// rejected. Decoding is a function of the bytes alone.
pub uninterp spec fn decoded_dims(bytes: Seq<u8>) -> Option<(u32, u32)>;

/// Names the dimensions the `image` crate's aspect-preserving `resize` picks
/// when fitting a `w x h` image within `tw x th`.
pub uninterp spec fn fit_dims(w: u32, h: u32, tw: u32, th: u32) -> (u32, u32);

/// The dimensions a container format can hold: PNG takes any positive
/// dimensions, while JPEG stores them as 16-bit values and so takes only
/// dimensions up to 65535. Encoding succeeds exactly on these.
pub open spec fn encodable(format: ImgFormat, w: u32, h: u32) -> bool {
    match format {
        ImgFormat::Png => w >= 1 && h >= 1,
        ImgFormat::Jpeg => 1 <= w <= 65535 && 1 <= h <= 65535,
    }
}

/// Largest pixel count for which re-decoding encoded output is promised: far
/// inside the decoder's default allocation limit of 512 MiB, even at the
/// widest pixel layout the codec produces (8 bytes per pixel).
pub const REDECODE_PIXEL_BOUND: u64 = 16777216;

/// A decoded image: its pixel data, opaque to verification, together with
/// its dimensions as plain values. Only the trusted codec wrappers build one,
/// and they keep `width`/`height` equal to the pixel buffer's dimensions.
pub struct ImageBuffer {
    w: u32,
    h: u32,
    pixels: image::DynamicImage,
}

impl ImageBuffer {
    /// Width of the decoded image in pixels.
    pub closed spec fn width(&self) -> u32 {
        self.w
    }

    /// Height of the decoded image in pixels.
    pub closed spec fn height(&self) -> u32 {
        self.h
    }

    /// Width in pixels.
    pub fn get_width(&self) -> (r: u32)
        ensures
            r == self.width(),
    {
        self.w
    }

    /// Height in pixels.
    pub fn get_height(&self) -> (r: u32)
        ensures
            r == self.height(),
    {
        self.h
    }

    /// Relies on `image::load_from_memory`: decodes the bytes, guessing the
    /// format from their content; success and the decoded dimensions are a
    /// function of the bytes alone. Both decoders this build enables (PNG and
    /// JPEG) reject an image that declares a zero dimension, so a decoded
    /// image is at least one pixel wide and high.
    #[verifier::external_body]
    pub fn decode(bytes: &[u8]) -> (r: Result<ImageBuffer, image::ImageError>)
        ensures
            r is Ok <==> decoded_dims(bytes@) is Some,
            r matches Ok(img) ==> Some((img.width(), img.height())) == decoded_dims(bytes@),
            r matches Ok(img) ==> img.width() >= 1 && img.height() >= 1,
    {
        match image::load_from_memory(bytes) {
            Ok(pixels) => Ok(ImageBuffer { w: pixels.width(), h: pixels.height(), pixels }),
            Err(e) => Err(e),
        }
    }

    /// Relies on `DynamicImage::resize`: scales to the largest size that
    /// fits within `tw x th` while preserving the aspect ratio, resampling
    /// with the Lanczos3 filter. The resulting dimensions are a function of
    /// the four dimensions alone, each at least 1 and at most its target.
    #[verifier::external_body]
    pub fn resize_to_fit(&self, tw: u32, th: u32) -> (r: ImageBuffer)
        requires
            tw > 0,
            th > 0,
        ensures
            (r.width(), r.height()) == fit_dims(self.width(), self.height(), tw, th),
            1 <= r.width() <= tw,
            1 <= r.height() <= th,
    {
        let pixels = self.pixels.resize(tw, th, image::imageops::FilterType::Lanczos3);
        ImageBuffer { w: pixels.width(), h: pixels.height(), pixels }
    }

    /// Relies on `DynamicImage::resize_exact`: scales to exactly `tw x th`,
    /// ignoring the aspect ratio, resampling with the Lanczos3 filter.
    #[verifier::external_body]
    pub fn resize_stretch(&self, tw: u32, th: u32) -> (r: ImageBuffer)
        requires
            tw > 0,
            th > 0,
        ensures
            r.width() == tw,
            r.height() == th,
    {
        let pixels = self.pixels.resize_exact(tw, th, image::imageops::FilterType::Lanczos3);
        ImageBuffer { w: pixels.width(), h: pixels.height(), pixels }
    }

    /// Relies on `DynamicImage::write_to`, writing to an in-memory cursor
    /// that cannot fail. The JPEG path first converts any pixel layout to
    /// eight-bit luma or RGB and then rejects exactly the dimensions JPEG
    /// cannot store; the PNG path takes every pixel layout the PNG and JPEG
    /// decoders produce (the only sources of an [`ImageBuffer`]) and rejects
    /// exactly zero dimensions. So encoding succeeds if and only if the
    /// dimensions are [`encodable`] in the format. Both encoders write the
    /// image's dimensions into the container and the matching decoder hands
    /// them back, so up to [`REDECODE_PIXEL_BOUND`] pixels — inside the
    /// decoder's default allocation limit — the produced bytes decode to the
    /// encoded dimensions.
    #[verifier::external_body]
    pub fn encode(&self, format: &ImgFormat) -> (r: Result<Vec<u8>, image::ImageError>)
        ensures
            r is Ok <==> encodable(*format, self.width(), self.height()),
            r matches Ok(b) ==> (self.width() as int * self.height() as int
                <= REDECODE_PIXEL_BOUND as int ==> decoded_dims(b@) == Some(
                (self.width(), self.height()),
            )),
    {
        let fmt = match format {
            ImgFormat::Png => image::ImageFormat::Png,
            ImgFormat::Jpeg => image::ImageFormat::Jpeg,
        };
        let mut cursor = std::io::Cursor::new(Vec::new());
        match self.pixels.write_to(&mut cursor, fmt) {
            Ok(()) => Ok(cursor.into_inner()),
            Err(e) => Err(e),
        }
    }
}

} // verus!
