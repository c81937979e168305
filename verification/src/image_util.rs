//! The image codec and transformer: decoding fetched bytes, resizing with
//! the nearest-neighbor filter, and encoding the result as PNG.
//!
//! Decoding, resizing and encoding are done by the `image` crate through
//! trusted wrappers. Each of those operations is a deterministic function of
//! its input, so their outcomes are modelled by two names: `decode_dims`,
//! the dimensions that decoding a byte string yields (if it decodes at all),
//! and `png_encoding`, the PNG bytes produced by decoding a byte string and
//! resizing it to given target dimensions. A decoded image keeps the bytes
//! it was decoded from, so every later stage can speak of them.
//!
//! Height policy: the pipeline keeps the original image height unchanged and
//! scales only the width, so a request for width `w` on an image of height
//! `h` yields a `w` by `h` image. This is one explicit choice among several
//! defensible ones (another is forcing a square); it is fixed here and
//! carried through every contract.

use vstd::prelude::*;
use crate::response::ErrorKind;

verus! {

#[verifier::external_type_specification]
#[verifier::external_body]
pub struct ExDynamicImage(image::DynamicImage);

/// The dimensions (width, height) that decoding `bytes` yields, or `None`
/// where the bytes are not a decodable image. Decoding detects the format
/// from the byte content alone, so this is a function of the bytes.
pub uninterp spec fn decode_dims(bytes: Seq<u8>) -> Option<(u32, u32)>;

/// The PNG encoding of the image obtained by decoding `bytes` and resizing
/// it to `width` by `height` with the nearest-neighbor filter. Decode,
/// resize and PNG encode are each deterministic, so the result is a function
/// of these three arguments.
pub uninterp spec fn png_encoding(bytes: Seq<u8>, width: u32, height: u32) -> Seq<u8>;

/// `bytes` decode to an image the pipeline will work on: decoding succeeds
/// and reports positive dimensions.
pub open spec fn decodable(bytes: Seq<u8>) -> bool {
    decode_dims(bytes) matches Some(d) && d.0 > 0 && d.1 > 0
}

/// The output of the whole transform stage on `bytes` for requested width
/// `width`: the height kept is the decoded image's own.
pub open spec fn transformed_png(bytes: Seq<u8>, width: u32) -> Seq<u8> {
    png_encoding(bytes, width, decode_dims(bytes)->Some_0.1)
}

/// An image of these dimensions is comfortably within the decoder's default
/// allocation limit (512 MiB): at most 8 bytes per pixel in the widest pixel
/// format the decoders produce, so 4 Mi pixels stay below 32 MiB. Within
/// this bound a PNG the pipeline encodes is guaranteed to decode back.
pub open spec fn fits_decode_limits(width: u32, height: u32) -> bool {
    width as int * height as int <= 4194304
}

/// A decoded pixel buffer, together with the dimensions it reports and the
/// bytes it was decoded from.
pub struct DecodedImage {
    inner: image::DynamicImage,
    width: u32,
    height: u32,
    src: Vec<u8>,
}

impl DecodedImage {
    /// The bytes this image was decoded from.
    pub closed spec fn src(self) -> Seq<u8> {
        self.src@
    }

    pub closed spec fn spec_width(self) -> u32 {
        self.width
    }

    pub closed spec fn spec_height(self) -> u32 {
        self.height
    }

    /// The image is the decode of its source bytes and has positive
    /// dimensions.
    pub open spec fn wf(self) -> bool {
        &&& decode_dims(self.src()) == Some((self.spec_width(), self.spec_height()))
        &&& self.spec_width() > 0
        &&& self.spec_height() > 0
    }

    pub fn width(&self) -> (w: u32)
        ensures
            w == self.spec_width(),
    {
        self.width
    }

    pub fn height(&self) -> (h: u32)
        ensures
            h == self.spec_height(),
    {
        self.height
    }
}

/// A resized pixel buffer, with the source bytes of the decode it came from
/// and the target dimensions it was resized to.
pub struct TransformedImage {
    inner: image::DynamicImage,
    width: u32,
    height: u32,
    src: Vec<u8>,
}

impl TransformedImage {
    /// The bytes the original image was decoded from.
    pub closed spec fn src(self) -> Seq<u8> {
        self.src@
    }

    pub closed spec fn spec_width(self) -> u32 {
        self.width
    }

    pub closed spec fn spec_height(self) -> u32 {
        self.height
    }

    pub fn width(&self) -> (w: u32)
        ensures
            w == self.spec_width(),
    {
        self.width
    }

    pub fn height(&self) -> (h: u32)
        ensures
            h == self.spec_height(),
    {
        self.height
    }
}

/// Relies on `image::io::Reader::with_guessed_format` and `decode`: the
/// format is detected from the byte content alone and decoding is a
/// deterministic function of the bytes; the returned image reports its
/// width and height.
#[verifier::external_body]
fn decode_bytes(bytes: Vec<u8>) -> (r: Option<DecodedImage>)
    ensures
        r is Some <==> decode_dims(bytes@) is Some,
        r matches Some(img) ==> img.src() == bytes@ && decode_dims(bytes@) == Some(
            (img.spec_width(), img.spec_height()),
        ),
{
    let reader = image::io::Reader::new(std::io::Cursor::new(bytes.as_slice()))
        .with_guessed_format()
        .ok()?;
    let inner = reader.decode().ok()?;
    let width = inner.width();
    let height = inner.height();
    Some(DecodedImage { inner, width, height, src: bytes })
}

/// Relies on `image::DynamicImage::resize_exact` with the nearest-neighbor
/// filter: the result has exactly the requested dimensions and is a
/// deterministic function of the input image and the targets.
#[verifier::external_body]
fn resize_nearest(img: DecodedImage, width: u32, height: u32) -> (r: TransformedImage)
    requires
        width > 0,
        height > 0,
    ensures
        r.src() == img.src(),
        r.spec_width() == width,
        r.spec_height() == height,
{
    let inner = img.inner.resize_exact(width, height, image::imageops::FilterType::Nearest);
    TransformedImage { inner, width, height, src: img.src }
}

/// Relies on `image::DynamicImage::write_to` with PNG output: encoding an
/// in-memory buffer into an in-memory buffer is deterministic, so the bytes
/// are a function of the decode source and the resize targets alone.
///
/// Encoding always succeeds here: every image the png and jpeg decoders
/// produce is in an integer pixel format the PNG encoder accepts, resizing
/// preserves the pixel format, and writing to an in-memory cursor cannot
/// fail with an I/O error. The PNG stores its dimensions exactly, so within
/// the decoder's default allocation limit the output decodes back to them.
#[verifier::external_body]
pub fn write_image(image: &TransformedImage) -> (r: Result<Vec<u8>, ()>)
    ensures
        r is Ok,
        r matches Ok(v) ==> v@ == png_encoding(image.src(), image.spec_width(), image.spec_height())
            && (fits_decode_limits(image.spec_width(), image.spec_height()) ==> decode_dims(v@)
            == Some((image.spec_width(), image.spec_height()))),
{
    let mut cursor = std::io::Cursor::new(Vec::new());
    match image.inner.write_to(&mut cursor, image::ImageOutputFormat::Png) {
        Ok(()) => Ok(cursor.into_inner()),
        Err(_) => Err(()),
    }
}

/// Decode fetched bytes into a pixel buffer. Returns `None` exactly where
/// the bytes are not a decodable image with positive dimensions; an image
/// reporting a zero dimension is treated as corrupt.
pub fn read_image(bytes: Vec<u8>) -> (r: Option<DecodedImage>)
    ensures
        r is Some <==> decodable(bytes@),
        r matches Some(img) ==> img.wf() && img.src() == bytes@,
{
    match decode_bytes(bytes) {
        None => None,
        Some(img) => {
            if img.width() > 0 && img.height() > 0 {
                Some(img)
            } else {
                None
            }
        },
    }
}

/// The whole transform stage: decode the fetched bytes, resize to the
/// requested width keeping the original height, and encode as PNG.
///
/// Succeeds exactly where the bytes decode, failing with
/// `UnsupportedOrCorruptImage` otherwise: encoding a decoded-and-resized
/// image cannot fail (see `write_image`). Within the decoder's allocation
/// limit, the output decodes back to the requested width at the original
/// height.
pub fn transform_image(bytes: Vec<u8>, width: u32) -> (r: Result<Vec<u8>, ErrorKind>)
    requires
        width > 0,
    ensures
        r is Ok <==> decodable(bytes@),
        r matches Ok(out) ==> out@ == transformed_png(bytes@, width) && (fits_decode_limits(
            width,
            decode_dims(bytes@)->Some_0.1,
        ) ==> decode_dims(out@) == Some((width, decode_dims(bytes@)->Some_0.1))),
        r matches Err(e) ==> e == ErrorKind::UnsupportedOrCorruptImage,
{
    match read_image(bytes) {
        None => Err(ErrorKind::UnsupportedOrCorruptImage),
        Some(img) => {
            let height = img.height();
            let resized = resize_nearest(img, width, height);
            match write_image(&resized) {
                Ok(out) => Ok(out),
                // write_image's contract owes success on every reachable
                // TransformedImage.
                Err(()) => vstd::pervasive::unreached(),
            }
        },
    }
}

} // verus!
