use vstd::prelude::*;

use crate::convert::{lemma_rgb_of_len, rgb_of, rgba_to_rgb};
use crate::error::Error;
use crate::raster::{Frame, RgbRaster};

verus! {

/// What the JPEG encoder at maximum quality prints for an RGB raster
/// of the given dimensions.
pub uninterp spec fn jpeg_bytes_of(w: nat, h: nat, rgb: Seq<u8>) -> Seq<u8>;

/// What JPEG decoding yields for a byte buffer: the dimensions and an
/// RGB raster, or nothing when the bytes are not a JPEG image.
pub uninterp spec fn jpeg_parse(b: Seq<u8>) -> Option<(nat, nat, Seq<u8>)>;

/// What the PNG encoder prints for an RGBA raster of the given
/// dimensions.
pub uninterp spec fn png_bytes_of(w: nat, h: nat, rgba: Seq<u8>) -> Seq<u8>;

/// What PNG decoding yields for a byte buffer: the dimensions and an
/// RGBA raster, or nothing when the bytes are not a PNG image.
pub uninterp spec fn png_parse(b: Seq<u8>) -> Option<(nat, nat, Seq<u8>)>;

#[verifier::external_type_specification]
#[verifier::external_body]
pub struct ExImageError(image::ImageError);

/// Relies on image::codecs::jpeg::JpegEncoder::encode at quality 100:
/// the bytes are a function of the dimensions and pixels alone, the
/// encoder accepts exactly dimensions from 1 to 65535 (the 16-bit JPEG
/// ceiling), and the crate's own JPEG decoder reads the dimensions and
/// an RGB raster of the same pixel count back out of the bytes.  The
/// encoder panics on a buffer whose length does not match the
/// dimensions, so such calls are excluded.
#[verifier::external_body]
fn jpeg_encode_raw(width: u32, height: u32, rgb: &Vec<u8>) -> (r: Result<
    Vec<u8>,
    image::ImageError,
>)
    requires
        rgb@.len() == 3 * width * height,
    ensures
        r is Ok <==> (1 <= width <= 65535 && 1 <= height <= 65535),
        r matches Ok(b) ==> b@ == jpeg_bytes_of(width as nat, height as nat, rgb@) && (jpeg_parse(
            b@,
        ) matches Some(p) && p.0 == width && p.1 == height && p.2.len() == rgb@.len()),
{
    let mut out: Vec<u8> = Vec::new();
    let res = {
        let mut enc = image::codecs::jpeg::JpegEncoder::new_with_quality(&mut out, 100);
        enc.encode(rgb.as_slice(), width, height, image::ExtendedColorType::Rgb8)
    };
    match res {
        Ok(()) => Ok(out),
        Err(e) => Err(e),
    }
}

/// Relies on image::codecs::png::PngEncoder::write_image: the bytes
/// are a function of the dimensions and pixels alone, the encoder
/// rejects exactly a zero width or height, and PNG is lossless, so the
/// crate's own PNG decoder reads the dimensions and the identical RGBA
/// raster back out of the bytes.  The encoder panics on a buffer whose
/// length does not match the dimensions, so such calls are excluded.
#[verifier::external_body]
fn png_encode_raw(width: u32, height: u32, rgba: &Vec<u8>) -> (r: Result<
    Vec<u8>,
    image::ImageError,
>)
    requires
        rgba@.len() == 4 * width * height,
    ensures
        r is Ok <==> (1 <= width && 1 <= height),
        r matches Ok(b) ==> b@ == png_bytes_of(width as nat, height as nat, rgba@) && png_parse(b@)
            == Some((width as nat, height as nat, rgba@)),
{
    let mut out: Vec<u8> = Vec::new();
    let res = {
        let enc = image::codecs::png::PngEncoder::new(&mut out);
        image::ImageEncoder::write_image(
            enc,
            rgba.as_slice(),
            width,
            height,
            image::ExtendedColorType::Rgba8,
        )
    };
    match res {
        Ok(()) => Ok(out),
        Err(e) => Err(e),
    }
}

/// Relies on image::ImageReader::decode for PNG, with the resource
/// limits lifted, together with DynamicImage::into_rgba8: success and
/// the raster read back are a function of the bytes alone.
#[verifier::external_body]
fn png_decode_raw(bytes: &Vec<u8>) -> (r: Result<(u32, u32, Vec<u8>), image::ImageError>)
    ensures
        r is Ok <==> png_parse(bytes@) is Some,
        r matches Ok(t) ==> png_parse(bytes@) == Some(((t.0 as nat), (t.1 as nat), t.2@)) && t.2@
            .len() == 4 * t.0 * t.1,
{
    let cursor = std::io::Cursor::new(bytes.as_slice());
    let mut reader = image::ImageReader::with_format(cursor, image::ImageFormat::Png);
    reader.no_limits();
    let buf = reader.decode()?.into_rgba8();
    let (w, h) = (buf.width(), buf.height());
    Ok((w, h, buf.into_raw()))
}

/// Relies on image::ImageReader::decode for JPEG, with the resource
/// limits lifted, together with DynamicImage::into_rgb8: success and
/// the raster read back are a function of the bytes alone.
#[verifier::external_body]
fn jpeg_decode_raw(bytes: &Vec<u8>) -> (r: Result<(u32, u32, Vec<u8>), image::ImageError>)
    ensures
        r is Ok <==> jpeg_parse(bytes@) is Some,
        r matches Ok(t) ==> jpeg_parse(bytes@) == Some(((t.0 as nat), (t.1 as nat), t.2@)) && t.2@
            .len() == 3 * t.0 * t.1,
{
    let cursor = std::io::Cursor::new(bytes.as_slice());
    let mut reader = image::ImageReader::with_format(cursor, image::ImageFormat::Jpeg);
    reader.no_limits();
    let buf = reader.decode()?.into_rgb8();
    let (w, h) = (buf.width(), buf.height());
    Ok((w, h, buf.into_raw()))
}

/// Encodes an RGBA frame as a JPEG at maximum quality: the alpha byte
/// of every pixel is dropped first, and the resulting bytes decode
/// back to an image of the same dimensions.  Fails with
/// `EncodingFailed` exactly when a dimension is zero or above the
/// 16-bit JPEG ceiling of 65535.
pub fn encode_frame_jpeg(frame: &Frame) -> (r: Result<Vec<u8>, Error>)
    requires
        frame.wf(),
    ensures
        r is Ok <==> (1 <= frame.width <= 65535 && 1 <= frame.height <= 65535),
        r matches Ok(b) ==> b@ == jpeg_bytes_of(
            frame.width as nat,
            frame.height as nat,
            rgb_of(frame.data@),
        ) && (jpeg_parse(b@) matches Some(p) && p.0 == frame.width && p.1 == frame.height
            && p.2.len() == 3 * frame.width * frame.height),
        r matches Err(e) ==> e == Error::EncodingFailed,
{
    let rgb = rgba_to_rgb(&frame.data);
    proof {
        lemma_rgb_of_len(frame.data@);
        let w = frame.width as int;
        let h = frame.height as int;
        assert(4 * w * h == 4 * (w * h) && 3 * w * h == 3 * (w * h)) by (nonlinear_arith);
        assert((4 * (w * h)) / 4 == w * h);
        assert(rgb@.len() == 3 * w * h);
    }
    match jpeg_encode_raw(frame.width, frame.height, &rgb) {
        Ok(b) => Ok(b),
        Err(_) => Err(Error::EncodingFailed),
    }
}

/// Encodes an RGBA frame as a PNG, retaining the alpha channel: the
/// resulting bytes decode back to the identical raster.  Fails with
/// `EncodingFailed` exactly when a dimension is zero.
pub fn encode_frame_png(frame: &Frame) -> (r: Result<Vec<u8>, Error>)
    requires
        frame.wf(),
    ensures
        r is Ok <==> (1 <= frame.width && 1 <= frame.height),
        r matches Ok(b) ==> b@ == png_bytes_of(frame.width as nat, frame.height as nat, frame.data@)
            && png_parse(b@) == Some((frame.width as nat, frame.height as nat, frame.data@)),
        r matches Err(e) ==> e == Error::EncodingFailed,
{
    match png_encode_raw(frame.width, frame.height, &frame.data) {
        Ok(b) => Ok(b),
        Err(_) => Err(Error::EncodingFailed),
    }
}

/// Decodes a PNG byte buffer back into an RGBA frame; fails with
/// `DecodeFailed` exactly when the bytes are not a PNG image.
pub fn decode_png(bytes: &Vec<u8>) -> (r: Result<Frame, Error>)
    ensures
        r is Ok <==> png_parse(bytes@) is Some,
        r matches Ok(f) ==> f.wf() && png_parse(bytes@) == Some(
            ((f.width as nat), (f.height as nat), f.data@),
        ),
        r matches Err(e) ==> e == Error::DecodeFailed,
{
    match png_decode_raw(bytes) {
        Ok(t) => Ok(Frame { width: t.0, height: t.1, data: t.2 }),
        Err(_) => Err(Error::DecodeFailed),
    }
}

/// Decodes a JPEG byte buffer back into an RGB raster; fails with
/// `DecodeFailed` exactly when the bytes are not a JPEG image.
pub fn decode_jpeg(bytes: &Vec<u8>) -> (r: Result<RgbRaster, Error>)
    ensures
        r is Ok <==> jpeg_parse(bytes@) is Some,
        r matches Ok(img) ==> img.wf() && jpeg_parse(bytes@) == Some(
            ((img.width as nat), (img.height as nat), img.data@),
        ),
        r matches Err(e) ==> e == Error::DecodeFailed,
{
    match jpeg_decode_raw(bytes) {
        Ok(t) => Ok(RgbRaster { width: t.0, height: t.1, data: t.2 }),
        Err(_) => Err(Error::DecodeFailed),
    }
}

} // verus!
