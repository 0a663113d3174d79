use vstd::prelude::*;

use crate::b64::{b64_len, b64_of, b64_parse, encode_base64};
use crate::codec::{
    encode_frame_jpeg, encode_frame_png, jpeg_bytes_of, jpeg_parse, png_bytes_of, png_parse,
};
use crate::convert::rgb_of;
use crate::error::Error;
use crate::raster::{crop, crop_bytes, Frame, Region};
use crate::timestamp::{default_name, Timestamp};

verus! {

/// The JPEG transport payload of an RGBA raster: its alpha-stripped
/// pixels, JPEG-encoded at maximum quality, printed as base64.
pub open spec fn jpeg_payload_of(w: nat, h: nat, rgba: Seq<u8>) -> Seq<char> {
    b64_of(jpeg_bytes_of(w, h, rgb_of(rgba)))
}

/// Whether that payload's base64 print fits in usize; every buffer a
/// machine can hold does.
pub open spec fn jpeg_payload_fits(w: nat, h: nat, rgba: Seq<u8>) -> bool {
    b64_len(jpeg_bytes_of(w, h, rgb_of(rgba)).len()) <= usize::MAX
}

/// Whether the dimensions sit within the 16-bit ceiling the JPEG
/// encoder imposes.
pub open spec fn jpeg_dims_ok(w: nat, h: nat) -> bool {
    1 <= w <= 65535 && 1 <= h <= 65535
}

/// Encodes a full captured frame for transport: JPEG at maximum
/// quality, then base64.  Fails with `EncodingFailed` exactly when a
/// dimension is outside the JPEG ceiling or the payload would not fit
/// in memory.
pub fn frame_to_jpeg_base64(frame: &Frame) -> (r: Result<String, Error>)
    requires
        frame.wf(),
    ensures
        r is Ok <==> jpeg_dims_ok(frame.width as nat, frame.height as nat) && jpeg_payload_fits(
            frame.width as nat,
            frame.height as nat,
            frame.data@,
        ),
        r matches Ok(s) ==> s@ == jpeg_payload_of(
            frame.width as nat,
            frame.height as nat,
            frame.data@,
        ) && b64_parse(s@) == Some(
            jpeg_bytes_of(frame.width as nat, frame.height as nat, rgb_of(frame.data@)),
        ) && (jpeg_parse(
            jpeg_bytes_of(frame.width as nat, frame.height as nat, rgb_of(frame.data@)),
        ) matches Some(p) && p.0 == frame.width && p.1 == frame.height),
        r matches Err(e) ==> e == Error::EncodingFailed,
{
    let jpeg = encode_frame_jpeg(frame)?;
    match encode_base64(&jpeg) {
        Some(s) => Ok(s),
        None => Err(Error::EncodingFailed),
    }
}

/// Captures a sub-rectangle for transport: validates the region
/// against the frame, crops, strips alpha, encodes as JPEG at maximum
/// quality and prints base64.  A region reaching past an edge is
/// rejected with `RegionOutOfBounds` and produces nothing; a valid
/// region fails only with `EncodingFailed`, exactly when a cropped
/// dimension is outside the JPEG ceiling or the payload would not fit
/// in memory.
pub fn region_to_jpeg_base64(frame: &Frame, region: &Region) -> (r: Result<String, Error>)
    requires
        frame.wf(),
    ensures
        r matches Err(e) && e == Error::RegionOutOfBounds <==> !region.fits(
            frame.width as int,
            frame.height as int,
        ),
        r is Ok <==> region.fits(frame.width as int, frame.height as int) && jpeg_dims_ok(
            region.width as nat,
            region.height as nat,
        ) && jpeg_payload_fits(
            region.width as nat,
            region.height as nat,
            crop_bytes(frame.data@, frame.width as int, *region),
        ),
        r matches Ok(s) ==> s@ == jpeg_payload_of(
            region.width as nat,
            region.height as nat,
            crop_bytes(frame.data@, frame.width as int, *region),
        ) && (jpeg_parse(
            jpeg_bytes_of(
                region.width as nat,
                region.height as nat,
                rgb_of(crop_bytes(frame.data@, frame.width as int, *region)),
            ),
        ) matches Some(p) && p.0 == region.width && p.1 == region.height),
        r matches Err(e) ==> e == Error::RegionOutOfBounds || e == Error::EncodingFailed,
{
    let cropped = crop(frame, region)?;
    frame_to_jpeg_base64(&cropped)
}

/// Captures a sub-rectangle for the clipboard: validates the region,
/// crops, and encodes the RGBA raster as a PNG so the alpha channel
/// survives.  The PNG bytes decode back to the identical raster.
pub fn region_to_png(frame: &Frame, region: &Region) -> (r: Result<Vec<u8>, Error>)
    requires
        frame.wf(),
    ensures
        r matches Err(e) && e == Error::RegionOutOfBounds <==> !region.fits(
            frame.width as int,
            frame.height as int,
        ),
        r is Ok <==> region.fits(frame.width as int, frame.height as int) && region.width >= 1
            && region.height >= 1,
        r matches Ok(b) ==> b@ == png_bytes_of(
            region.width as nat,
            region.height as nat,
            crop_bytes(frame.data@, frame.width as int, *region),
        ) && png_parse(b@) == Some(
            (
                region.width as nat,
                region.height as nat,
                crop_bytes(frame.data@, frame.width as int, *region),
            ),
        ),
        r matches Err(e) ==> e == Error::RegionOutOfBounds || e == Error::EncodingFailed,
{
    let cropped = crop(frame, region)?;
    encode_frame_png(&cropped)
}

/// The file name a screenshot is saved under: the caller's name when
/// one was supplied, else the timestamped default.
pub fn screenshot_filename(provided: Option<String>, t: &Timestamp) -> (r: String)
    requires
        t.wf(),
    ensures
        provided matches Some(name) ==> r@ == name@,
        provided is None ==> r@ == default_name(*t),
{
    match provided {
        Some(name) => name,
        None => crate::timestamp::default_filename(t),
    }
}

/// Decodes the base64 payload handed back by a capture command into
/// the raw bytes to persist.  Fails with `DecodeFailed`, writing
/// nothing, exactly when the payload is malformed.
pub fn decode_screenshot_payload(payload: &str) -> (r: Result<Vec<u8>, Error>)
    ensures
        r is Ok <==> b64_parse(payload@) is Some,
        r matches Ok(v) ==> b64_parse(payload@) == Some(v@),
        r matches Err(e) ==> e == Error::DecodeFailed,
{
    crate::b64::decode_base64(payload)
}

} // verus!
