use screenshot_app::codec::{decode_jpeg, decode_png, encode_frame_jpeg, encode_frame_png};
use screenshot_app::error::Error;
use screenshot_app::raster::{Frame, Region};
use screenshot_app::screenshot::{
    decode_screenshot_payload, frame_to_jpeg_base64, region_to_jpeg_base64, region_to_png,
};

fn synthetic_frame(width: u32, height: u32) -> Frame {
    let n = (width as usize) * (height as usize) * 4;
    let mut data: Vec<u8> = Vec::with_capacity(n);
    for i in 0..n {
        data.push((i % 251) as u8);
    }
    Frame::new(width, height, data).unwrap()
}

#[test]
fn png_round_trip_is_lossless() {
    let f = synthetic_frame(13, 7);
    let png = encode_frame_png(&f).unwrap();
    let back = decode_png(&png).unwrap();
    assert_eq!(back.width, 13);
    assert_eq!(back.height, 7);
    assert_eq!(back.data, f.data);
}

#[test]
fn jpeg_round_trip_keeps_dimensions() {
    let f = synthetic_frame(16, 9);
    let jpeg = encode_frame_jpeg(&f).unwrap();
    let back = decode_jpeg(&jpeg).unwrap();
    assert_eq!(back.width, 16);
    assert_eq!(back.height, 9);
    assert_eq!(back.data.len(), 16 * 9 * 3);
}

#[test]
fn encoders_reject_zero_dimensions() {
    let empty = Frame::new(0, 5, Vec::new()).unwrap();
    assert!(matches!(encode_frame_png(&empty), Err(Error::EncodingFailed)));
    assert!(matches!(encode_frame_jpeg(&empty), Err(Error::EncodingFailed)));
}

#[test]
fn jpeg_encoder_rejects_oversized_dimension() {
    // 65536 exceeds the 16-bit JPEG ceiling; one pixel high keeps the
    // buffer small.
    let f = synthetic_frame(65536, 1);
    assert!(matches!(encode_frame_jpeg(&f), Err(Error::EncodingFailed)));
    // PNG has no such ceiling.
    assert!(encode_frame_png(&f).is_ok());
}

#[test]
fn capture_region_end_to_end() {
    // A 1920x1080 synthetic frame; the region (0, 0, 100, 100) must
    // come back as a JPEG payload decodable into a 100x100 image.
    let f = synthetic_frame(1920, 1080);
    let payload = region_to_jpeg_base64(&f, &Region { x: 0, y: 0, width: 100, height: 100 })
        .unwrap();
    let jpeg = decode_screenshot_payload(&payload).unwrap();
    let img = decode_jpeg(&jpeg).unwrap();
    assert_eq!(img.width, 100);
    assert_eq!(img.height, 100);
}

#[test]
fn capture_region_out_of_bounds_end_to_end() {
    // 1900 + 100 = 2000 > 1920: rejected, nothing encoded.
    let f = synthetic_frame(1920, 1080);
    let r = region_to_jpeg_base64(&f, &Region { x: 1900, y: 0, width: 100, height: 100 });
    assert!(matches!(r, Err(Error::RegionOutOfBounds)));
}

#[test]
fn full_frame_payload_decodes_back() {
    let f = synthetic_frame(32, 8);
    let payload = frame_to_jpeg_base64(&f).unwrap();
    let jpeg = decode_screenshot_payload(&payload).unwrap();
    let img = decode_jpeg(&jpeg).unwrap();
    assert_eq!(img.width, 32);
    assert_eq!(img.height, 8);
}

#[test]
fn clipboard_png_keeps_cropped_pixels() {
    let f = synthetic_frame(10, 10);
    let reg = Region { x: 2, y: 3, width: 4, height: 5 };
    let png = region_to_png(&f, &reg).unwrap();
    let back = decode_png(&png).unwrap();
    assert_eq!(back.width, 4);
    assert_eq!(back.height, 5);
    let cropped = screenshot_app::raster::crop(&f, &reg).unwrap();
    assert_eq!(back.data, cropped.data);
}

#[test]
fn png_payload_round_trips_through_base64() {
    // the same assertions a capture command's caller relies on: a
    // non-empty base64 string that decodes, and bytes that load as PNG
    let f = synthetic_frame(24, 18);
    let png = encode_frame_png(&f).unwrap();
    let payload = screenshot_app::b64::encode_base64(&png).unwrap();
    assert!(!payload.is_empty());
    let decoded = decode_screenshot_payload(&payload).unwrap();
    assert_eq!(decoded, png);
    let back = decode_png(&decoded).unwrap();
    assert_eq!(back.width, 24);
    assert_eq!(back.height, 18);
    assert_eq!(back.data, f.data);
}

#[test]
fn clipboard_png_rejects_out_of_bounds_region() {
    let f = synthetic_frame(10, 10);
    let r = region_to_png(&f, &Region { x: 8, y: 0, width: 4, height: 4 });
    assert!(matches!(r, Err(Error::RegionOutOfBounds)));
}
