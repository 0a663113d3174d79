use screenshot_app::convert::{rgba_to_rgb, rgba_to_rgb_chunked};
use screenshot_app::error::Error;
use screenshot_app::raster::{crop, Frame, Region};

fn frame_2x2() -> Frame {
    let data: Vec<u8> = vec![1, 2, 3, 4, 5, 6, 7, 8, 9, 10, 11, 12, 13, 14, 15, 16];
    match Frame::new(2, 2, data) {
        Ok(f) => f,
        Err(_) => panic!("2x2 buffer must form a frame"),
    }
}

#[test]
fn frame_new_rejects_mismatched_buffer() {
    let r = Frame::new(2, 2, vec![0u8; 15]);
    assert!(matches!(r, Err(Error::ImageConstructionFailed)));
    let r = Frame::new(2, 2, vec![0u8; 17]);
    assert!(matches!(r, Err(Error::ImageConstructionFailed)));
    assert!(Frame::new(0, 0, Vec::new()).is_ok());
}

#[test]
fn crop_extracts_exact_subrectangle() {
    let f = frame_2x2();
    let r = crop(&f, &Region { x: 1, y: 1, width: 1, height: 1 }).unwrap();
    assert_eq!(r.width, 1);
    assert_eq!(r.height, 1);
    assert_eq!(r.data, vec![13, 14, 15, 16]);

    let top = crop(&f, &Region { x: 0, y: 0, width: 2, height: 1 }).unwrap();
    assert_eq!(top.data, vec![1, 2, 3, 4, 5, 6, 7, 8]);

    let right = crop(&f, &Region { x: 1, y: 0, width: 1, height: 2 }).unwrap();
    assert_eq!(right.data, vec![5, 6, 7, 8, 13, 14, 15, 16]);
}

#[test]
fn crop_of_whole_frame_is_identity() {
    let f = frame_2x2();
    let r = crop(&f, &Region { x: 0, y: 0, width: 2, height: 2 }).unwrap();
    assert_eq!(r.data, f.data);
    assert_eq!(r.data.len(), 2 * 2 * 4);
}

#[test]
fn crop_rejects_region_past_an_edge() {
    let f = frame_2x2();
    let r = crop(&f, &Region { x: 1, y: 0, width: 2, height: 1 });
    assert!(matches!(r, Err(Error::RegionOutOfBounds)));
    let r = crop(&f, &Region { x: 0, y: 2, width: 1, height: 1 });
    assert!(matches!(r, Err(Error::RegionOutOfBounds)));
    // an empty region at the very edge still fits
    let r = crop(&f, &Region { x: 2, y: 2, width: 0, height: 0 });
    assert!(r.is_ok());
    assert_eq!(r.unwrap().data.len(), 0);
}

#[test]
fn conversion_drops_exactly_the_alpha_byte() {
    let rgba: Vec<u8> = vec![10, 20, 30, 255, 40, 50, 60, 0];
    let rgb = rgba_to_rgb(&rgba);
    assert_eq!(rgb, vec![10, 20, 30, 40, 50, 60]);
}

#[test]
fn conversion_is_chunking_independent() {
    let mut rgba: Vec<u8> = Vec::new();
    for i in 0..(37 * 4) {
        rgba.push((i * 7 % 256) as u8);
    }
    let whole = rgba_to_rgb(&rgba);
    for chunk in [1usize, 2, 3, 5, 16, 37, 1000] {
        let chunked = rgba_to_rgb_chunked(&rgba, chunk);
        assert_eq!(chunked, whole);
    }
    assert_eq!(whole.len(), 37 * 3);
}

#[test]
fn error_messages_are_stable() {
    assert_eq!(Error::RegionOutOfBounds.message(), "requested region is out of bounds");
    assert_eq!(Error::DecodeFailed.message(), "base64 payload could not be decoded");
    assert_eq!(Error::NoDisplayFound.message(), "no usable display was found");
    assert_eq!(Error::CaptureFailed.message(), "screen capture failed");
    assert_eq!(Error::ImageConstructionFailed.message(), "raw buffer does not form a valid image");
    assert_eq!(Error::EncodingFailed.message(), "image encoding failed");
    assert_eq!(Error::IoFailed.message(), "directory or file operation failed");
    assert_eq!(Error::UnsupportedPlatform.message(), "not supported on this platform");
}
