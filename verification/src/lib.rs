//! Verified core of a screen-capture utility: bounds-checked region
//! cropping, RGBA to RGB channel conversion, JPEG/PNG encoding and
//! base64 transport encoding, and timestamped file naming.
//!
//! Platform work (display enumeration, the clipboard, the filesystem)
//! stays outside this crate; the functions here take plain frames and
//! regions and carry exact contracts for what they compute.

pub mod b64;
pub mod codec;
pub mod convert;
pub mod error;
pub mod raster;
pub mod screenshot;
pub mod timestamp;
