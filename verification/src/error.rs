use vstd::prelude::*;

verus! {

/// Everything that can go wrong during capture, conversion, encoding,
/// decoding or persistence.  Every failure is terminal for the single
/// invocation that raised it; callers surface these as strings.
#[derive(Clone, Copy, Debug, PartialEq, Eq, Structural)]
pub enum Error {
    /// Display enumeration returned no usable display.
    NoDisplayFound,
    /// The platform capture call itself errored.
    CaptureFailed,
    /// A requested sub-rectangle reaches past an edge of the frame.
    RegionOutOfBounds,
    /// A raw byte buffer cannot form a raster of the stated size.
    ImageConstructionFailed,
    /// The JPEG or PNG encoder rejected the raster.
    EncodingFailed,
    /// A base64 payload was malformed.
    DecodeFailed,
    /// A directory or file operation failed.
    IoFailed,
    /// The capability is not available on this platform.
    UnsupportedPlatform,
}

impl Error {
    /// The human-readable form in which this error reaches a caller.
    pub fn message(&self) -> (r: &'static str)
        ensures
            *self == Error::NoDisplayFound ==> r@ == "no usable display was found"@,
            *self == Error::CaptureFailed ==> r@ == "screen capture failed"@,
            *self == Error::RegionOutOfBounds ==> r@ == "requested region is out of bounds"@,
            *self == Error::ImageConstructionFailed ==> r@ == "raw buffer does not form a valid image"@,
            *self == Error::EncodingFailed ==> r@ == "image encoding failed"@,
            *self == Error::DecodeFailed ==> r@ == "base64 payload could not be decoded"@,
            *self == Error::IoFailed ==> r@ == "directory or file operation failed"@,
            *self == Error::UnsupportedPlatform ==> r@ == "not supported on this platform"@,
    {
        match self {
            Error::NoDisplayFound => "no usable display was found",
            Error::CaptureFailed => "screen capture failed",
            Error::RegionOutOfBounds => "requested region is out of bounds",
            Error::ImageConstructionFailed => "raw buffer does not form a valid image",
            Error::EncodingFailed => "image encoding failed",
            Error::DecodeFailed => "base64 payload could not be decoded",
            Error::IoFailed => "directory or file operation failed",
            Error::UnsupportedPlatform => "not supported on this platform",
        }
    }
}

} // verus!
