use vstd::prelude::*;

verus! {

/// Timestamp and frame-of-reference identifier embedded by value in every
/// message.
#[derive(Debug, Clone)]
pub struct Header {
    pub sec: i32,
    pub nanosec: u32,
    pub frame_id: String,
}

/// Raw pixel-buffer message: dimensions, a pixel-encoding tag, an endianness
/// flag, the row stride in bytes, and the pixel bytes themselves.
#[derive(Debug, Clone)]
pub struct RawImage {
    pub header: Header,
    pub height: u32,
    pub width: u32,
    pub encoding: String,
    pub is_bigendian: u8,
    pub step: u32,
    pub data: Vec<u8>,
}

/// Compressed container message: a format tag (informational only, the actual
/// container is sniffed from the bytes) and the opaque compressed buffer.
#[derive(Debug, Clone)]
pub struct CompressedImage {
    pub header: Header,
    pub format: String,
    pub data: Vec<u8>,
}

} // verus!
