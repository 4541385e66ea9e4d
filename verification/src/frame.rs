//! Captured video frames.
//!
//! Pixel planes are reference-counted `bytes::Bytes` buffers so a frame can
//! be handed to several consumers without copying its pixels.

use std::time::Duration;

use bytes::Bytes;
use vstd::prelude::*;

verus! {

#[verifier::external_type_specification]
#[verifier::external_body]
pub struct ExBytes(Bytes);

/// The bytes held by a `Bytes` buffer.
pub uninterp spec fn bytes_contents(buffer: Bytes) -> Seq<u8>;

/// Length of a buffer.
///
/// Trusted: `Bytes::len`, which returns the number of bytes the buffer holds.
#[verifier::external_body]
pub(crate) fn bytes_len(buffer: &Bytes) -> (n: usize)
    ensures
        n == bytes_contents(*buffer).len(),
{
    buffer.len()
}

/// Another handle on the same bytes.
///
/// Trusted: `<Bytes as Clone>::clone`, which shares the buffer and so holds
/// the same bytes.
#[verifier::external_body]
pub(crate) fn bytes_share(buffer: &Bytes) -> (copy: Bytes)
    ensures
        bytes_contents(copy) == bytes_contents(*buffer),
{
    buffer.clone()
}

/// A buffer holding the bytes of `data`.
///
/// Trusted: `<Bytes as From<Vec<u8>>>::from`, which takes over the vector's
/// contents.
#[verifier::external_body]
pub(crate) fn bytes_from_vec(data: Vec<u8>) -> (buffer: Bytes)
    ensures
        bytes_contents(buffer) == data@,
{
    Bytes::from(data)
}

/// Layout of the pixel data of a frame.
#[derive(Clone, Copy, Debug, PartialEq, Eq)]
pub enum PixelFormat {
    /// 32-bit BGRA, one plane.
    Bgra8,
    /// 32-bit RGBA, one plane.
    Rgba8,
    /// Packed 4:2:2 YUYV, one plane.
    Yuyv,
    /// 4:2:0 NV12: a Y plane and an interleaved UV plane.
    Nv12,
    /// Motion-JPEG compressed frame, one plane.
    Mjpeg,
}

/// Integrity of a frame's pixels.
#[derive(Clone, Copy, Debug, PartialEq, Eq)]
pub enum FrameQuality {
    /// The frame was captured or decoded without loss.
    Intact,
}

/// One captured video frame.
#[derive(Debug)]
pub struct Frame {
    /// Width in pixels.
    pub width: u32,
    /// Height in pixels.
    pub height: u32,
    /// Row stride of the primary plane in bytes; `0` when rows are packed.
    pub stride: u32,
    /// Capture time relative to the start of the stream.
    pub timestamp: Duration,
    /// Layout of the pixel data.
    pub pixel_format: PixelFormat,
    /// Integrity of the pixels.
    pub quality: FrameQuality,
    /// First (or only) pixel plane.
    pub plane_primary: Bytes,
    /// Second pixel plane (UV for NV12), empty for single-plane formats.
    pub plane_secondary: Bytes,
}

/// The value of a frame: its metadata and the bytes of its planes.
pub struct FrameView {
    pub width: u32,
    pub height: u32,
    pub stride: u32,
    pub timestamp: Duration,
    pub pixel_format: PixelFormat,
    pub quality: FrameQuality,
    pub primary: Seq<u8>,
    pub secondary: Seq<u8>,
}

impl View for Frame {
    type V = FrameView;

    open spec fn view(&self) -> FrameView {
        FrameView {
            width: self.width,
            height: self.height,
            stride: self.stride,
            timestamp: self.timestamp,
            pixel_format: self.pixel_format,
            quality: self.quality,
            primary: bytes_contents(self.plane_primary),
            secondary: bytes_contents(self.plane_secondary),
        }
    }
}

impl Frame {
    /// Another frame with the same metadata that shares this frame's planes.
    pub fn share(&self) -> (copy: Frame)
        ensures
            copy@ == self@,
    {
        Frame {
            width: self.width,
            height: self.height,
            stride: self.stride,
            timestamp: self.timestamp,
            pixel_format: self.pixel_format,
            quality: self.quality,
            plane_primary: bytes_share(&self.plane_primary),
            plane_secondary: bytes_share(&self.plane_secondary),
        }
    }
}

impl Clone for Frame {
    fn clone(&self) -> (copy: Frame)
        ensures
            copy@ == self@,
    {
        self.share()
    }
}

} // verus!
