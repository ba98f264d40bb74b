//! The plain data carried through the pipeline: compressed frames tagged with
//! sequence numbers, and the output configuration captured from the first
//! acquired frame.
use vstd::prelude::*;

verus! {

/// A compressed still image together with its position in the capture stream.
/// Sequence numbers are assigned by the capture session and increase by one
/// per stored frame.
#[derive(Debug)]
pub struct CompressedFrame {
    /// The compressed image bytes.
    pub data: Vec<u8>,
    /// The frame's position in the capture stream.
    pub seq: u64,
}

impl View for CompressedFrame {
    type V = (Seq<u8>, u64);

    open spec fn view(&self) -> (Seq<u8>, u64) {
        (self.data@, self.seq)
    }
}

/// The mathematical image of a sequence of frames: each frame as its bytes
/// paired with its sequence number.
pub open spec fn frames_view(v: Seq<CompressedFrame>) -> Seq<(Seq<u8>, u64)> {
    v.map_values(|f: CompressedFrame| f@)
}

/// The pixel layout of raw frames handed to the video encoder.
#[derive(Clone, Copy, Debug, PartialEq, Eq, Structural)]
pub enum RawPixelFormat {
    /// 8-bit blue, green, red, alpha, in that byte order.
    Bgra,
}

impl RawPixelFormat {
    /// How many bytes one pixel occupies.
    pub open spec fn spec_bytes_per_pixel(self) -> u64 {
        match self {
            RawPixelFormat::Bgra => 4,
        }
    }

    /// How many bytes one pixel occupies.
    pub fn bytes_per_pixel(self) -> (r: u64)
        ensures
            r == self.spec_bytes_per_pixel(),
    {
        match self {
            RawPixelFormat::Bgra => 4,
        }
    }
}

/// The encoder settings captured from the first successfully acquired frame
/// and treated as immutable for the rest of the session.
#[derive(Clone, Copy, Debug, PartialEq, Eq, Structural)]
pub struct OutputConfig {
    /// Pixel layout of decoded frames.
    pub pixel_format: RawPixelFormat,
    /// Target frames per second of the produced video.
    pub fps: u32,
    /// Frame width in pixels.
    pub width: u32,
    /// Frame height in pixels.
    pub height: u32,
}

} // verus!
