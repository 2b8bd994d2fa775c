//! Raw video frames as the pipeline reads them.

use vstd::prelude::*;
use crate::rational::Rational;

verus! {

/// A pixel format, by its numeric code in the codec library's enumeration.
/// The pipeline never interprets the code; it only copies it from the
/// capture backend to the encoder.
#[derive(Clone, Copy, Debug, PartialEq, Eq, Structural)]
pub struct PixelFormat(pub i32);

/// What the pipeline reads of a raw video frame: geometry, pixel format,
/// presentation timestamp and duration, and, on the zero-copy path, the
/// identifier of the shared hardware frame buffer the pixels live in.
///
/// The pixel data itself stays with the capture device and the codec
/// library; the pipeline only routes it.
#[derive(Clone, Copy, Debug, PartialEq, Eq, Structural)]
pub struct RawFrame {
    pub width: u32,
    pub height: u32,
    pub format: PixelFormat,
    pub aspect: Rational,
    /// Presentation timestamp, in the capture device's time base.
    pub pts: i64,
    /// The frame's own duration, in the capture device's time base.
    pub duration: i64,
    /// On the hardware path, the shared buffer this frame resides in
    /// (an index into the [`crate::hwbuf::HwBufferPool`]); `None` on the
    /// software path.
    pub hw_frames_ctx: Option<usize>,
}

impl RawFrame {
    /// An empty frame, as capture backends expect before filling one:
    /// zero geometry, unknown format, no hardware buffer.
    pub fn empty() -> (f: RawFrame)
        ensures
            f.width == 0,
            f.height == 0,
            f.format == (PixelFormat(-1i32)),
            f.aspect == (Rational { num: 0i32, den: 1i32 }),
            f.pts == 0,
            f.duration == 0,
            f.hw_frames_ctx is None,
    {
        RawFrame {
            width: 0,
            height: 0,
            format: PixelFormat(-1),
            aspect: Rational { num: 0, den: 1 },
            pts: 0,
            duration: 0,
            hw_frames_ctx: None,
        }
    }
}

} // verus!
