//! The software capture path's decisions.
//!
//! The software backend demuxes the device stream, feeds each demuxed
//! packet to a decoder, drains decoded frames, and resamples every decoded
//! frame through a persistent colorspace converter before returning it.
//! The demuxer, decoder and converter live in the codec library and do the
//! actual work; what belongs to the pipeline is the control around them,
//! and that is what [`SoftwareCapture`] holds: which call to make next,
//! how each answer is classified, that a "needs more input" answer from
//! the decoder triggers another demux pull rather than an error, that the
//! converter is sized exactly once from the decoder's negotiated geometry,
//! and that presentation timestamps pass through resampling unchanged.
//! The driver owning the codec-library objects performs each returned
//! [`CaptureAction`] and hands the answer back as the next event.

use vstd::prelude::*;
use crate::error::StreamError;
use crate::frame::{PixelFormat, RawFrame};

verus! {

/// What the demuxer said to a packet pull.
#[derive(Clone, Copy, Debug, PartialEq, Eq, Structural)]
pub enum DemuxEvent {
    /// A packet was read and is ready for the decoder.
    Packet,
    /// No packet is available yet; the caller should retry later.
    WouldBlock,
    /// The device stream is exhausted.
    Exhausted,
    /// The demuxer failed with the given code.
    Failed(i32),
}

/// What the decoder said to a frame drain.
#[derive(Clone, Copy, Debug, PartialEq, Eq, Structural)]
pub enum DecodeEvent {
    /// A decoded frame, in the decoder's negotiated geometry.
    Frame(RawFrame),
    /// The decoder needs another packet before it can produce a frame.
    NeedsInput,
    /// The decoder failed with the given code.
    Failed(i32),
}

/// What the software capture path does next.
#[derive(Clone, Copy, Debug, PartialEq, Eq, Structural)]
pub enum CaptureAction {
    /// Read the next packet from the device stream.
    PullPacket,
    /// Feed the packet just read to the decoder, then drain it.
    FeedDecoder,
    /// A frame is ready for the pipeline, already resampled.
    Deliver(RawFrame),
    /// This pull of the backend ends with the given result.
    Bail(StreamError),
}

/// A decoder's negotiated source geometry, as the converter was sized for.
#[derive(Clone, Copy, Debug, PartialEq, Eq, Structural)]
pub struct SourceGeometry {
    pub width: u32,
    pub height: u32,
}

/// The software capture path's state: the geometry and pixel format the
/// persistent converter resamples every frame to, and — once the first
/// frame has been decoded — the negotiated source geometry it was sized
/// from.
#[derive(Clone, Copy, Debug, PartialEq, Eq, Structural)]
pub struct SoftwareCapture {
    pub out_width: u32,
    pub out_height: u32,
    pub out_format: PixelFormat,
    /// The decoder's negotiated `(width, height)`, recorded when the
    /// converter was sized; `None` until the first frame decodes.
    pub negotiated: Option<SourceGeometry>,
}

impl SoftwareCapture {
    /// A software capture path that resamples to the given geometry.
    pub fn new(out_width: u32, out_height: u32, out_format: PixelFormat) -> (c: SoftwareCapture)
        ensures
            c == (SoftwareCapture { out_width, out_height, out_format, negotiated: None }),
    {
        SoftwareCapture { out_width, out_height, out_format, negotiated: None }
    }

    /// The resampled form of a decoded frame: the converter's target
    /// geometry and format, with the presentation timestamp and duration
    /// unchanged, and no hardware buffer (this is the copying path).
    pub open spec fn spec_converted(&self, f: RawFrame) -> RawFrame {
        RawFrame {
            width: self.out_width,
            height: self.out_height,
            format: self.out_format,
            aspect: f.aspect,
            pts: f.pts,
            duration: f.duration,
            hw_frames_ctx: None,
        }
    }

    /// Classifies the demuxer's answer to a packet pull: a packet goes to
    /// the decoder; "would block" and exhaustion end this pull as retry
    /// and end-of-stream; anything else is fatal with its code.
    pub fn on_demux(&mut self, ev: DemuxEvent) -> (a: CaptureAction)
        ensures
            *final(self) == *old(self),
            ev is Packet ==> a == CaptureAction::FeedDecoder,
            ev is WouldBlock ==> a == CaptureAction::Bail(StreamError::WouldRetry),
            ev is Exhausted ==> a == CaptureAction::Bail(StreamError::EndOfStream),
            ev matches DemuxEvent::Failed(code) ==> a == CaptureAction::Bail(
                StreamError::DeviceError(code),
            ),
    {
        match ev {
            DemuxEvent::Packet => CaptureAction::FeedDecoder,
            DemuxEvent::WouldBlock => CaptureAction::Bail(StreamError::WouldRetry),
            DemuxEvent::Exhausted => CaptureAction::Bail(StreamError::EndOfStream),
            DemuxEvent::Failed(code) => CaptureAction::Bail(StreamError::DeviceError(code)),
        }
    }

    /// Classifies the decoder's answer to a frame drain. A decoded frame
    /// sizes the converter once — on the first frame only — and is
    /// delivered resampled, its presentation timestamp untouched. "Needs
    /// more input" is not an error: it sends the driver back to the
    /// demuxer for another packet. Anything else is fatal with its code.
    pub fn on_decode(&mut self, ev: DecodeEvent) -> (a: CaptureAction)
        ensures
            ev matches DecodeEvent::Frame(f) ==> a == CaptureAction::Deliver(
                old(self).spec_converted(f),
            ) && *final(self) == (SoftwareCapture {
                negotiated: if old(self).negotiated is Some {
                    old(self).negotiated
                } else {
                    Some(SourceGeometry { width: f.width, height: f.height })
                },
                ..*old(self)
            }),
            ev is NeedsInput ==> a == CaptureAction::PullPacket && *final(self) == *old(self),
            ev matches DecodeEvent::Failed(code) ==> a == CaptureAction::Bail(
                StreamError::DeviceError(code),
            ) && *final(self) == *old(self),
    {
        match ev {
            DecodeEvent::Frame(f) => {
                if self.negotiated.is_none() {
                    self.negotiated = Some(SourceGeometry { width: f.width, height: f.height });
                }
                CaptureAction::Deliver(
                    RawFrame {
                        width: self.out_width,
                        height: self.out_height,
                        format: self.out_format,
                        aspect: f.aspect,
                        pts: f.pts,
                        duration: f.duration,
                        hw_frames_ctx: None,
                    },
                )
            },
            DecodeEvent::NeedsInput => CaptureAction::PullPacket,
            DecodeEvent::Failed(code) => CaptureAction::Bail(StreamError::DeviceError(code)),
        }
    }
}

} // verus!
