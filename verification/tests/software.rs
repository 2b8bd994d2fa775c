//! The software capture path's decisions.

use bitwhip::{CaptureAction, DecodeEvent, DemuxEvent, PixelFormat, RawFrame, SoftwareCapture, StreamError};
use bitwhip::capture::SourceGeometry;
use bitwhip::Rational;

fn decoded(width: u32, height: u32, pts: i64) -> RawFrame {
    RawFrame {
        width,
        height,
        format: PixelFormat(23),
        aspect: Rational::new(1, 1),
        pts,
        duration: 1,
        hw_frames_ctx: None,
    }
}

#[test]
fn demux_answers_are_classified() {
    let mut c = SoftwareCapture::new(1280, 720, PixelFormat(0));
    assert_eq!(c.on_demux(DemuxEvent::Packet), CaptureAction::FeedDecoder);
    assert_eq!(
        c.on_demux(DemuxEvent::WouldBlock),
        CaptureAction::Bail(StreamError::WouldRetry)
    );
    assert_eq!(
        c.on_demux(DemuxEvent::Exhausted),
        CaptureAction::Bail(StreamError::EndOfStream)
    );
    // any other device error is fatal, with its code
    assert_eq!(
        c.on_demux(DemuxEvent::Failed(-2)),
        CaptureAction::Bail(StreamError::DeviceError(-2))
    );
}

#[test]
fn needs_more_input_pulls_another_packet() {
    // a "needs more input" answer from the decoder is not an error
    let mut c = SoftwareCapture::new(1280, 720, PixelFormat(0));
    assert_eq!(c.on_decode(DecodeEvent::NeedsInput), CaptureAction::PullPacket);
    assert_eq!(
        c.on_decode(DecodeEvent::Failed(-9)),
        CaptureAction::Bail(StreamError::DeviceError(-9))
    );
}

#[test]
fn converter_resamples_and_keeps_timestamps() {
    let mut c = SoftwareCapture::new(1280, 720, PixelFormat(0));
    match c.on_decode(DecodeEvent::Frame(decoded(1920, 1080, 77))) {
        CaptureAction::Deliver(f) => {
            assert_eq!(f.width, 1280);
            assert_eq!(f.height, 720);
            assert_eq!(f.format, PixelFormat(0));
            // the presentation timestamp propagates unchanged
            assert_eq!(f.pts, 77);
            assert!(f.hw_frames_ctx.is_none());
        },
        _ => panic!("a decoded frame must be delivered"),
    }
}

#[test]
fn converter_is_sized_once_from_the_first_frame() {
    let mut c = SoftwareCapture::new(1280, 720, PixelFormat(0));
    assert!(c.negotiated.is_none());
    c.on_decode(DecodeEvent::Frame(decoded(1920, 1080, 0)));
    assert_eq!(c.negotiated, Some(SourceGeometry { width: 1920, height: 1080 }));
    // a later frame in another geometry does not resize the converter
    c.on_decode(DecodeEvent::Frame(decoded(640, 480, 1)));
    assert_eq!(c.negotiated, Some(SourceGeometry { width: 1920, height: 1080 }));
}
