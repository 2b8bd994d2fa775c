//! A scripted capture backend: a deterministic, in-memory [`Source`] that
//! plays back a fixed sequence of capture results. It stands in for a real
//! device wherever the pipeline is driven without one — above all to
//! exercise pacing, encoding and packet production end to end.

use vstd::prelude::*;
use crate::error::StreamError;
use crate::frame::{PixelFormat, RawFrame};
use crate::rational::Rational;
use crate::source::Source;

verus! {

/// One scripted capture result: a frame with the given timestamps, a
/// "no frame ready yet" retry, the end of the stream, or a device failure
/// with the given code.
#[derive(Clone, Copy, Debug, PartialEq, Eq, Structural)]
pub enum ScriptStep {
    Frame { pts: i64, duration: i64 },
    Retry,
    Eof,
    Fail(i32),
}

/// A capture backend that answers each pull with the next scripted step;
/// a script that runs out keeps answering `EndOfStream`. Every produced
/// frame carries the source's fixed geometry and, on the hardware path,
/// its shared buffer.
#[derive(Debug)]
pub struct ScriptedSource {
    pub width: u32,
    pub height: u32,
    pub format: PixelFormat,
    pub aspect: Rational,
    /// The shared hardware buffer every frame lives in, if this source
    /// plays the zero-copy part.
    pub hw_buffer: Option<usize>,
    pub steps: Vec<ScriptStep>,
    pub pos: usize,
}

impl ScriptedSource {
    /// A software-path source with the given frame geometry and script.
    pub fn new(width: u32, height: u32, steps: Vec<ScriptStep>) -> (s: ScriptedSource)
        ensures
            s.width == width,
            s.height == height,
            s.format == (PixelFormat(0i32)),
            s.aspect == (Rational { num: 1i32, den: 1i32 }),
            s.hw_buffer is None,
            s.steps == steps,
            s.pos == 0,
    {
        ScriptedSource {
            width,
            height,
            format: PixelFormat(0),
            aspect: Rational { num: 1, den: 1 },
            hw_buffer: None,
            steps,
            pos: 0,
        }
    }

    /// Turns this source into the zero-copy part: every frame will carry
    /// the given shared hardware buffer.
    pub fn with_hw_buffer(self, id: usize) -> (s: ScriptedSource)
        ensures
            s == (ScriptedSource { hw_buffer: Some(id), ..self }),
    {
        ScriptedSource { hw_buffer: Some(id), ..self }
    }

    /// The frame this source produces for a scripted `Frame` step.
    pub open spec fn spec_frame(&self, pts: i64, duration: i64) -> RawFrame {
        RawFrame {
            width: self.width,
            height: self.height,
            format: self.format,
            aspect: self.aspect,
            pts,
            duration,
            hw_frames_ctx: self.hw_buffer,
        }
    }
}

impl Source for ScriptedSource {
    /// Plays back the next step of the script.
    fn next_frame(&mut self, out: &mut RawFrame) -> (r: Result<(), StreamError>)
        ensures
            old(self).pos >= old(self).steps@.len() ==> r == Err::<(), StreamError>(
                StreamError::EndOfStream,
            ) && *final(self) == *old(self) && *final(out) == *old(out),
            old(self).pos < old(self).steps@.len() ==> *final(self) == (ScriptedSource {
                pos: (old(self).pos + 1) as usize,
                ..*old(self)
            }) && ({
                let step = old(self).steps@[old(self).pos as int];
                &&& (step matches ScriptStep::Frame { pts, duration } ==> r == Ok::<
                    (),
                    StreamError,
                >(()) && *final(out) == old(self).spec_frame(pts, duration))
                &&& (step is Retry ==> r == Err::<(), StreamError>(StreamError::WouldRetry)
                    && *final(out) == *old(out))
                &&& (step is Eof ==> r == Err::<(), StreamError>(StreamError::EndOfStream)
                    && *final(out) == *old(out))
                &&& (step matches ScriptStep::Fail(code) ==> r == Err::<(), StreamError>(
                    StreamError::DeviceError(code),
                ) && *final(out) == *old(out))
            }),
    {
        if self.pos >= self.steps.len() {
            return Err(StreamError::EndOfStream);
        }
        let step = self.steps[self.pos];
        self.pos = self.pos + 1;
        match step {
            ScriptStep::Frame { pts, duration } => {
                *out = RawFrame {
                    width: self.width,
                    height: self.height,
                    format: self.format,
                    aspect: self.aspect,
                    pts,
                    duration,
                    hw_frames_ctx: self.hw_buffer,
                };
                Ok(())
            },
            ScriptStep::Retry => Err(StreamError::WouldRetry),
            ScriptStep::Eof => Err(StreamError::EndOfStream),
            ScriptStep::Fail(code) => Err(StreamError::DeviceError(code)),
        }
    }

    /// Whether frames carry a shared hardware buffer.
    fn hw_support(&self) -> (r: bool)
        ensures
            r == (self.hw_buffer is Some),
    {
        self.hw_buffer.is_some()
    }
}

} // verus!
