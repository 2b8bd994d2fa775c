//! A screen-capture-to-stream pipeline core: capture backends are paced into a
//! cooperative poll, fed to an encoder built from an example frame and a codec
//! profile, and drained as a sequence of timestamped encoded packets.
//!
//! The platform capture devices, the codec implementations and the network
//! publish layer are external collaborators; this crate holds the pipeline
//! logic that coordinates them: pacing, encoder construction, hardware-buffer
//! reference counting, and the packet production state machine.

pub mod capture;
pub mod codec;
pub mod encoder;
pub mod error;
pub mod frame;
pub mod hwbuf;
pub mod rational;
pub mod script;
pub mod source;

pub use capture::{CaptureAction, DecodeEvent, DemuxEvent, SoftwareCapture, SourceGeometry};
pub use codec::Codec;
pub use encoder::{encode, EncodedPacket, EncodedPacketIter, EncoderBuilder, EncoderTuning, OpenedEncoder, Packet, VideoEncoder};
pub use error::StreamError;
pub use frame::{PixelFormat, RawFrame};
pub use rational::Rational;
pub use script::{ScriptStep, ScriptedSource};
pub use source::{CaptureMethod, Delta, Output, PollSource, PollState, Source};
