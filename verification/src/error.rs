//! The error taxonomy of the pipeline.

use vstd::prelude::*;

verus! {

/// Everything that can go wrong in the pipeline, in one taxonomy.
///
/// `WouldRetry` is a flow-control signal ("no frame ready yet"), never an
/// error: the pacing adapter absorbs it. `EndOfStream` is normal termination.
/// `DeviceError` carries the underlying device or codec error code and is
/// fatal for the stream. The remaining variants are setup-time failures
/// (`MissingCodec`, `EncoderOpenFailed`, `OptionSetFailed`) or cancellation
/// (`ChannelClosed`).
#[derive(Clone, Copy, Debug, PartialEq, Eq, Structural)]
pub enum StreamError {
    WouldRetry,
    EndOfStream,
    DeviceError(i32),
    MissingCodec,
    EncoderOpenFailed,
    OptionSetFailed,
    ChannelClosed,
}

impl StreamError {
    /// A fatal error is any result that is neither flow control
    /// (`WouldRetry`) nor normal termination (`EndOfStream`): it stops the
    /// stream with the error it carries.
    pub open spec fn spec_is_fatal(&self) -> bool {
        *self !is WouldRetry && *self !is EndOfStream
    }

    /// Decides whether this error terminates the pipeline.
    #[verifier::when_used_as_spec(spec_is_fatal)]
    pub fn is_fatal(&self) -> (r: bool)
        ensures
            r == self.spec_is_fatal(),
    {
        !(matches!(self, StreamError::WouldRetry) || matches!(self, StreamError::EndOfStream))
    }
}

} // verus!
