use vstd::prelude::*;

verus! {

/// The ways a capture can go wrong.
#[derive(Clone, Debug, PartialEq, Eq)]
pub enum CaptureError {
    /// The renderer could not produce a frame; the session is aborted.
    RenderFailure,
    /// The output sink could not be written or closed; holds the cause.
    EncoderIOFailure(String),
    /// A frame arrived out of order: an internal invariant was broken.
    SequenceViolation,
    /// A frame was pushed after the encoder was finalized.
    EncoderClosed,
}

/// Signalled by a frame source that could not produce a frame
/// (device lost, render timed out).
#[derive(Clone, Copy, Debug, PartialEq, Eq, Structural)]
pub struct RenderFailure;

} // verus!
