use vstd::prelude::*;

use crate::error::CaptureError;
use crate::frame::Frame;

verus! {

/// How often a player repeats the animation; written once, in the header.
#[derive(Clone, Copy, Debug, PartialEq, Eq, Structural)]
pub enum Repeat {
    Finite(u16),
    Infinite,
}

/// What an encoder holds, abstractly.
pub struct EncoderView {
    /// Sequence numbers of the accepted frames, in the order they were written.
    pub seqs: Seq<u64>,
    /// Whether the output has been finalized.
    pub closed: bool,
    pub repeat: Repeat,
    /// The frame size fixed for the whole stream.
    pub width: u32,
    pub height: u32,
    /// How many times the repeat policy has been written to the stream.
    pub loop_headers: nat,
    /// Per-frame delay, in hundredths of a second.
    pub delay_centis: u16,
}

impl EncoderView {
    /// Frames are numbered 0, 1, 2, ... with no gap, and the repeat policy
    /// is written once, with the first frame.
    pub open spec fn wf(self) -> bool {
        &&& forall|i: int| 0 <= i < self.seqs.len() ==> self.seqs[i] == i
        &&& self.loop_headers == (if self.seqs.len() == 0 { 0nat } else { 1nat })
        &&& self.seqs.len() <= u64::MAX
    }

    /// A newly made encoder: nothing written, still open.
    pub open spec fn is_fresh(self) -> bool {
        self.seqs.len() == 0 && !self.closed && self.loop_headers == 0
    }

    /// The error with which `push` refuses a frame numbered `seq`, if any.
    /// The last number of the sequence space is never handed out.
    pub open spec fn push_error(self, seq: u64) -> Option<CaptureError> {
        if self.closed {
            Some(CaptureError::EncoderClosed)
        } else if seq != self.seqs.len() || seq == u64::MAX {
            Some(CaptureError::SequenceViolation)
        } else {
            None
        }
    }

    /// A frame that this stream can take: complete, and of the stream's size.
    pub open spec fn fits(self, frame: Frame) -> bool {
        frame.wf() && frame.width == self.width && frame.height == self.height
    }

    /// The encoder after the frame numbered `seq` has been appended.
    pub open spec fn accept(self, seq: u64) -> EncoderView {
        EncoderView { seqs: self.seqs.push(seq), loop_headers: 1, ..self }
    }

    /// The encoder after a push of the frame numbered `seq`, accepted or not.
    pub open spec fn pushed(self, seq: u64) -> EncoderView {
        if self.push_error(seq) is Some {
            self
        } else {
            self.accept(seq)
        }
    }

    /// The encoder after it has been finalized.
    pub open spec fn finalized(self) -> EncoderView {
        EncoderView { closed: true, ..self }
    }
}

/// An append-only, strictly ordered frame container.  The frames it accepts
/// are kept in order until `finalize` closes the stream; the bytes of a
/// concrete format are produced from them by whoever owns the output sink.
pub struct FrameEncoder {
    frames: Vec<Frame>,
    next_seq: u64,
    closed: bool,
    repeat: Repeat,
    width: u32,
    height: u32,
    loop_headers: u64,
    delay_centis: u16,
}

impl View for FrameEncoder {
    type V = EncoderView;

    closed spec fn view(&self) -> EncoderView {
        EncoderView {
            seqs: self.frames@.map_values(|f: Frame| f.seq),
            closed: self.closed,
            repeat: self.repeat,
            width: self.width,
            height: self.height,
            loop_headers: self.loop_headers as nat,
            delay_centis: self.delay_centis,
        }
    }
}

impl FrameEncoder {
    pub closed spec fn wf(&self) -> bool {
        &&& self@.wf()
        &&& self.next_seq == self.frames@.len()
    }

    /// An open encoder of `width` by `height` frames with the given repeat
    /// policy and per-frame delay.
    pub fn new(width: u32, height: u32, repeat: Repeat, delay_centis: u16) -> (r: FrameEncoder)
        ensures
            r.wf(),
            r@.is_fresh(),
            r@ == (EncoderView {
                seqs: Seq::empty(),
                closed: false,
                repeat,
                width,
                height,
                loop_headers: 0,
                delay_centis,
            }),
    {
        let r = FrameEncoder {
            frames: Vec::new(),
            next_seq: 0,
            closed: false,
            repeat,
            width,
            height,
            loop_headers: 0,
            delay_centis,
        };
        assert(r@.seqs =~= Seq::<u64>::empty());
        r
    }

    /// Appends `frame` as the next image.  Refused with `EncoderClosed` once
    /// finalized, and with `SequenceViolation` unless the frame carries the
    /// next sequence number; a refused push changes nothing.
    pub fn push(&mut self, frame: Frame) -> (r: Result<(), CaptureError>)
        requires
            old(self).wf(),
            old(self)@.fits(frame),
        ensures
            final(self).wf(),
            final(self)@ == old(self)@.pushed(frame.seq),
            r == (match old(self)@.push_error(frame.seq) {
                Some(e) => Err(e),
                None => Ok(()),
            }),
    {
        if self.closed {
            return Err(CaptureError::EncoderClosed);
        }
        if frame.seq != self.next_seq || frame.seq == u64::MAX {
            return Err(CaptureError::SequenceViolation);
        }
        let ghost old_seqs = self@.seqs;
        let seq = frame.seq;
        self.frames.push(frame);
        self.next_seq = self.next_seq + 1;
        self.loop_headers = 1;
        assert(self@.seqs =~= old_seqs.push(seq));
        Ok(())
    }

    /// Flushes and closes the stream.  A second call is refused with
    /// `EncoderClosed` and changes nothing.
    pub fn finalize(&mut self) -> (r: Result<(), CaptureError>)
        requires
            old(self).wf(),
        ensures
            final(self).wf(),
            final(self)@ == old(self)@.finalized(),
            r == (if old(self)@.closed {
                Err(CaptureError::EncoderClosed)
            } else {
                Ok(())
            }),
    {
        if self.closed {
            return Err(CaptureError::EncoderClosed);
        }
        self.closed = true;
        Ok(())
    }

    pub fn is_closed(&self) -> (r: bool)
        ensures
            r == self@.closed,
    {
        self.closed
    }

    /// How many frames have been written.
    pub fn frame_count(&self) -> (r: u64)
        requires
            self.wf(),
        ensures
            r == self@.seqs.len(),
    {
        self.next_seq
    }

    /// The frames written so far, in order.
    pub fn frames(&self) -> (r: &Vec<Frame>)
        ensures
            r@.map_values(|f: Frame| f.seq) == self@.seqs,
    {
        &self.frames
    }

    pub fn repeat(&self) -> (r: Repeat)
        ensures
            r == self@.repeat,
    {
        self.repeat
    }

    /// How many times the repeat policy went into the stream: once, with
    /// the first frame, and never again.
    pub fn loop_headers(&self) -> (r: u64)
        ensures
            r == self@.loop_headers,
    {
        self.loop_headers
    }

    pub fn width(&self) -> (r: u32)
        ensures
            r == self@.width,
    {
        self.width
    }

    pub fn height(&self) -> (r: u32)
        ensures
            r == self@.height,
    {
        self.height
    }

    pub fn delay_centis(&self) -> (r: u16)
        ensures
            r == self@.delay_centis,
    {
        self.delay_centis
    }
}

/// Once finalized, an encoder refuses every frame with `EncoderClosed`, and
/// the refusal leaves what was written as it was.
pub proof fn lemma_push_after_finalize(e: EncoderView, seq: u64)
    ensures
        e.finalized().push_error(seq) == Some(CaptureError::EncoderClosed),
        e.finalized().pushed(seq) == e.finalized(),
        e.finalized().pushed(seq).seqs == e.seqs,
{
}

} // verus!
