use vstd::prelude::*;

use crate::encoder::{EncoderView, FrameEncoder};
use crate::error::{CaptureError, RenderFailure};
use crate::frame::Frame;

verus! {

#[derive(Clone, Copy, Debug, PartialEq, Eq, Structural)]
pub enum SessionState {
    Idle,
    Capturing,
    Finished,
    Failed,
}

/// How a capture is run: it finishes once `frame_limit` frames are written.
#[derive(Clone, Copy, Debug, PartialEq, Eq, Structural)]
pub struct CaptureConfig {
    pub frame_limit: u64,
}

/// One capture run, abstractly.
pub struct SessionView {
    pub state: SessionState,
    pub frame_count: nat,
    pub frame_limit: nat,
    pub encoder: EncoderView,
}

/// The sequence numbers 0, 1, ..., n - 1.
pub open spec fn seq_upto(n: nat) -> Seq<u64> {
    Seq::new(n, |i: int| i as u64)
}

/// The frame handed to a tick, by its sequence number; `None` when the
/// renderer failed.
pub open spec fn rendered_seq(rendered: Result<Frame, RenderFailure>) -> Option<u64> {
    match rendered {
        Ok(f) => Some(f.seq),
        Err(_) => None,
    }
}

impl SessionView {
    pub open spec fn wf(self) -> bool {
        &&& self.encoder.wf()
        &&& self.frame_count == self.encoder.seqs.len()
        &&& 1 <= self.frame_limit <= u64::MAX
        &&& self.state != SessionState::Idle
        &&& self.state == SessionState::Capturing ==> !self.encoder.closed && self.frame_count
            < self.frame_limit
        &&& self.state == SessionState::Finished ==> self.encoder.closed && self.frame_count
            == self.frame_limit
        &&& self.state == SessionState::Failed ==> !self.encoder.closed
    }

    /// A session that has just started on a fresh encoder.
    pub open spec fn started(encoder: EncoderView, config: CaptureConfig) -> SessionView {
        SessionView {
            state: SessionState::Capturing,
            frame_count: 0,
            frame_limit: config.frame_limit as nat,
            encoder,
        }
    }

    /// The session after one tick whose render gave `rendered` (`None`: a
    /// render failure).  Only a capturing session moves.
    pub open spec fn after_tick(self, rendered: Option<u64>) -> SessionView {
        if self.state != SessionState::Capturing {
            self
        } else {
            match rendered {
                None => SessionView { state: SessionState::Failed, ..self },
                Some(seq) => if self.encoder.push_error(seq) is Some {
                    SessionView { state: SessionState::Failed, ..self }
                } else if self.frame_count + 1 >= self.frame_limit {
                    SessionView {
                        state: SessionState::Finished,
                        frame_count: self.frame_count + 1,
                        encoder: self.encoder.accept(seq).finalized(),
                        ..self
                    }
                } else {
                    SessionView {
                        state: SessionState::Capturing,
                        frame_count: self.frame_count + 1,
                        encoder: self.encoder.accept(seq),
                        ..self
                    }
                },
            }
        }
    }

    /// What a tick of a capturing session reports.
    pub open spec fn tick_result(self, rendered: Option<u64>) -> Result<SessionState, CaptureError> {
        match rendered {
            None => Err(CaptureError::RenderFailure),
            Some(seq) => match self.encoder.push_error(seq) {
                Some(e) => Err(e),
                None => Ok(self.after_tick(rendered).state),
            },
        }
    }

    /// The session after `k` ticks, each fed the frame that it asks for.
    pub open spec fn run_clean(self, k: nat) -> SessionView
        decreases k,
    {
        if k == 0 {
            self
        } else {
            let s = self.run_clean((k - 1) as nat);
            s.after_tick(Some(s.frame_count as u64))
        }
    }
}

/// One capture run: its state, the frames it has written, and the encoder,
/// which it owns until the run ends.
pub struct CaptureSession {
    state: SessionState,
    frame_count: u64,
    frame_limit: u64,
    encoder: FrameEncoder,
}

impl View for CaptureSession {
    type V = SessionView;

    closed spec fn view(&self) -> SessionView {
        SessionView {
            state: self.state,
            frame_count: self.frame_count as nat,
            frame_limit: self.frame_limit as nat,
            encoder: self.encoder@,
        }
    }
}

impl CaptureSession {
    pub closed spec fn wf(&self) -> bool {
        self@.wf() && self.encoder.wf()
    }
}

/// Orchestrates capture: starts a session, feeds it one frame per tick, and
/// finalizes the encoder when the session is done.
pub struct CaptureController {
    session: Option<CaptureSession>,
}

/// The controller, abstractly: the current session, if one was ever started.
pub struct ControllerView {
    pub session: Option<SessionView>,
}

impl ControllerView {
    pub open spec fn wf(self) -> bool {
        self.session matches Some(s) ==> s.wf()
    }

    pub open spec fn is_capturing(self) -> bool {
        self.session matches Some(s) && s.state == SessionState::Capturing
    }

    /// The state of the controller: `Idle` before the first session.
    pub open spec fn state(self) -> SessionState {
        match self.session {
            Some(s) => s.state,
            None => SessionState::Idle,
        }
    }
}

impl View for CaptureController {
    type V = ControllerView;

    closed spec fn view(&self) -> ControllerView {
        ControllerView {
            session: match self.session {
                Some(s) => Some(s@),
                None => None,
            },
        }
    }
}

impl CaptureController {
    pub closed spec fn wf(&self) -> bool {
        self.session matches Some(s) ==> s.wf()
    }

    pub fn new() -> (r: CaptureController)
        ensures
            r.wf(),
            r@.session is None,
    {
        CaptureController { session: None }
    }

    pub fn is_capturing(&self) -> (r: bool)
        ensures
            r == self@.is_capturing(),
    {
        match &self.session {
            Some(s) => s.state == SessionState::Capturing,
            None => false,
        }
    }

    pub fn state(&self) -> (r: SessionState)
        ensures
            r == self@.state(),
    {
        match &self.session {
            Some(s) => s.state,
            None => SessionState::Idle,
        }
    }

    /// Starts the session on `encoder` if the controller is idle.  Otherwise
    /// nothing changes, the session and its frame count included, and `false`
    /// comes back: a capturing session is not started twice, and a finished
    /// or failed one never captures again.
    pub fn start(&mut self, encoder: FrameEncoder, config: CaptureConfig) -> (r: bool)
        requires
            old(self).wf(),
            encoder.wf(),
            encoder@.is_fresh(),
            config.frame_limit >= 1,
        ensures
            final(self).wf(),
            final(self)@.wf(),
            r == (old(self)@.session is None),
            !r ==> final(self)@ == old(self)@,
            r ==> final(self)@.session == Some(SessionView::started(encoder@, config)),
    {
        if self.session.is_some() {
            return false;
        }
        self.session = Some(
            CaptureSession {
                state: SessionState::Capturing,
                frame_count: 0,
                frame_limit: config.frame_limit,
                encoder,
            },
        );
        true
    }

    /// The sequence number that the next frame must carry.
    pub fn next_seq(&self) -> (r: u64)
        requires
            self.wf(),
        ensures
            r == (match self@.session {
                Some(s) => s.frame_count,
                None => 0,
            }),
    {
        match &self.session {
            Some(s) => s.frame_count,
            None => 0,
        }
    }

    /// Runs one tick of the capturing session on what the frame source gave:
    /// the frame is pushed to the encoder, and once the frame limit is
    /// reached the encoder is finalized and the session is `Finished`.  A
    /// render failure, or a frame the encoder refuses, leaves the session
    /// `Failed` with the encoder not finalized, and is reported.
    pub fn tick(&mut self, rendered: Result<Frame, RenderFailure>) -> (r: Result<
        SessionState,
        CaptureError,
    >)
        requires
            old(self).wf(),
            old(self)@.is_capturing(),
            rendered matches Ok(f) ==> old(self)@.session.unwrap().encoder.fits(f),
        ensures
            final(self).wf(),
            final(self)@.wf(),
            final(self)@.session == Some(
                old(self)@.session.unwrap().after_tick(rendered_seq(rendered)),
            ),
            r == old(self)@.session.unwrap().tick_result(rendered_seq(rendered)),
    {
        let mut s = self.session.take().unwrap();
        let r = match rendered {
            Err(_) => {
                s.state = SessionState::Failed;
                Err(CaptureError::RenderFailure)
            },
            Ok(frame) => {
                let pushed = s.encoder.push(frame);
                match pushed {
                    Err(e) => {
                        s.state = SessionState::Failed;
                        Err(e)
                    },
                    Ok(()) => {
                        s.frame_count = s.frame_count + 1;
                        if s.frame_count >= s.frame_limit {
                            s.encoder.finalize();
                            s.state = SessionState::Finished;
                        }
                        Ok(s.state)
                    },
                }
            },
        };
        self.session = Some(s);
        r
    }

    /// Records that the output sink could not be written or closed: the
    /// capturing session fails, and the error carrying `cause` comes back.
    pub fn sink_failed(&mut self, cause: String) -> (r: CaptureError)
        requires
            old(self).wf(),
            old(self)@.is_capturing(),
        ensures
            final(self).wf(),
            final(self)@.wf(),
            final(self)@.session == Some(
                (SessionView { state: SessionState::Failed, ..old(self)@.session.unwrap() }),
            ),
            r == CaptureError::EncoderIOFailure(cause),
    {
        let mut s = self.session.take().unwrap();
        s.state = SessionState::Failed;
        self.session = Some(s);
        CaptureError::EncoderIOFailure(cause)
    }

    /// How many frames the current session has written.
    pub fn frame_count(&self) -> (r: u64)
        ensures
            r == (match self@.session {
                Some(s) => s.frame_count,
                None => 0,
            }),
    {
        match &self.session {
            Some(s) => s.frame_count,
            None => 0,
        }
    }

    /// The encoder of the current session.
    pub fn encoder(&self) -> (r: Option<&FrameEncoder>)
        ensures
            r is Some == self@.session is Some,
            r matches Some(e) ==> e@ == self@.session.unwrap().encoder,
    {
        match &self.session {
            Some(s) => Some(&s.encoder),
            None => None,
        }
    }
}

/// A tick keeps a well-formed session well-formed, whatever the renderer gave.
pub proof fn lemma_tick_keeps_wf(s: SessionView, rendered: Option<u64>)
    requires
        s.wf(),
    ensures
        s.after_tick(rendered).wf(),
{
    if s.state == SessionState::Capturing {
        if let Some(seq) = rendered {
            if s.encoder.push_error(seq) is None {
                let e = s.encoder.accept(seq);
                assert forall|i: int| 0 <= i < e.seqs.len() implies e.seqs[i] == i by {
                    if i < s.encoder.seqs.len() {
                        assert(e.seqs[i] == s.encoder.seqs[i]);
                    }
                }
            }
        }
    }
}

/// A session that has finished or failed never moves again: no tick makes
/// it capture, write a frame, or finalize.
pub proof fn lemma_ended_session_stays(s: SessionView, rendered: Option<u64>)
    requires
        s.state == SessionState::Finished || s.state == SessionState::Failed,
    ensures
        s.after_tick(rendered) == s,
{
}

/// A finished session wrote exactly the frames it owed, numbered from 0
/// with no gap, and closed its encoder.
pub proof fn lemma_finished_session_frames(s: SessionView)
    requires
        s.wf(),
        s.state == SessionState::Finished,
    ensures
        s.frame_count == s.frame_limit,
        s.encoder.seqs == seq_upto(s.frame_limit),
        s.encoder.closed,
{
    assert(s.encoder.seqs =~= seq_upto(s.frame_limit));
}

/// A session started with a limit of `n >= 1` frames and fed every frame it
/// asks for is, after `k` ticks, capturing with `k` frames while `k < n`; from
/// then on it is finished, with exactly `n` frames numbered `0..n`, however
/// many more ticks come.
pub proof fn lemma_clean_run(encoder: EncoderView, config: CaptureConfig, k: nat)
    requires
        encoder.wf(),
        encoder.is_fresh(),
        config.frame_limit >= 1,
    ensures
        ({
            let t = SessionView::started(encoder, config).run_clean(k);
            let n = config.frame_limit as nat;
            &&& t.wf()
            &&& t.frame_limit == n
            &&& k < n ==> t.state == SessionState::Capturing && t.frame_count == k
                && t.encoder.seqs == seq_upto(k) && !t.encoder.closed
            &&& k >= n ==> t.state == SessionState::Finished && t.frame_count == n
                && t.encoder.seqs == seq_upto(n) && t.encoder.closed
        }),
    decreases k,
{
    let s0 = SessionView::started(encoder, config);
    let n = config.frame_limit as nat;
    if k == 0 {
        assert(s0.run_clean(0) == s0);
        assert(s0.encoder.seqs =~= seq_upto(0));
    } else {
        lemma_clean_run(encoder, config, (k - 1) as nat);
        let s = s0.run_clean((k - 1) as nat);
        let seq = s.frame_count as u64;
        lemma_tick_keeps_wf(s, Some(seq));
        let t = s0.run_clean(k);
        assert(t == s.after_tick(Some(seq)));
        if k <= n {
            assert(s.state == SessionState::Capturing);
            assert(seq == k - 1);
            assert(s.encoder.push_error(seq) is None);
            assert(s.encoder.accept(seq).seqs =~= seq_upto(k));
        } else {
            assert(s.state == SessionState::Finished);
            assert(t == s);
        }
    }
}

} // verus!
