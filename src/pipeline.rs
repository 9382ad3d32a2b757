use vstd::prelude::*;

use crate::encoder::{EncoderView, FrameEncoder, Repeat};
use crate::error::{CaptureError, RenderFailure};
use crate::frame::Frame;
use crate::scene::Scene;
use crate::session::{CaptureConfig, CaptureController, SessionState, SessionView, rendered_seq};
use crate::tick::{Tick, TickDelta, TickDriver, delay_centis_of, frame_delay_centis};

verus! {

/// The capture pipeline of one run: the clock, the scene it turns, and the
/// controller that takes one frame per tick.  The host loop calls `update`,
/// renders the scene, hands the result to `capture`, and stops after the
/// tick marked last.
pub struct Pipeline {
    pub driver: TickDriver,
    pub scene: Scene,
    pub controller: CaptureController,
    pub config: CaptureConfig,
    pub repeat: Repeat,
    /// The size of every frame of the run.
    pub width: u32,
    pub height: u32,
}

/// The encoder that a session of this run starts on.
pub open spec fn fresh_encoder(width: u32, height: u32, repeat: Repeat, delta: TickDelta) -> EncoderView {
    EncoderView {
        seqs: Seq::empty(),
        closed: false,
        repeat,
        width,
        height,
        loop_headers: 0,
        delay_centis: delay_centis_of(delta) as u16,
    }
}

impl Pipeline {
    pub open spec fn wf(&self) -> bool {
        &&& self.driver.wf()
        &&& self.scene.wf()
        &&& self.controller.wf()
        &&& self.controller@.wf()
        &&& self.config.frame_limit >= 1
        &&& self.controller@.session matches Some(s) ==> s.encoder.width == self.width
            && s.encoder.height == self.height
    }

    /// A frame that the run can take: complete, and of the run's size.
    pub open spec fn fits(&self, frame: Frame) -> bool {
        frame.wf() && frame.width == self.width && frame.height == self.height
    }

    /// A run of `budget` ticks of `delta` over `scene`, capturing one
    /// `width` by `height` frame per tick with the given repeat policy.
    pub fn new(
        budget: u64,
        delta: TickDelta,
        scene: Scene,
        repeat: Repeat,
        width: u32,
        height: u32,
    ) -> (r: Pipeline)
        requires
            budget >= 1,
            delta.wf(),
            scene.wf(),
        ensures
            r.wf(),
            r.driver == (TickDriver { ticks: 0, budget, delta }),
            r.scene == scene,
            (r.controller@.session is None),
            r.config == (CaptureConfig { frame_limit: budget }),
            r.repeat == repeat,
            r.width == width,
            r.height == height,
    {
        Pipeline {
            driver: TickDriver::new(budget, delta),
            scene,
            controller: CaptureController::new(),
            config: CaptureConfig { frame_limit: budget },
            repeat,
            width,
            height,
        }
    }

    /// The update step of one tick that took `wall_nanos` of real time:
    /// starts the capture if none was ever started, poses every object at
    /// the tick's angle, and advances the clock.  A capture that is running,
    /// finished or failed is left as it is.  The tick handed back says which
    /// tick this is and whether the run ends after it.
    pub fn update(&mut self, wall_nanos: u64) -> (r: Tick)
        requires
            old(self).wf(),
            old(self).driver.ticks < u64::MAX,
        ensures
            final(self).wf(),
            final(self).driver == old(self).driver.advanced(wall_nanos),
            r.index == old(self).driver.ticks,
            r.last == (final(self).driver.ticks >= final(self).driver.budget),
            final(self).scene.entities@.len() == old(self).scene.entities@.len(),
            forall|i: int|
                0 <= i < old(self).scene.entities@.len() ==> final(self).scene.entities@[i]
                    == old(self).scene.entities@[i].at_tick(r.index),
            (old(self).controller@.session is Some) ==> final(self).controller@
                == old(self).controller@,
            (old(self).controller@.session is None) ==> final(self).controller@.session == Some(
                SessionView::started(
                    fresh_encoder(
                        old(self).width,
                        old(self).height,
                        old(self).repeat,
                        old(self).driver.delta,
                    ),
                    old(self).config,
                ),
            ),
            final(self).config == old(self).config,
            final(self).repeat == old(self).repeat,
            final(self).width == old(self).width,
            final(self).height == old(self).height,
    {
        if self.controller.state() == SessionState::Idle {
            let encoder = FrameEncoder::new(
                self.width,
                self.height,
                self.repeat,
                frame_delay_centis(self.driver.delta),
            );
            self.controller.start(encoder, self.config);
        }
        let tick = self.driver.advance(wall_nanos);
        self.scene.update(tick.index);
        tick
    }

    /// Hands what the frame source rendered this tick to the capture.
    pub fn capture(&mut self, rendered: Result<Frame, RenderFailure>) -> (r: Result<
        SessionState,
        CaptureError,
    >)
        requires
            old(self).wf(),
            old(self).controller@.is_capturing(),
            rendered matches Ok(f) ==> old(self).fits(f),
        ensures
            final(self).wf(),
            final(self).driver == old(self).driver,
            final(self).scene == old(self).scene,
            final(self).config == old(self).config,
            final(self).repeat == old(self).repeat,
            final(self).width == old(self).width,
            final(self).height == old(self).height,
            final(self).controller@.session == Some(
                old(self).controller@.session.unwrap().after_tick(rendered_seq(rendered)),
            ),
            r == old(self).controller@.session.unwrap().tick_result(rendered_seq(rendered)),
    {
        self.controller.tick(rendered)
    }
}

} // verus!
