use headless_capture::encoder::{FrameEncoder, Repeat};
use headless_capture::error::{CaptureError, RenderFailure};
use headless_capture::frame::Frame;
use headless_capture::scene::{Rotatable, Scene};
use headless_capture::session::{CaptureConfig, CaptureController, SessionState};
use headless_capture::tick::{frame_delay_centis, TickDelta, TickDriver};

fn frame(seq: u64) -> Frame {
    Frame::filled(2, 3, seq, 7)
}

#[test]
fn frame_from_pixels_checks_size() {
    assert!(Frame::from_pixels(2, 2, 0, vec![0; 4]).is_some());
    assert!(Frame::from_pixels(2, 2, 0, vec![0; 3]).is_none());
    assert!(Frame::from_pixels(0, 5, 0, vec![]).is_some());
    let f = Frame::filled(2, 3, 9, 42);
    assert_eq!(f.pixels, vec![42; 6]);
    assert_eq!(f.seq, 9);
}

#[test]
fn encoder_accepts_frames_in_order() {
    let mut e = FrameEncoder::new(2, 3, Repeat::Infinite, 2);
    assert_eq!(e.loop_headers(), 0);
    assert_eq!(e.push(frame(0)), Ok(()));
    assert_eq!(e.loop_headers(), 1);
    assert_eq!(e.push(frame(1)), Ok(()));
    assert_eq!(e.push(frame(2)), Ok(()));
    assert_eq!(e.loop_headers(), 1);
    assert_eq!(e.frame_count(), 3);
}

#[test]
fn encoder_rejects_out_of_order_frames() {
    let mut e = FrameEncoder::new(2, 3, Repeat::Infinite, 2);
    assert_eq!(e.push(frame(1)), Err(CaptureError::SequenceViolation));
    assert_eq!(e.frame_count(), 0);
    assert_eq!(e.push(frame(0)), Ok(()));
    assert_eq!(e.push(frame(0)), Err(CaptureError::SequenceViolation));
    assert_eq!(e.push(frame(5)), Err(CaptureError::SequenceViolation));
    assert_eq!(e.frame_count(), 1);
}

#[test]
fn push_after_finalize_is_refused() {
    let mut e = FrameEncoder::new(2, 3, Repeat::Infinite, 2);
    e.push(frame(0)).unwrap();
    e.push(frame(1)).unwrap();
    assert_eq!(e.finalize(), Ok(()));
    assert_eq!(e.push(frame(2)), Err(CaptureError::EncoderClosed));
    assert_eq!(e.push(frame(0)), Err(CaptureError::EncoderClosed));
    assert_eq!(e.frame_count(), 2);
    let seqs: Vec<u64> = e.frames().iter().map(|f| f.seq).collect();
    assert_eq!(seqs, vec![0, 1]);
    assert_eq!(e.finalize(), Err(CaptureError::EncoderClosed));
    assert!(e.is_closed());
}

#[test]
fn start_while_capturing_is_a_no_op() {
    let mut c = CaptureController::new();
    assert_eq!(c.state(), SessionState::Idle);
    let cfg = CaptureConfig { frame_limit: 5 };
    assert!(c.start(FrameEncoder::new(2, 3, Repeat::Infinite, 2), cfg));
    c.tick(Ok(frame(0))).unwrap();
    c.tick(Ok(frame(1))).unwrap();
    assert!(!c.start(FrameEncoder::new(2, 3, Repeat::Finite(1), 9), CaptureConfig { frame_limit: 1 }));
    assert_eq!(c.frame_count(), 2);
    assert_eq!(c.encoder().unwrap().repeat(), Repeat::Infinite);
    assert_eq!(c.encoder().unwrap().delay_centis(), 2);
    assert_eq!(c.tick(Ok(frame(2))), Ok(SessionState::Capturing));
}

#[test]
fn session_finishes_at_limit() {
    let mut c = CaptureController::new();
    c.start(FrameEncoder::new(2, 3, Repeat::Infinite, 2), CaptureConfig { frame_limit: 3 });
    assert_eq!(c.tick(Ok(frame(0))), Ok(SessionState::Capturing));
    assert_eq!(c.tick(Ok(frame(1))), Ok(SessionState::Capturing));
    assert_eq!(c.tick(Ok(frame(2))), Ok(SessionState::Finished));
    assert!(!c.is_capturing());
    assert!(c.encoder().unwrap().is_closed());
    assert_eq!(c.frame_count(), 3);
}

#[test]
fn ended_session_is_not_restarted() {
    let mut c = CaptureController::new();
    c.start(FrameEncoder::new(2, 3, Repeat::Infinite, 2), CaptureConfig { frame_limit: 1 });
    c.tick(Ok(frame(0))).unwrap();
    assert_eq!(c.state(), SessionState::Finished);
    assert!(!c.start(FrameEncoder::new(2, 3, Repeat::Infinite, 2), CaptureConfig { frame_limit: 2 }));
    assert_eq!(c.state(), SessionState::Finished);
    assert_eq!(c.frame_count(), 1);
    assert!(c.encoder().unwrap().is_closed());

    let mut c = CaptureController::new();
    c.start(FrameEncoder::new(2, 3, Repeat::Infinite, 2), CaptureConfig { frame_limit: 3 });
    c.tick(Ok(frame(0))).unwrap();
    c.tick(Err(RenderFailure)).unwrap_err();
    assert!(!c.start(FrameEncoder::new(2, 3, Repeat::Infinite, 2), CaptureConfig { frame_limit: 3 }));
    assert_eq!(c.state(), SessionState::Failed);
    assert_eq!(c.frame_count(), 1);
    assert!(!c.encoder().unwrap().is_closed());
}

#[test]
fn controller_errors_fail_the_session() {
    let mut c = CaptureController::new();
    c.start(FrameEncoder::new(2, 3, Repeat::Infinite, 2), CaptureConfig { frame_limit: 4 });
    c.tick(Ok(frame(0))).unwrap();
    assert_eq!(c.tick(Ok(frame(3))), Err(CaptureError::SequenceViolation));
    assert_eq!(c.state(), SessionState::Failed);
    assert_eq!(c.frame_count(), 1);
    assert!(!c.encoder().unwrap().is_closed());

    let mut c = CaptureController::new();
    c.start(FrameEncoder::new(2, 3, Repeat::Infinite, 2), CaptureConfig { frame_limit: 4 });
    assert_eq!(c.tick(Err(RenderFailure)), Err(CaptureError::RenderFailure));
    assert_eq!(c.state(), SessionState::Failed);

    let mut c = CaptureController::new();
    c.start(FrameEncoder::new(2, 3, Repeat::Infinite, 2), CaptureConfig { frame_limit: 4 });
    c.tick(Ok(frame(0))).unwrap();
    let e = c.sink_failed(String::from("disk full"));
    assert_eq!(e, CaptureError::EncoderIOFailure(String::from("disk full")));
    assert_eq!(c.state(), SessionState::Failed);
    assert_eq!(c.frame_count(), 1);
    assert!(!c.encoder().unwrap().is_closed());
}

#[test]
fn next_seq_follows_frame_count() {
    let mut c = CaptureController::new();
    assert_eq!(c.next_seq(), 0);
    c.start(FrameEncoder::new(2, 3, Repeat::Infinite, 2), CaptureConfig { frame_limit: 4 });
    c.tick(Ok(frame(0))).unwrap();
    c.tick(Ok(frame(1))).unwrap();
    assert_eq!(c.next_seq(), 2);
}

#[test]
fn frame_delay_matches_tick_rate() {
    assert_eq!(frame_delay_centis(TickDelta::sixtieth()), 2);
    assert_eq!(frame_delay_centis(TickDelta { num: 1, den: 30 }), 3);
    assert_eq!(frame_delay_centis(TickDelta { num: 1, den: 10 }), 10);
    assert_eq!(frame_delay_centis(TickDelta { num: 1, den: 1000 }), 0);
    assert_eq!(frame_delay_centis(TickDelta { num: u64::MAX, den: 1 }), u16::MAX);
}

#[test]
fn tick_driver_counts_and_stops() {
    let mut d = TickDriver::new(3, TickDelta::sixtieth());
    let t = d.advance(10);
    assert_eq!((t.index, t.last), (0, false));
    let t = d.advance(999_999);
    assert_eq!((t.index, t.last), (1, false));
    let t = d.advance(0);
    assert_eq!((t.index, t.last), (2, true));
    assert!(d.finished());
    assert_eq!(d.elapsed_num(), 3);
    let t = d.advance(0);
    assert_eq!((t.index, t.last), (3, true));
    assert_eq!(d.ticks, 4);
    let t = d.advance(0);
    assert_eq!((t.index, t.last), (4, true));
    assert_eq!(d.elapsed_num(), 5);

    let mut z = TickDriver::new(0, TickDelta::sixtieth());
    assert!(z.finished());
    assert!(z.advance(0).last);
}

#[test]
fn angle_is_the_ticks_angle_modulo_a_turn() {
    let mut r = Rotatable::new(2, 5, 60);
    assert_eq!(r.turn_den_exec(), 300);
    assert_eq!(r.step_turns(99), (198, 300));
    r.turn_to_tick(100);
    assert_eq!(r.turn_num, 200);
    r.turn_to_tick(200);
    assert_eq!(r.turn_num, 100);
    r.turn_to_tick(200);
    assert_eq!(r.turn_num, 100);
    r.turn_to_tick(0);
    assert_eq!(r.turn_num, 0);

    let mut s = Scene::new();
    assert_eq!(s.spawn(Rotatable::new(1, 1, 4)), 0);
    assert_eq!(s.spawn(Rotatable::new(2, 5, 60)), 1);
    s.update(3);
    assert_eq!(s.entities[0].turn_num, 3);
    assert_eq!(s.entities[1].turn_num, 6);
    s.update(2);
    assert_eq!(s.entities[0].turn_num, 2);
    assert_eq!(s.entities[1].turn_num, 4);
    s.update(6);
    assert_eq!(s.entities[0].turn_num, 2);
    assert_eq!(s.entities[1].turn_num, 12);
}
