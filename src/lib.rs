//! A headless frame-capture pipeline: a fixed-step tick driver, a capture
//! controller with an explicit session state machine, an ordered frame
//! encoder, and the rotating scene that the renderer reads.

pub mod error;
pub mod frame;
pub mod encoder;
pub mod tick;
pub mod session;
pub mod scene;
pub mod pipeline;
