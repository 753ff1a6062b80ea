//! Native screen and system-audio capture: which targets can be shared, what
//! becomes of each frame and each audio packet, and how sessions are started,
//! switched and stopped without ever overlapping.
//!
//! The library decides and computes; it performs no input or output. Its
//! callers query the operating system, hand over what they saw, and carry out
//! the steps they are given.

pub mod audio;
pub mod codec;
pub mod enumerate;
pub mod error;
pub mod pixels;
pub mod search;
pub mod session;
pub mod target;
pub mod text;
pub mod thumbnail;
pub mod video;

pub use audio::samples::AudioPayload;
pub use enumerate::enumerate_capture_targets;
pub use error::CaptureError;
pub use session::{start_capture, stop_capture, switch_capture_target, Controller};
pub use target::CaptureTarget;
pub use video::frames::FramePayload;
