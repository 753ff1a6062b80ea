//! The video side of a session: what is opened for a target, and what
//! happens to each frame the capture delivers.

pub mod frames;
pub mod plan;
