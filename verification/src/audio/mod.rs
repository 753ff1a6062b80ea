//! System-audio loopback: how a session is acquired, how packets are decoded
//! and mixed down, and in which order a session is torn down.

pub mod acquire;
pub mod capture_loop;
pub mod packets;
pub mod samples;
