//! The decisions behind recording one window of a desktop, as a verified state machine.
//!
//! A capture run alternates between work that only the operating system can do (reading the
//! clock, acquiring a desktop frame, copying a texture, sending a sample) and decisions about
//! what to do next. The decisions live here. `capture::get_frames` starts a run,
//! `capture::Capture::action` names the piece of outside work that is due, and
//! `capture::Capture::step` takes what came back and moves the run on.
//!
//! Time is counted in nanoseconds since a point that the caller picks once per run.

pub mod capture;
pub mod com;
pub mod cursor;
pub mod error;
pub mod frame;
pub mod laws;
pub mod platform;
pub mod protocol;
pub mod send;
pub mod timing;
pub mod window;
