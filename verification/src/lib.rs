//! Orchestration core of a spectrum monitor for streamed telemetry frames.
//!
//! The crate holds the decisions of the acquisition side (which source to
//! open, what to do with the outcome of a read, when to rebuild the
//! accumulator bank, when to publish a snapshot) and of the viewer side,
//! together with the two channels that couple them. Everything that touches
//! a socket, a file, a decoder or a window is left to the program around it,
//! which performs the actions named here and reports back what happened.

pub mod acquire;
pub mod channel;
pub mod replay;
pub mod runs;
pub mod source;
pub mod trace;
pub mod viewer;
