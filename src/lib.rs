//! Controller library for a wirelessly attached LED light: the nine-byte
//! command protocol, the interactive session's state machine, and the
//! delivery side of the frame pipeline.

pub mod cli;
pub mod codec;
pub mod controller;
pub mod dispatch;
pub mod session;
