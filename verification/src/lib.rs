//! Planning and decoding for a bridge that delegates work to a bundled
//! Python interpreter, one child process per call.

pub mod bridge;
pub mod command;
pub mod error;
pub mod laws;
pub mod operation;
pub mod output;
pub mod runtime;
