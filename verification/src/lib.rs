//! Transfer monitoring for a pipe viewer: byte and duration formatting,
//! configuration literals, the command line, and the session that tracks
//! one copy and decides each step of its loop.

pub mod chart;
pub mod cli;
pub mod decimal;
pub mod error;
pub mod estimate;
pub mod ncpv;
pub mod options;
pub mod utils;
