//! Host side of a single-byte control-code protocol spoken with a
//! microcontroller over a serial line.

pub mod codes;
pub mod config;
pub mod display;
pub mod engine;
pub mod error;
pub mod payload;
pub mod session;
pub mod text;
