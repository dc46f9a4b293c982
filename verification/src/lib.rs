//! Early-boot console and leveled logging for a single-core kernel.
//!
//! Everything here is a pure transformation on an explicit [`console::Stdout`]
//! value: the characters that reach the console are appended to it in order,
//! and the platform layer forwards them to the device one by one.

pub mod boot;
pub mod console;
pub mod fatal;
pub mod level;
pub mod logger;
pub mod text;
