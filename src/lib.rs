//! Verified core of a small server-side JavaScript runtime: the shutdown
//! accounting of its event loop, the write-stream state machine, the timer
//! registry, file access checks and the `console` format expansion.
pub mod console;
pub mod format;
pub mod fs;
pub mod lifecycle;
pub mod modules;
pub mod timeout;
pub mod write_stream;
