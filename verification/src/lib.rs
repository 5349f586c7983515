//! Batch scheduling for a bulk downloader: how many copies of a resource to
//! fetch at once, where each copy is kept, and what the session has counted.
//!
//! The library touches neither the network nor the file system. The caller
//! runs requests, timers and file operations and reports what happened; the
//! library decides what to do next. Of the world outside it reads the clock
//! and draws random file names, and nothing else.

pub mod budget;
pub mod clock;
pub mod downloader;
pub mod item;
pub mod naming;
pub mod outcome;
pub mod report;
pub mod session;
pub mod sizing;
pub mod stats;
pub mod sweep;
pub mod target;
pub mod tick;
