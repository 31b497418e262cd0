//! Launching worker processes and streaming their progress events.
//!
//! The library holds the decisions of a process bridge: how a raw path is
//! resolved against the project root, how the command line of a child is laid
//! out, how a finished run is reported, how a line of a child's output is
//! classified and decoded, and how a streaming supervisor moves between its
//! states. Spawning, waiting and publishing are left to the caller.

pub mod boundary;
pub mod event;
pub mod path;
pub mod runner;
pub mod supervisor;
pub mod text;
