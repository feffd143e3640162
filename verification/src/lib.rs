//! Driver logic for a memory-mapped text-mode display: cell and color
//! encoding, a cursor/scroll state machine over a fixed-size cell grid, and
//! a lock-guarded global writer for serialized output.

pub mod color;
pub mod global_writer;
pub mod laws;
pub mod screen;
pub mod writer;
