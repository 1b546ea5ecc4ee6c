//! A small stack-and-register machine whose objects live in a manually
//! managed, per-kind recycling heap.

pub mod heap;
pub mod stack;
pub mod inst;
pub mod runner;
pub mod alloc_runner;
