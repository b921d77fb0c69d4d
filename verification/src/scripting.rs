//! Actions, the sequences made of them, and the worker that runs a sequence.

pub mod action;
pub mod key_sequence;
pub mod runner;
pub mod sequence;
pub mod utils;
