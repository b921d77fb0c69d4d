//! The controller's side of the runner, as far as it is no drawing.

pub mod tab;
