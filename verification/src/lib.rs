//! A macro runner: timed keyboard and mouse actions, the interpreter that
//! steps through them, and the worker that replays them under remote control.
//!
//! The library decides and never acts. A step of the interpreter reports
//! the request that its caller is to make of the input devices; the worker
//! queues its messages on an endpoint that its caller carries to the
//! controller; and where the clock is asked, the reading goes to a function
//! that is verified for every reading.
//!
//! - [`time`]: units, delays, a stopwatch, and lengths of time as text.
//! - [`input`]: keys, buttons, and the requests to the input devices.
//! - [`scripting`]: actions, sequences, the two interpreters, the worker and
//!   its handle.
//! - [`threading`]: the channel between controller and worker.
//! - [`ui`]: the controller's state for one worker.
//! - [`clock`], [`text`], [`error`]: the clock, numbers in decimal, and the
//!   interpreter's one failure.

pub mod clock;
pub mod error;
pub mod input;
pub mod scripting;
pub mod text;
pub mod threading;
pub mod time;
pub mod ui;
