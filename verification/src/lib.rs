//! A small runtime for interactive terminal programs built from screens,
//! messages and commands.
//!
//! A screen receives messages and may answer each with a command; the runtime
//! paces rendering, feeds the active screen one message per iteration, carries
//! out the commands and keeps track of which screen is active. Everything the
//! runtime decides is decided here, as transitions of a state machine that a
//! driver steps: the driver touches the terminal, the clock and the threads,
//! and reports back what happened.

pub mod application;
pub mod command;
pub mod events;
pub mod foreign;
pub mod message;
pub mod prelude;
pub mod runtime;
pub mod screen;
pub mod slots;

pub use ratatui;
