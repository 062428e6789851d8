//! Version selection and command flows of the Spicy Launcher command line.
//!
//! The library decides which release a command works on, marks which
//! releases are installed, builds the texts the launcher shows, and steps
//! the install, uninstall, launch and listing commands from one outside
//! result to the next. Talking to GitHub, the disk and the terminal is left
//! to the caller, which performs each requested action and reports back.
pub mod release;
pub mod lookup;
pub mod error;
pub mod paint;
pub mod listing;
pub mod flow;
pub mod app;
pub mod laws;
