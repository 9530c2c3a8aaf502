//! First-run detection for the `tere` file explorer.
//!
//! The library decides whether the application should show its one-time
//! shell-configuration prompt, interprets the user's answer, and resolves the
//! durable marker file whose existence suppresses the prompt on later runs.
//! All terminal and filesystem interaction is left to the caller; the library
//! works on plain values describing the environment.

pub mod checker;
pub mod decider;
pub mod marker;
pub mod messages;
pub mod settings;
