//! Resolution of secrets through the 1Password command-line tool.
//!
//! A secret is named by a reference. To resolve it, the tool `op` is run
//! twice: once for its version, to see that it is installed and signed in,
//! and once to read the secret. This crate holds the rules of that
//! exchange and starts no process itself: it says which command line is to
//! be run, takes the bytes that came back, and turns them into a value, the
//! absence of one, or a failure.

pub mod decode;
pub mod laws;
pub mod outcome;
pub mod platform;
pub mod protocol;
pub mod secret;
pub mod tool;
pub mod whitespace;

pub use outcome::{Outcome, ResolutionError, ResolvedSecret};
pub use platform::Platform;
pub use protocol::Step;
pub use secret::OnePasswordSecret;
pub use tool::{Invocation, Request, ToolRun};
