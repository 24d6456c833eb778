//! Command composition and result normalisation for driving a local
//! virtual-machine runtime and its container engine through their
//! command-line tools.
//!
//! The library builds argument vectors token by token, hands them to a
//! caller-supplied launcher, and turns whatever the launcher reports into one
//! uniform [`CommandOutput`]. It never starts a process itself.

pub mod args;
pub mod catalog;
pub mod invoke;
pub mod laws;
pub mod ops;
pub mod output;
pub mod text;

pub use args::ArgsBuilder;
pub use catalog::Request;
pub use invoke::{run_command, run_with_builder};
pub use output::{CommandOutput, ProcessOutcome};
pub use text::TokenText;
