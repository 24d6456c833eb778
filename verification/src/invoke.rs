//! Running one command through a launcher and reporting how it went.
//!
//! A launcher is any function from a command name and its argument vector to
//! a [`ProcessOutcome`]. The tokens reach it as a literal array: nothing here
//! joins them into a command line or interprets them.

use crate::args::{tokens_of, ArgsBuilder};
use crate::output::{reports, CommandOutput, ProcessOutcome};
use vstd::prelude::*;

verus! {

/// Whether `launch` may be called with the command `program` and any argument
/// vector that spells `tokens`.
pub open spec fn accepts<F: Fn(&str, &[&str]) -> ProcessOutcome>(
    launch: F,
    program: Seq<char>,
    tokens: Seq<Seq<char>>,
) -> bool {
    forall|cmd: &str, args: &[&str]|
        cmd@ == program && tokens_of(args@) == tokens ==> #[trigger] launch.requires((cmd, args))
}

/// Whether `output` reports one run of `launch` on the command `program`
/// with exactly the arguments `tokens`.
pub open spec fn invoked<F: Fn(&str, &[&str]) -> ProcessOutcome>(
    launch: F,
    program: Seq<char>,
    tokens: Seq<Seq<char>>,
    output: CommandOutput,
) -> bool {
    exists|cmd: &str, args: &[&str], outcome: ProcessOutcome|
        cmd@ == program && tokens_of(args@) == tokens && #[trigger] launch.ensures(
            (cmd, args),
            outcome,
        ) && reports(output, outcome)
}

/// Runs `cmd` with `args` through `launch`, once, and reports the outcome.
/// Every outcome, a failed launch too, comes back as a value.
pub fn run_command<F: Fn(&str, &[&str]) -> ProcessOutcome>(
    cmd: &str,
    args: &[&str],
    launch: F,
) -> (output: CommandOutput)
    requires
        launch.requires((cmd, args)),
    ensures
        exists|outcome: ProcessOutcome| #[trigger]
            launch.ensures((cmd, args), outcome) && reports(output, outcome),
        invoked(launch, cmd@, tokens_of(args@), output),
        output.consistent(),
{
    let outcome = launch(cmd, args);
    CommandOutput::from_outcome(outcome)
}

/// Runs `cmd` with the tokens that `builder` holds, in their order.
pub fn run_with_builder<F: Fn(&str, &[&str]) -> ProcessOutcome>(
    cmd: &str,
    builder: &ArgsBuilder,
    launch: F,
) -> (output: CommandOutput)
    requires
        accepts(launch, cmd@, builder@),
    ensures
        invoked(launch, cmd@, builder@, output),
        output.consistent(),
{
    let refs = builder.as_refs();
    run_command(cmd, refs.as_slice(), launch)
}

} // verus!
