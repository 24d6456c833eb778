//! The uniform result of one invocation, and how it is derived from what a
//! launcher observed.

use vstd::prelude::*;
use vstd::string::StringExecFns;
use vstd::utf8::{decode_utf8, valid_utf8};

verus! {

/// What a launcher observed when it was asked to run a command.
#[derive(Debug)]
pub enum ProcessOutcome {
    /// The process started and ran to its end. `code` is the status it exited
    /// with, absent when the platform reports none (the process was ended
    /// from outside).
    Exited { code: Option<i32>, stdout: Vec<u8>, stderr: Vec<u8> },
    /// The process could not be started; `reason` says why.
    LaunchFailed { reason: String },
}

/// The result of one invocation, in the same shape whatever was run and
/// however it ended.
#[derive(Debug)]
pub struct CommandOutput {
    pub success: bool,
    pub stdout: String,
    pub stderr: String,
    pub code: Option<i32>,
}

/// The text that permissive decoding makes of `bytes`: invalid stretches are
/// replaced, nothing is rejected.
pub uninterp spec fn utf8_lossy(bytes: Seq<u8>) -> Seq<char>;

/// The text that captured bytes are reported as: their UTF-8 decoding where
/// they are valid UTF-8, the permissive decoding with its replacements
/// otherwise.
pub open spec fn decoded(bytes: Seq<u8>) -> Seq<char> {
    if valid_utf8(bytes) {
        decode_utf8(bytes)
    } else {
        utf8_lossy(bytes)
    }
}

/// The words that open the description of a launch failure.
pub open spec fn launch_failure_prefix() -> Seq<char> {
    "执行命令失败: "@
}

/// Whether `output` is the report that `outcome` calls for.
pub open spec fn reports(output: CommandOutput, outcome: ProcessOutcome) -> bool {
    match outcome {
        ProcessOutcome::Exited { code, stdout, stderr } => {
            &&& output.success == (code == Some(0i32))
            &&& output.code == code
            &&& output.stdout@ == decoded(stdout@)
            &&& output.stderr@ == decoded(stderr@)
        },
        ProcessOutcome::LaunchFailed { reason } => {
            &&& !output.success
            &&& output.code is None
            &&& output.stdout@ == Seq::<char>::empty()
            &&& output.stderr@ == launch_failure_prefix() + reason@
        },
    }
}

/// Calls `String::from_utf8_lossy` and takes the text it yields. Believed, not
/// proved: the text depends on the bytes alone, and valid UTF-8 comes back as
/// the string it encodes.
#[verifier::external_body]
fn decode_lossy(bytes: &[u8]) -> (text: String)
    ensures
        text@ == utf8_lossy(bytes@),
        valid_utf8(bytes@) ==> text@ == decode_utf8(bytes@),
{
    String::from_utf8_lossy(bytes).into_owned()
}

impl CommandOutput {
    /// The invariant of every report that this library produces: success
    /// means exactly that an exit status is present and is zero.
    pub open spec fn consistent(&self) -> bool {
        self.success <==> self.code == Some(0i32)
    }

    /// The report for a process that ran to its end with the given status and
    /// the given, already decoded, output.
    pub fn from_exit(code: Option<i32>, stdout: String, stderr: String) -> (output: Self)
        ensures
            output.success == (code == Some(0i32)),
            output.code == code,
            output.stdout == stdout,
            output.stderr == stderr,
            output.consistent(),
    {
        let success = match code {
            Some(status) => status == 0,
            None => false,
        };
        CommandOutput { success, stdout, stderr, code }
    }

    /// The report for a process that could not be started.
    pub fn launch_failure(reason: &str) -> (output: Self)
        ensures
            !output.success,
            output.code is None,
            output.stdout@ == Seq::<char>::empty(),
            output.stderr@ == launch_failure_prefix() + reason@,
            output.stderr@.len() > 0,
            output.consistent(),
    {
        proof {
            reveal_strlit("执行命令失败: ");
        }
        let stderr = String::from_str("执行命令失败: ").concat(reason);
        CommandOutput { success: false, stdout: String::new(), stderr, code: None }
    }

    /// The report that `outcome` calls for.
    pub fn from_outcome(outcome: ProcessOutcome) -> (output: Self)
        ensures
            reports(output, outcome),
            output.consistent(),
    {
        match outcome {
            ProcessOutcome::Exited { code, stdout, stderr } => {
                let out = decode_lossy(stdout.as_slice());
                let err = decode_lossy(stderr.as_slice());
                CommandOutput::from_exit(code, out, err)
            },
            ProcessOutcome::LaunchFailed { reason } => CommandOutput::launch_failure(
                reason.as_str(),
            ),
        }
    }
}

} // verus!
