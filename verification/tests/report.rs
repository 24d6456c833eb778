use colima_ctl::invoke::{run_command, run_with_builder};
use colima_ctl::{ArgsBuilder, CommandOutput, ProcessOutcome};

fn exited(code: Option<i32>, stdout: &[u8], stderr: &[u8]) -> ProcessOutcome {
    ProcessOutcome::Exited { code, stdout: stdout.to_vec(), stderr: stderr.to_vec() }
}

#[test]
fn zero_status_is_success() {
    let output = CommandOutput::from_exit(Some(0), "ok\n".to_string(), String::new());
    assert!(output.success);
    assert_eq!(output.code, Some(0));
    assert_eq!(output.stdout, "ok\n");
    assert_eq!(output.stderr, "");
}

#[test]
fn nonzero_status_is_failure() {
    for code in [1, 2, 125, 127, 255, -1, i32::MAX, i32::MIN] {
        let output = CommandOutput::from_exit(Some(code), String::new(), "boom".to_string());
        assert!(!output.success);
        assert_eq!(output.code, Some(code));
        assert_eq!(output.stderr, "boom");
    }
}

#[test]
fn missing_status_is_failure() {
    let output = CommandOutput::from_exit(None, "partial".to_string(), String::new());
    assert!(!output.success);
    assert_eq!(output.code, None);
    assert_eq!(output.stdout, "partial");
}

#[test]
fn success_exactly_when_status_is_zero() {
    let codes = [None, Some(0), Some(1), Some(-1), Some(256), Some(i32::MIN)];
    for code in codes {
        let direct = CommandOutput::from_exit(code, String::new(), String::new());
        assert_eq!(direct.success, direct.code == Some(0));
        let derived = CommandOutput::from_outcome(exited(code, b"", b""));
        assert_eq!(derived.success, derived.code == Some(0));
        assert_eq!(derived.code, code);
    }
    let failed = CommandOutput::from_outcome(ProcessOutcome::LaunchFailed {
        reason: "gone".to_string(),
    });
    assert_eq!(failed.success, failed.code == Some(0));
}

#[test]
fn launch_failure_names_the_reason() {
    let output = CommandOutput::launch_failure("No such file or directory (os error 2)");
    assert!(!output.success);
    assert_eq!(output.code, None);
    assert_eq!(output.stdout, "");
    assert_eq!(output.stderr, "执行命令失败: No such file or directory (os error 2)");
    assert!(output.stderr.contains("No such file or directory"));
}

#[test]
fn launch_failure_is_described_even_without_a_reason() {
    let output = CommandOutput::launch_failure("");
    assert!(!output.success);
    assert_eq!(output.code, None);
    assert!(!output.stderr.is_empty());
    assert_eq!(output.stderr, "执行命令失败: ");
    assert_eq!(output.stderr.chars().count(), 8);
}

#[test]
fn outcome_of_a_failed_launch() {
    let output = CommandOutput::from_outcome(ProcessOutcome::LaunchFailed {
        reason: "permission denied".to_string(),
    });
    assert!(!output.success);
    assert_eq!(output.code, None);
    assert_eq!(output.stdout, "");
    assert_eq!(output.stderr, "执行命令失败: permission denied");
}

#[test]
fn outcome_of_a_clean_exit() {
    let output = CommandOutput::from_outcome(exited(Some(0), b"[{\"id\":1}]\n", b""));
    assert!(output.success);
    assert_eq!(output.code, Some(0));
    assert_eq!(output.stdout, "[{\"id\":1}]\n");
    assert_eq!(output.stderr, "");
}

#[test]
fn outcome_of_a_reported_failure() {
    let output = CommandOutput::from_outcome(exited(Some(1), b"", b"Error: not found\n"));
    assert!(!output.success);
    assert_eq!(output.code, Some(1));
    assert!(output.stderr.contains("not found"));
    assert_eq!(output.stderr, "Error: not found\n");
}

#[test]
fn outcome_of_a_process_ended_from_outside() {
    let output = CommandOutput::from_outcome(exited(None, b"half", b""));
    assert!(!output.success);
    assert_eq!(output.code, None);
    assert_eq!(output.stdout, "half");
}

#[test]
fn valid_multibyte_output_is_decoded() {
    let output = CommandOutput::from_outcome(exited(
        Some(0),
        "容器 é ✓".as_bytes(),
        "警告".as_bytes(),
    ));
    assert_eq!(output.stdout, "容器 é ✓");
    assert_eq!(output.stderr, "警告");
}

#[test]
fn invalid_bytes_are_replaced_not_rejected() {
    let output = CommandOutput::from_outcome(exited(Some(0), &[0x66, 0xff, 0x6f], &[0xc3]));
    assert!(output.success);
    assert_eq!(output.stdout, "f\u{fffd}o");
    assert_eq!(output.stderr, "\u{fffd}");
}

#[test]
fn run_command_hands_over_name_and_tokens_untouched() {
    let seen = std::cell::RefCell::new(Vec::new());
    let output = run_command("docker", &["rm", "a b; echo $HOME", "--", "-f"], |cmd, args| {
        seen.borrow_mut().push((
            cmd.to_string(),
            args.iter().map(|s| s.to_string()).collect::<Vec<String>>(),
        ));
        exited(Some(0), b"done", b"")
    });
    assert_eq!(output.stdout, "done");
    let seen = seen.into_inner();
    assert_eq!(seen.len(), 1);
    assert_eq!(seen[0].0, "docker");
    assert_eq!(seen[0].1, vec!["rm", "a b; echo $HOME", "--", "-f"]);
}

#[test]
fn run_command_reports_what_the_launcher_saw() {
    let output = run_command("docker", &["inspect", "nope"], |_, _| {
        exited(Some(1), b"[]\n", b"Error: No such object: nope\n")
    });
    assert!(!output.success);
    assert_eq!(output.code, Some(1));
    assert_eq!(output.stdout, "[]\n");
    assert_eq!(output.stderr, "Error: No such object: nope\n");
}

#[test]
fn run_command_turns_a_failed_launch_into_a_value() {
    let output = run_command("no-such-tool", &[], |_, _| ProcessOutcome::LaunchFailed {
        reason: "No such file or directory (os error 2)".to_string(),
    });
    assert!(!output.success);
    assert_eq!(output.code, None);
    assert_eq!(output.stdout, "");
    assert!(!output.stderr.is_empty());
    assert!(output.stderr.contains("No such file or directory"));
}

#[test]
fn run_with_builder_passes_the_composed_tokens() {
    let mut builder = ArgsBuilder::new(&["logs"]);
    builder.add_opt("--tail", Some(100u32)).add("web");
    let seen = std::cell::RefCell::new(Vec::new());
    let output = run_with_builder("docker", &builder, |cmd, args| {
        seen.borrow_mut().push(cmd.to_string());
        for arg in args {
            seen.borrow_mut().push(arg.to_string());
        }
        exited(Some(0), b"line\n", b"")
    });
    assert!(output.success);
    assert_eq!(output.stdout, "line\n");
    assert_eq!(seen.into_inner(), vec!["docker", "logs", "--tail", "100", "web"]);
}
