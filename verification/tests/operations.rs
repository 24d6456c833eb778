use colima_ctl::ops::{
    colima_delete, colima_list, colima_start, colima_status, colima_stop, docker_container_list,
    docker_container_logs, docker_container_remove, docker_container_restart,
    docker_container_start, docker_container_stop, docker_disk_usage, docker_image_list,
    docker_image_pull, docker_image_remove, docker_info, docker_network_create,
    docker_network_list, docker_network_remove, docker_stats, docker_volume_create,
    docker_volume_list, docker_volume_remove,
};
use colima_ctl::{CommandOutput, ProcessOutcome};
use std::cell::RefCell;

/// Runs `operation` with a launcher that notes what it is asked to run and
/// answers with a clean exit; gives back the one command line it saw.
fn observe<R>(operation: R) -> Vec<String>
where
    R: FnOnce(&dyn Fn(&str, &[&str]) -> ProcessOutcome) -> CommandOutput,
{
    let seen: RefCell<Vec<Vec<String>>> = RefCell::new(Vec::new());
    let launch = |cmd: &str, args: &[&str]| {
        let mut line = vec![cmd.to_string()];
        line.extend(args.iter().map(|s| s.to_string()));
        seen.borrow_mut().push(line);
        ProcessOutcome::Exited { code: Some(0), stdout: b"{}".to_vec(), stderr: Vec::new() }
    };
    let output = operation(&launch);
    assert!(output.success);
    assert_eq!(output.code, Some(0));
    assert_eq!(output.stdout, "{}");
    let mut seen = seen.into_inner();
    assert_eq!(seen.len(), 1);
    seen.remove(0)
}

#[test]
fn runtime_status_and_list() {
    assert_eq!(
        observe(|l| colima_status(l)),
        vec!["colima", "status", "-p", "default", "--json"]
    );
    assert_eq!(observe(|l| colima_list(l)), vec!["colima", "list", "--json"]);
}

#[test]
fn runtime_start_with_cpu_and_disk() {
    assert_eq!(
        observe(|l| colima_start(Some(4), None, Some(60), l)),
        vec!["colima", "start", "--cpu", "4", "--disk", "60"]
    );
}

#[test]
fn runtime_start_with_every_size() {
    assert_eq!(
        observe(|l| colima_start(Some(2), Some(8), Some(100), l)),
        vec!["colima", "start", "--cpu", "2", "--memory", "8", "--disk", "100"]
    );
}

#[test]
fn runtime_start_with_no_size() {
    assert_eq!(observe(|l| colima_start(None, None, None, l)), vec!["colima", "start"]);
}

#[test]
fn runtime_start_with_memory_only() {
    assert_eq!(
        observe(|l| colima_start(None, Some(16), None, l)),
        vec!["colima", "start", "--memory", "16"]
    );
}

#[test]
fn runtime_stop() {
    assert_eq!(observe(|l| colima_stop(l)), vec!["colima", "stop"]);
}

#[test]
fn runtime_delete_is_forced_only_on_request() {
    assert_eq!(observe(|l| colima_delete(Some(true), l)), vec!["colima", "delete", "--force"]);
    assert_eq!(observe(|l| colima_delete(Some(false), l)), vec!["colima", "delete"]);
    assert_eq!(observe(|l| colima_delete(None, l)), vec!["colima", "delete"]);
}

#[test]
fn container_list_includes_stopped_ones_by_default() {
    assert_eq!(
        observe(|l| docker_container_list(None, l)),
        vec!["docker", "ps", "-a", "--format", "json"]
    );
    assert_eq!(
        observe(|l| docker_container_list(Some(true), l)),
        vec!["docker", "ps", "-a", "--format", "json"]
    );
}

#[test]
fn container_list_without_stopped_ones() {
    let line = observe(|l| docker_container_list(Some(false), l));
    assert_eq!(line, vec!["docker", "ps", "--format", "json"]);
    assert!(!line.contains(&"-a".to_string()));
}

#[test]
fn engine_queries() {
    assert_eq!(observe(|l| docker_image_list(l)), vec!["docker", "images", "--format", "json"]);
    assert_eq!(
        observe(|l| docker_volume_list(l)),
        vec!["docker", "volume", "ls", "--format", "json"]
    );
    assert_eq!(
        observe(|l| docker_network_list(l)),
        vec!["docker", "network", "ls", "--format", "json"]
    );
    assert_eq!(observe(|l| docker_info(l)), vec!["docker", "info", "--format", "json"]);
    assert_eq!(
        observe(|l| docker_disk_usage(l)),
        vec!["docker", "system", "df", "--format", "json"]
    );
    assert_eq!(
        observe(|l| docker_stats(l)),
        vec!["docker", "stats", "--no-stream", "--format", "json"]
    );
}

#[test]
fn container_start_stop_restart() {
    assert_eq!(
        observe(|l| docker_container_start("abc123".to_string(), l)),
        vec!["docker", "start", "abc123"]
    );
    assert_eq!(
        observe(|l| docker_container_stop("abc123".to_string(), l)),
        vec!["docker", "stop", "abc123"]
    );
    assert_eq!(
        observe(|l| docker_container_restart("abc123".to_string(), l)),
        vec!["docker", "restart", "abc123"]
    );
}

#[test]
fn container_remove_forced() {
    assert_eq!(
        observe(|l| docker_container_remove("abc123".to_string(), Some(true), l)),
        vec!["docker", "rm", "-f", "abc123"]
    );
}

#[test]
fn container_remove_not_forced() {
    assert_eq!(
        observe(|l| docker_container_remove("abc123".to_string(), None, l)),
        vec!["docker", "rm", "abc123"]
    );
    assert_eq!(
        observe(|l| docker_container_remove("abc123".to_string(), Some(false), l)),
        vec!["docker", "rm", "abc123"]
    );
}

#[test]
fn container_logs_with_and_without_a_limit() {
    assert_eq!(
        observe(|l| docker_container_logs("web".to_string(), Some(200), l)),
        vec!["docker", "logs", "--tail", "200", "web"]
    );
    assert_eq!(
        observe(|l| docker_container_logs("web".to_string(), None, l)),
        vec!["docker", "logs", "web"]
    );
    assert_eq!(
        observe(|l| docker_container_logs("web".to_string(), Some(0), l)),
        vec!["docker", "logs", "--tail", "0", "web"]
    );
}

#[test]
fn image_pull_and_remove() {
    assert_eq!(
        observe(|l| docker_image_pull("nginx:latest".to_string(), l)),
        vec!["docker", "pull", "nginx:latest"]
    );
    assert_eq!(
        observe(|l| docker_image_remove("sha256:0f".to_string(), Some(true), l)),
        vec!["docker", "rmi", "-f", "sha256:0f"]
    );
    assert_eq!(
        observe(|l| docker_image_remove("sha256:0f".to_string(), None, l)),
        vec!["docker", "rmi", "sha256:0f"]
    );
}

#[test]
fn volume_create_and_remove() {
    assert_eq!(
        observe(|l| docker_volume_create("data".to_string(), l)),
        vec!["docker", "volume", "create", "data"]
    );
    assert_eq!(
        observe(|l| docker_volume_remove("data".to_string(), Some(true), l)),
        vec!["docker", "volume", "rm", "-f", "data"]
    );
    assert_eq!(
        observe(|l| docker_volume_remove("data".to_string(), Some(false), l)),
        vec!["docker", "volume", "rm", "data"]
    );
}

#[test]
fn network_create_with_a_driver_puts_the_name_last() {
    assert_eq!(
        observe(|l| docker_network_create("net1".to_string(), Some("bridge".to_string()), l)),
        vec!["docker", "network", "create", "--driver", "bridge", "net1"]
    );
}

#[test]
fn network_create_without_a_driver() {
    assert_eq!(
        observe(|l| docker_network_create("net1".to_string(), None, l)),
        vec!["docker", "network", "create", "net1"]
    );
}

#[test]
fn network_remove() {
    assert_eq!(
        observe(|l| docker_network_remove("net1".to_string(), l)),
        vec!["docker", "network", "rm", "net1"]
    );
}

#[test]
fn identifier_is_one_token_whatever_it_holds() {
    assert_eq!(
        observe(|l| docker_container_remove("a b; rm -rf /".to_string(), Some(true), l)),
        vec!["docker", "rm", "-f", "a b; rm -rf /"]
    );
    assert_eq!(
        observe(|l| docker_volume_create("".to_string(), l)),
        vec!["docker", "volume", "create", ""]
    );
}

#[test]
fn operation_reports_a_failure_of_the_tool() {
    let output = docker_container_start("ghost".to_string(), |_: &str, _: &[&str]| {
        ProcessOutcome::Exited {
            code: Some(1),
            stdout: Vec::new(),
            stderr: b"Error response from daemon: No such container: ghost\nnot found\n".to_vec(),
        }
    });
    assert!(!output.success);
    assert_eq!(output.code, Some(1));
    assert!(output.stderr.contains("not found"));
}

#[test]
fn operation_reports_a_tool_that_cannot_be_started() {
    let output = colima_status(|_: &str, _: &[&str]| ProcessOutcome::LaunchFailed {
        reason: "No such file or directory (os error 2)".to_string(),
    });
    assert!(!output.success);
    assert_eq!(output.code, None);
    assert_eq!(output.stdout, "");
    assert!(!output.stderr.is_empty());
}
