//! The catalogue of operations: for each, the tool it runs and the argument
//! vector it composes from its parameters. Optional parameters that are
//! absent leave no token behind, and a required identifier always comes after
//! every optional flag.

use crate::args::{flag_tokens, tokens_of, valued_tokens, ArgsBuilder};
use crate::invoke::{accepts, invoked, run_command, run_with_builder};
use crate::output::{CommandOutput, ProcessOutcome};
use vstd::prelude::*;

verus! {

/// The name of the tool that manages the virtual-machine runtime.
pub open spec fn runtime_tool() -> Seq<char> {
    "colima"@
}

/// The name of the container engine's tool.
pub open spec fn engine_tool() -> Seq<char> {
    "docker"@
}

/// The value of an optional switch: the one given, or `default` when none is.
pub open spec fn switch_or(switch: Option<bool>, default: bool) -> bool {
    match switch {
        Some(on) => on,
        None => default,
    }
}

fn resolve_switch(switch: Option<bool>, default: bool) -> (on: bool)
    ensures
        on == switch_or(switch, default),
{
    match switch {
        Some(on) => on,
        None => default,
    }
}

// ---- the runtime ----

/// The arguments of the status query on the default runtime profile.
pub open spec fn colima_status_tokens() -> Seq<Seq<char>> {
    seq!["status"@, "-p"@, "default"@, "--json"@]
}

/// Asks for the status of the default runtime profile, in machine-readable form.
pub fn colima_status<F: Fn(&str, &[&str]) -> ProcessOutcome>(launch: F) -> (output: CommandOutput)
    requires
        accepts(launch, runtime_tool(), colima_status_tokens()),
    ensures
        invoked(launch, runtime_tool(), colima_status_tokens(), output),
        output.consistent(),
{
    let args = ["status", "-p", "default", "--json"];
    assert(tokens_of(args@) =~= colima_status_tokens());
    run_command("colima", &args, launch)
}

/// The arguments of the listing of runtime instances.
pub open spec fn colima_list_tokens() -> Seq<Seq<char>> {
    seq!["list"@, "--json"@]
}

/// Lists the runtime instances, in machine-readable form.
pub fn colima_list<F: Fn(&str, &[&str]) -> ProcessOutcome>(launch: F) -> (output: CommandOutput)
    requires
        accepts(launch, runtime_tool(), colima_list_tokens()),
    ensures
        invoked(launch, runtime_tool(), colima_list_tokens(), output),
        output.consistent(),
{
    let args = ["list", "--json"];
    assert(tokens_of(args@) =~= colima_list_tokens());
    run_command("colima", &args, launch)
}

/// The arguments that start the runtime: each size that is given follows its
/// flag, in the order processors, memory, disk; a size that is absent is left
/// to the tool.
pub open spec fn colima_start_tokens(cpu: Option<u32>, memory: Option<u32>, disk: Option<u32>) -> Seq<Seq<char>> {
    seq!["start"@]
        + valued_tokens("--cpu"@, cpu)
        + valued_tokens("--memory"@, memory)
        + valued_tokens("--disk"@, disk)
}

/// Starts the runtime with the sizes given.
pub fn colima_start<F: Fn(&str, &[&str]) -> ProcessOutcome>(cpu: Option<u32>,
    memory: Option<u32>,
    disk: Option<u32>, launch: F) -> (output: CommandOutput)
    requires
        accepts(launch, runtime_tool(), colima_start_tokens(cpu, memory, disk)),
    ensures
        invoked(launch, runtime_tool(), colima_start_tokens(cpu, memory, disk), output),
        output.consistent(),
{
    let base = ["start"];
    let mut builder = ArgsBuilder::new(&base);
    builder
        .add_opt("--cpu", cpu)
        .add_opt("--memory", memory)
        .add_opt("--disk", disk);
    assert(builder@ =~= colima_start_tokens(cpu, memory, disk)) by {
        assert(tokens_of(base@) =~= seq!["start"@]);
    }
    run_with_builder("colima", &builder, launch)
}

/// The arguments that stop the runtime.
pub open spec fn colima_stop_tokens() -> Seq<Seq<char>> {
    seq!["stop"@]
}

/// Stops the runtime.
pub fn colima_stop<F: Fn(&str, &[&str]) -> ProcessOutcome>(launch: F) -> (output: CommandOutput)
    requires
        accepts(launch, runtime_tool(), colima_stop_tokens()),
    ensures
        invoked(launch, runtime_tool(), colima_stop_tokens(), output),
        output.consistent(),
{
    let args = ["stop"];
    assert(tokens_of(args@) =~= colima_stop_tokens());
    run_command("colima", &args, launch)
}

/// The arguments that delete the runtime; forced only when asked for.
pub open spec fn colima_delete_tokens(force: Option<bool>) -> Seq<Seq<char>> {
    seq!["delete"@]
        + flag_tokens("--force"@, switch_or(force, false))
}

/// Deletes the runtime.
pub fn colima_delete<F: Fn(&str, &[&str]) -> ProcessOutcome>(force: Option<bool>, launch: F) -> (output: CommandOutput)
    requires
        accepts(launch, runtime_tool(), colima_delete_tokens(force)),
    ensures
        invoked(launch, runtime_tool(), colima_delete_tokens(force), output),
        output.consistent(),
{
    let base = ["delete"];
    let mut builder = ArgsBuilder::new(&base);
    builder.add_flag("--force", resolve_switch(force, false));
    assert(builder@ =~= colima_delete_tokens(force)) by {
        assert(tokens_of(base@) =~= seq!["delete"@]);
    }
    run_with_builder("colima", &builder, launch)
}

// ---- queries on the container engine ----

/// The arguments of the container listing. Stopped containers are included
/// unless `all` is given as `false`.
pub open spec fn docker_container_list_tokens(all: Option<bool>) -> Seq<Seq<char>> {
    seq!["ps"@]
        + flag_tokens("-a"@, switch_or(all, true))
        + seq!["--format"@]
        + seq!["json"@]
}

/// Lists containers, in machine-readable form.
pub fn docker_container_list<F: Fn(&str, &[&str]) -> ProcessOutcome>(all: Option<bool>, launch: F) -> (output: CommandOutput)
    requires
        accepts(launch, engine_tool(), docker_container_list_tokens(all)),
    ensures
        invoked(launch, engine_tool(), docker_container_list_tokens(all), output),
        output.consistent(),
{
    let base = ["ps"];
    let mut builder = ArgsBuilder::new(&base);
    builder
        .add_flag("-a", resolve_switch(all, true))
        .add("--format")
        .add("json");
    assert(builder@ =~= docker_container_list_tokens(all)) by {
        assert(tokens_of(base@) =~= seq!["ps"@]);
    }
    run_with_builder("docker", &builder, launch)
}

/// The arguments of the image listing.
pub open spec fn docker_image_list_tokens() -> Seq<Seq<char>> {
    seq!["images"@, "--format"@, "json"@]
}

/// Lists images, in machine-readable form.
pub fn docker_image_list<F: Fn(&str, &[&str]) -> ProcessOutcome>(launch: F) -> (output: CommandOutput)
    requires
        accepts(launch, engine_tool(), docker_image_list_tokens()),
    ensures
        invoked(launch, engine_tool(), docker_image_list_tokens(), output),
        output.consistent(),
{
    let args = ["images", "--format", "json"];
    assert(tokens_of(args@) =~= docker_image_list_tokens());
    run_command("docker", &args, launch)
}

/// The arguments of the volume listing.
pub open spec fn docker_volume_list_tokens() -> Seq<Seq<char>> {
    seq!["volume"@, "ls"@, "--format"@, "json"@]
}

/// Lists volumes, in machine-readable form.
pub fn docker_volume_list<F: Fn(&str, &[&str]) -> ProcessOutcome>(launch: F) -> (output: CommandOutput)
    requires
        accepts(launch, engine_tool(), docker_volume_list_tokens()),
    ensures
        invoked(launch, engine_tool(), docker_volume_list_tokens(), output),
        output.consistent(),
{
    let args = ["volume", "ls", "--format", "json"];
    assert(tokens_of(args@) =~= docker_volume_list_tokens());
    run_command("docker", &args, launch)
}

/// The arguments of the network listing.
pub open spec fn docker_network_list_tokens() -> Seq<Seq<char>> {
    seq!["network"@, "ls"@, "--format"@, "json"@]
}

/// Lists networks, in machine-readable form.
pub fn docker_network_list<F: Fn(&str, &[&str]) -> ProcessOutcome>(launch: F) -> (output: CommandOutput)
    requires
        accepts(launch, engine_tool(), docker_network_list_tokens()),
    ensures
        invoked(launch, engine_tool(), docker_network_list_tokens(), output),
        output.consistent(),
{
    let args = ["network", "ls", "--format", "json"];
    assert(tokens_of(args@) =~= docker_network_list_tokens());
    run_command("docker", &args, launch)
}

/// The arguments of the engine information query.
pub open spec fn docker_info_tokens() -> Seq<Seq<char>> {
    seq!["info"@, "--format"@, "json"@]
}

/// Asks the engine about itself and its host, in machine-readable form.
pub fn docker_info<F: Fn(&str, &[&str]) -> ProcessOutcome>(launch: F) -> (output: CommandOutput)
    requires
        accepts(launch, engine_tool(), docker_info_tokens()),
    ensures
        invoked(launch, engine_tool(), docker_info_tokens(), output),
        output.consistent(),
{
    let args = ["info", "--format", "json"];
    assert(tokens_of(args@) =~= docker_info_tokens());
    run_command("docker", &args, launch)
}

/// The arguments of the disk usage query.
pub open spec fn docker_disk_usage_tokens() -> Seq<Seq<char>> {
    seq!["system"@, "df"@, "--format"@, "json"@]
}

/// Asks how much disk space the engine uses, in machine-readable form.
pub fn docker_disk_usage<F: Fn(&str, &[&str]) -> ProcessOutcome>(launch: F) -> (output: CommandOutput)
    requires
        accepts(launch, engine_tool(), docker_disk_usage_tokens()),
    ensures
        invoked(launch, engine_tool(), docker_disk_usage_tokens(), output),
        output.consistent(),
{
    let args = ["system", "df", "--format", "json"];
    assert(tokens_of(args@) =~= docker_disk_usage_tokens());
    run_command("docker", &args, launch)
}

/// The arguments of the resource usage query: one sample, no stream.
pub open spec fn docker_stats_tokens() -> Seq<Seq<char>> {
    seq!["stats"@, "--no-stream"@, "--format"@, "json"@]
}

/// Takes one sample of the containers' resource usage, in machine-readable form.
pub fn docker_stats<F: Fn(&str, &[&str]) -> ProcessOutcome>(launch: F) -> (output: CommandOutput)
    requires
        accepts(launch, engine_tool(), docker_stats_tokens()),
    ensures
        invoked(launch, engine_tool(), docker_stats_tokens(), output),
        output.consistent(),
{
    let args = ["stats", "--no-stream", "--format", "json"];
    assert(tokens_of(args@) =~= docker_stats_tokens());
    run_command("docker", &args, launch)
}

// ---- containers ----

/// The arguments that start the container `container_id`.
pub open spec fn docker_container_start_tokens(container_id: Seq<char>) -> Seq<Seq<char>> {
    seq!["start"@, container_id]
}

/// Starts a container.
pub fn docker_container_start<F: Fn(&str, &[&str]) -> ProcessOutcome>(container_id: String, launch: F) -> (output: CommandOutput)
    requires
        accepts(launch, engine_tool(), docker_container_start_tokens(container_id@)),
    ensures
        invoked(launch, engine_tool(), docker_container_start_tokens(container_id@), output),
        output.consistent(),
{
    let args = ["start", container_id.as_str()];
    assert(tokens_of(args@) =~= docker_container_start_tokens(container_id@));
    run_command("docker", &args, launch)
}

/// The arguments that stop the container `container_id`.
pub open spec fn docker_container_stop_tokens(container_id: Seq<char>) -> Seq<Seq<char>> {
    seq!["stop"@, container_id]
}

/// Stops a container.
pub fn docker_container_stop<F: Fn(&str, &[&str]) -> ProcessOutcome>(container_id: String, launch: F) -> (output: CommandOutput)
    requires
        accepts(launch, engine_tool(), docker_container_stop_tokens(container_id@)),
    ensures
        invoked(launch, engine_tool(), docker_container_stop_tokens(container_id@), output),
        output.consistent(),
{
    let args = ["stop", container_id.as_str()];
    assert(tokens_of(args@) =~= docker_container_stop_tokens(container_id@));
    run_command("docker", &args, launch)
}

/// The arguments that restart the container `container_id`.
pub open spec fn docker_container_restart_tokens(container_id: Seq<char>) -> Seq<Seq<char>> {
    seq!["restart"@, container_id]
}

/// Restarts a container.
pub fn docker_container_restart<F: Fn(&str, &[&str]) -> ProcessOutcome>(container_id: String, launch: F) -> (output: CommandOutput)
    requires
        accepts(launch, engine_tool(), docker_container_restart_tokens(container_id@)),
    ensures
        invoked(launch, engine_tool(), docker_container_restart_tokens(container_id@), output),
        output.consistent(),
{
    let args = ["restart", container_id.as_str()];
    assert(tokens_of(args@) =~= docker_container_restart_tokens(container_id@));
    run_command("docker", &args, launch)
}

/// The arguments that remove the container `container_id`; forced only when
/// asked for.
pub open spec fn docker_container_remove_tokens(container_id: Seq<char>, force: Option<bool>) -> Seq<Seq<char>> {
    seq!["rm"@]
        + flag_tokens("-f"@, switch_or(force, false))
        + seq![container_id]
}

/// Removes a container.
pub fn docker_container_remove<F: Fn(&str, &[&str]) -> ProcessOutcome>(container_id: String,
    force: Option<bool>, launch: F) -> (output: CommandOutput)
    requires
        accepts(launch, engine_tool(), docker_container_remove_tokens(container_id@, force)),
    ensures
        invoked(launch, engine_tool(), docker_container_remove_tokens(container_id@, force), output),
        output.consistent(),
{
    let base = ["rm"];
    let mut builder = ArgsBuilder::new(&base);
    builder
        .add_flag("-f", resolve_switch(force, false))
        .add(container_id.as_str());
    assert(builder@ =~= docker_container_remove_tokens(container_id@, force)) by {
        assert(tokens_of(base@) =~= seq!["rm"@]);
    }
    run_with_builder("docker", &builder, launch)
}

/// The arguments that fetch the log of the container `container_id`, limited
/// to its last `tail` lines where a limit is given.
pub open spec fn docker_container_logs_tokens(container_id: Seq<char>, tail: Option<u32>) -> Seq<Seq<char>> {
    seq!["logs"@]
        + valued_tokens("--tail"@, tail)
        + seq![container_id]
}

/// Fetches the log of a container.
pub fn docker_container_logs<F: Fn(&str, &[&str]) -> ProcessOutcome>(container_id: String,
    tail: Option<u32>, launch: F) -> (output: CommandOutput)
    requires
        accepts(launch, engine_tool(), docker_container_logs_tokens(container_id@, tail)),
    ensures
        invoked(launch, engine_tool(), docker_container_logs_tokens(container_id@, tail), output),
        output.consistent(),
{
    let base = ["logs"];
    let mut builder = ArgsBuilder::new(&base);
    builder
        .add_opt("--tail", tail)
        .add(container_id.as_str());
    assert(builder@ =~= docker_container_logs_tokens(container_id@, tail)) by {
        assert(tokens_of(base@) =~= seq!["logs"@]);
    }
    run_with_builder("docker", &builder, launch)
}

// ---- images ----

/// The arguments that pull the image `image`.
pub open spec fn docker_image_pull_tokens(image: Seq<char>) -> Seq<Seq<char>> {
    seq!["pull"@, image]
}

/// Pulls an image.
pub fn docker_image_pull<F: Fn(&str, &[&str]) -> ProcessOutcome>(image: String, launch: F) -> (output: CommandOutput)
    requires
        accepts(launch, engine_tool(), docker_image_pull_tokens(image@)),
    ensures
        invoked(launch, engine_tool(), docker_image_pull_tokens(image@), output),
        output.consistent(),
{
    let args = ["pull", image.as_str()];
    assert(tokens_of(args@) =~= docker_image_pull_tokens(image@));
    run_command("docker", &args, launch)
}

/// The arguments that remove the image `image_id`; forced only when asked
/// for.
pub open spec fn docker_image_remove_tokens(image_id: Seq<char>, force: Option<bool>) -> Seq<Seq<char>> {
    seq!["rmi"@]
        + flag_tokens("-f"@, switch_or(force, false))
        + seq![image_id]
}

/// Removes an image.
pub fn docker_image_remove<F: Fn(&str, &[&str]) -> ProcessOutcome>(image_id: String,
    force: Option<bool>, launch: F) -> (output: CommandOutput)
    requires
        accepts(launch, engine_tool(), docker_image_remove_tokens(image_id@, force)),
    ensures
        invoked(launch, engine_tool(), docker_image_remove_tokens(image_id@, force), output),
        output.consistent(),
{
    let base = ["rmi"];
    let mut builder = ArgsBuilder::new(&base);
    builder
        .add_flag("-f", resolve_switch(force, false))
        .add(image_id.as_str());
    assert(builder@ =~= docker_image_remove_tokens(image_id@, force)) by {
        assert(tokens_of(base@) =~= seq!["rmi"@]);
    }
    run_with_builder("docker", &builder, launch)
}

// ---- volumes ----

/// The arguments that create the volume `name`.
pub open spec fn docker_volume_create_tokens(name: Seq<char>) -> Seq<Seq<char>> {
    seq!["volume"@, "create"@, name]
}

/// Creates a volume.
pub fn docker_volume_create<F: Fn(&str, &[&str]) -> ProcessOutcome>(name: String, launch: F) -> (output: CommandOutput)
    requires
        accepts(launch, engine_tool(), docker_volume_create_tokens(name@)),
    ensures
        invoked(launch, engine_tool(), docker_volume_create_tokens(name@), output),
        output.consistent(),
{
    let args = ["volume", "create", name.as_str()];
    assert(tokens_of(args@) =~= docker_volume_create_tokens(name@));
    run_command("docker", &args, launch)
}

/// The arguments that remove the volume `name`; forced only when asked for.
pub open spec fn docker_volume_remove_tokens(name: Seq<char>, force: Option<bool>) -> Seq<Seq<char>> {
    seq!["volume"@, "rm"@]
        + flag_tokens("-f"@, switch_or(force, false))
        + seq![name]
}

/// Removes a volume.
pub fn docker_volume_remove<F: Fn(&str, &[&str]) -> ProcessOutcome>(name: String,
    force: Option<bool>, launch: F) -> (output: CommandOutput)
    requires
        accepts(launch, engine_tool(), docker_volume_remove_tokens(name@, force)),
    ensures
        invoked(launch, engine_tool(), docker_volume_remove_tokens(name@, force), output),
        output.consistent(),
{
    let base = ["volume", "rm"];
    let mut builder = ArgsBuilder::new(&base);
    builder
        .add_flag("-f", resolve_switch(force, false))
        .add(name.as_str());
    assert(builder@ =~= docker_volume_remove_tokens(name@, force)) by {
        assert(tokens_of(base@) =~= seq!["volume"@, "rm"@]);
    }
    run_with_builder("docker", &builder, launch)
}

// ---- networks ----

/// The arguments that create the network `name`, with the driver named
/// where one is given. The name comes last.
pub open spec fn docker_network_create_tokens(name: Seq<char>, driver: Option<String>) -> Seq<Seq<char>> {
    seq!["network"@, "create"@]
        + valued_tokens("--driver"@, driver)
        + seq![name]
}

/// Creates a network.
pub fn docker_network_create<F: Fn(&str, &[&str]) -> ProcessOutcome>(name: String,
    driver: Option<String>, launch: F) -> (output: CommandOutput)
    requires
        accepts(launch, engine_tool(), docker_network_create_tokens(name@, driver)),
    ensures
        invoked(launch, engine_tool(), docker_network_create_tokens(name@, driver), output),
        output.consistent(),
{
    let base = ["network", "create"];
    let mut builder = ArgsBuilder::new(&base);
    builder
        .add_opt("--driver", driver)
        .add(name.as_str());
    assert(builder@ =~= docker_network_create_tokens(name@, driver)) by {
        assert(tokens_of(base@) =~= seq!["network"@, "create"@]);
    }
    run_with_builder("docker", &builder, launch)
}

/// The arguments that remove the network `name`.
pub open spec fn docker_network_remove_tokens(name: Seq<char>) -> Seq<Seq<char>> {
    seq!["network"@, "rm"@, name]
}

/// Removes a network.
pub fn docker_network_remove<F: Fn(&str, &[&str]) -> ProcessOutcome>(name: String, launch: F) -> (output: CommandOutput)
    requires
        accepts(launch, engine_tool(), docker_network_remove_tokens(name@)),
    ensures
        invoked(launch, engine_tool(), docker_network_remove_tokens(name@), output),
        output.consistent(),
{
    let args = ["network", "rm", name.as_str()];
    assert(tokens_of(args@) =~= docker_network_remove_tokens(name@));
    run_command("docker", &args, launch)
}

} // verus!
