//! The operations as values: one request type that names every operation of
//! the catalogue with its parameters, and one function that carries a request
//! out. A dispatcher can be built on it without any registration at run time.

use crate::invoke::{accepts, invoked};
use crate::ops::{
    colima_delete, colima_delete_tokens, colima_list, colima_list_tokens, colima_start,
    colima_start_tokens, colima_status, colima_status_tokens, colima_stop, colima_stop_tokens,
    docker_container_list, docker_container_list_tokens, docker_container_logs,
    docker_container_logs_tokens, docker_container_remove, docker_container_remove_tokens,
    docker_container_restart, docker_container_restart_tokens, docker_container_start,
    docker_container_start_tokens, docker_container_stop, docker_container_stop_tokens,
    docker_disk_usage, docker_disk_usage_tokens, docker_image_list, docker_image_list_tokens,
    docker_image_pull, docker_image_pull_tokens, docker_image_remove, docker_image_remove_tokens,
    docker_info, docker_info_tokens, docker_network_create, docker_network_create_tokens,
    docker_network_list, docker_network_list_tokens, docker_network_remove,
    docker_network_remove_tokens, docker_stats, docker_stats_tokens, docker_volume_create,
    docker_volume_create_tokens, docker_volume_list, docker_volume_list_tokens,
    docker_volume_remove, docker_volume_remove_tokens, engine_tool, runtime_tool,
};
use crate::output::{CommandOutput, ProcessOutcome};
use vstd::prelude::*;

verus! {

/// One operation of the catalogue, with its parameters.
#[derive(Debug)]
pub enum Request {
    /// The status of the default runtime profile.
    ColimaStatus,
    /// The runtime instances.
    ColimaList,
    /// Start the runtime.
    ColimaStart { cpu: Option<u32>, memory: Option<u32>, disk: Option<u32> },
    /// Stop the runtime.
    ColimaStop,
    /// Delete the runtime.
    ColimaDelete { force: Option<bool> },
    /// The containers.
    DockerContainerList { all: Option<bool> },
    /// The images.
    DockerImageList,
    /// The volumes.
    DockerVolumeList,
    /// The networks.
    DockerNetworkList,
    /// The engine and its host.
    DockerInfo,
    /// The disk space in use.
    DockerDiskUsage,
    /// One sample of resource usage.
    DockerStats,
    /// Start a container.
    DockerContainerStart { container_id: String },
    /// Stop a container.
    DockerContainerStop { container_id: String },
    /// Restart a container.
    DockerContainerRestart { container_id: String },
    /// Remove a container.
    DockerContainerRemove { container_id: String, force: Option<bool> },
    /// The log of a container.
    DockerContainerLogs { container_id: String, tail: Option<u32> },
    /// Pull an image.
    DockerImagePull { image: String },
    /// Remove an image.
    DockerImageRemove { image_id: String, force: Option<bool> },
    /// Create a volume.
    DockerVolumeCreate { name: String },
    /// Remove a volume.
    DockerVolumeRemove { name: String, force: Option<bool> },
    /// Create a network.
    DockerNetworkCreate { name: String, driver: Option<String> },
    /// Remove a network.
    DockerNetworkRemove { name: String },
}

impl Request {
    /// The name under which the operation is offered.
    pub open spec fn name_text(&self) -> Seq<char> {
        match self {
            Request::ColimaStatus => "colima_status"@,
            Request::ColimaList => "colima_list"@,
            Request::ColimaStart { .. } => "colima_start"@,
            Request::ColimaStop => "colima_stop"@,
            Request::ColimaDelete { .. } => "colima_delete"@,
            Request::DockerContainerList { .. } => "docker_container_list"@,
            Request::DockerImageList => "docker_image_list"@,
            Request::DockerVolumeList => "docker_volume_list"@,
            Request::DockerNetworkList => "docker_network_list"@,
            Request::DockerInfo => "docker_info"@,
            Request::DockerDiskUsage => "docker_disk_usage"@,
            Request::DockerStats => "docker_stats"@,
            Request::DockerContainerStart { .. } => "docker_container_start"@,
            Request::DockerContainerStop { .. } => "docker_container_stop"@,
            Request::DockerContainerRestart { .. } => "docker_container_restart"@,
            Request::DockerContainerRemove { .. } => "docker_container_remove"@,
            Request::DockerContainerLogs { .. } => "docker_container_logs"@,
            Request::DockerImagePull { .. } => "docker_image_pull"@,
            Request::DockerImageRemove { .. } => "docker_image_remove"@,
            Request::DockerVolumeCreate { .. } => "docker_volume_create"@,
            Request::DockerVolumeRemove { .. } => "docker_volume_remove"@,
            Request::DockerNetworkCreate { .. } => "docker_network_create"@,
            Request::DockerNetworkRemove { .. } => "docker_network_remove"@,
        }
    }

    /// The tool that the operation runs.
    pub open spec fn tool(&self) -> Seq<char> {
        match self {
            Request::ColimaStatus => runtime_tool(),
            Request::ColimaList => runtime_tool(),
            Request::ColimaStart { .. } => runtime_tool(),
            Request::ColimaStop => runtime_tool(),
            Request::ColimaDelete { .. } => runtime_tool(),
            _ => engine_tool(),
        }
    }

    /// The argument vector that the operation composes.
    pub open spec fn tokens(&self) -> Seq<Seq<char>> {
        match self {
            Request::ColimaStatus => colima_status_tokens(),
            Request::ColimaList => colima_list_tokens(),
            Request::ColimaStart { cpu, memory, disk } => colima_start_tokens(*cpu, *memory, *disk),
            Request::ColimaStop => colima_stop_tokens(),
            Request::ColimaDelete { force } => colima_delete_tokens(*force),
            Request::DockerContainerList { all } => docker_container_list_tokens(*all),
            Request::DockerImageList => docker_image_list_tokens(),
            Request::DockerVolumeList => docker_volume_list_tokens(),
            Request::DockerNetworkList => docker_network_list_tokens(),
            Request::DockerInfo => docker_info_tokens(),
            Request::DockerDiskUsage => docker_disk_usage_tokens(),
            Request::DockerStats => docker_stats_tokens(),
            Request::DockerContainerStart { container_id } => docker_container_start_tokens(container_id@),
            Request::DockerContainerStop { container_id } => docker_container_stop_tokens(container_id@),
            Request::DockerContainerRestart { container_id } => docker_container_restart_tokens(container_id@),
            Request::DockerContainerRemove { container_id, force } => docker_container_remove_tokens(container_id@, *force),
            Request::DockerContainerLogs { container_id, tail } => docker_container_logs_tokens(container_id@, *tail),
            Request::DockerImagePull { image } => docker_image_pull_tokens(image@),
            Request::DockerImageRemove { image_id, force } => docker_image_remove_tokens(image_id@, *force),
            Request::DockerVolumeCreate { name } => docker_volume_create_tokens(name@),
            Request::DockerVolumeRemove { name, force } => docker_volume_remove_tokens(name@, *force),
            Request::DockerNetworkCreate { name, driver } => docker_network_create_tokens(name@, *driver),
            Request::DockerNetworkRemove { name } => docker_network_remove_tokens(name@),
        }
    }

    /// The name under which the operation is offered.
    pub fn name(&self) -> (name: &'static str)
        ensures
            name@ == self.name_text(),
    {
        match self {
            Request::ColimaStatus => "colima_status",
            Request::ColimaList => "colima_list",
            Request::ColimaStart { .. } => "colima_start",
            Request::ColimaStop => "colima_stop",
            Request::ColimaDelete { .. } => "colima_delete",
            Request::DockerContainerList { .. } => "docker_container_list",
            Request::DockerImageList => "docker_image_list",
            Request::DockerVolumeList => "docker_volume_list",
            Request::DockerNetworkList => "docker_network_list",
            Request::DockerInfo => "docker_info",
            Request::DockerDiskUsage => "docker_disk_usage",
            Request::DockerStats => "docker_stats",
            Request::DockerContainerStart { .. } => "docker_container_start",
            Request::DockerContainerStop { .. } => "docker_container_stop",
            Request::DockerContainerRestart { .. } => "docker_container_restart",
            Request::DockerContainerRemove { .. } => "docker_container_remove",
            Request::DockerContainerLogs { .. } => "docker_container_logs",
            Request::DockerImagePull { .. } => "docker_image_pull",
            Request::DockerImageRemove { .. } => "docker_image_remove",
            Request::DockerVolumeCreate { .. } => "docker_volume_create",
            Request::DockerVolumeRemove { .. } => "docker_volume_remove",
            Request::DockerNetworkCreate { .. } => "docker_network_create",
            Request::DockerNetworkRemove { .. } => "docker_network_remove",
        }
    }

    /// Carries the request out through `launch` and reports the outcome.
    pub fn dispatch<F: Fn(&str, &[&str]) -> ProcessOutcome>(
        self,
        launch: F,
    ) -> (output: CommandOutput)
        requires
            accepts(launch, self.tool(), self.tokens()),
        ensures
            invoked(launch, self.tool(), self.tokens(), output),
            output.consistent(),
    {
        match self {
            Request::ColimaStatus => colima_status(launch),
            Request::ColimaList => colima_list(launch),
            Request::ColimaStart { cpu, memory, disk } => colima_start(cpu, memory, disk, launch),
            Request::ColimaStop => colima_stop(launch),
            Request::ColimaDelete { force } => colima_delete(force, launch),
            Request::DockerContainerList { all } => docker_container_list(all, launch),
            Request::DockerImageList => docker_image_list(launch),
            Request::DockerVolumeList => docker_volume_list(launch),
            Request::DockerNetworkList => docker_network_list(launch),
            Request::DockerInfo => docker_info(launch),
            Request::DockerDiskUsage => docker_disk_usage(launch),
            Request::DockerStats => docker_stats(launch),
            Request::DockerContainerStart { container_id } => docker_container_start(container_id, launch),
            Request::DockerContainerStop { container_id } => docker_container_stop(container_id, launch),
            Request::DockerContainerRestart { container_id } => docker_container_restart(container_id, launch),
            Request::DockerContainerRemove { container_id, force } => docker_container_remove(container_id, force, launch),
            Request::DockerContainerLogs { container_id, tail } => docker_container_logs(container_id, tail, launch),
            Request::DockerImagePull { image } => docker_image_pull(image, launch),
            Request::DockerImageRemove { image_id, force } => docker_image_remove(image_id, force, launch),
            Request::DockerVolumeCreate { name } => docker_volume_create(name, launch),
            Request::DockerVolumeRemove { name, force } => docker_volume_remove(name, force, launch),
            Request::DockerNetworkCreate { name, driver } => docker_network_create(name, driver, launch),
            Request::DockerNetworkRemove { name } => docker_network_remove(name, launch),
        }
    }
}

} // verus!
