//! The container service: its messages, the records it keeps, the decisions of
//! its dispatcher and workers, and the runtime configuration that it generates.
use crate::rpc::{Code, RpcStatus};
use vstd::prelude::*;

pub mod dispatcher;
pub mod error;
pub mod laws;
pub mod message_laws;
pub mod persistence;
pub mod runtime;
pub mod service_laws;
pub mod worker;

verus! {

/// Where the container database lies.
pub const DEFAULT_CONTAINER_DB_URL: &'static str = "sqlite:/var/lib/feos/containers.db";

/// The stages of a container's life.
#[derive(Clone, Copy, Debug, PartialEq, Eq, Structural)]
pub enum ContainerState {
    Unspecified,
    PullingImage,
    Created,
    Running,
    Stopped,
}

impl ContainerState {
    /// The state's name in messages.
    pub open spec fn label(self) -> Seq<char> {
        match self {
            ContainerState::Unspecified => "Unspecified"@,
            ContainerState::PullingImage => "PullingImage"@,
            ContainerState::Created => "Created"@,
            ContainerState::Running => "Running"@,
            ContainerState::Stopped => "Stopped"@,
        }
    }

    /// The state's name in messages.
    pub fn name(self) -> (r: &'static str)
        ensures
            r@ == self.label(),
    {
        match self {
            ContainerState::Unspecified => "Unspecified",
            ContainerState::PullingImage => "PullingImage",
            ContainerState::Created => "Created",
            ContainerState::Running => "Running",
            ContainerState::Stopped => "Stopped",
        }
    }
}

/// What a container is made of.
#[derive(Debug)]
pub struct ContainerConfig {
    pub image_ref: String,
    pub command: Vec<String>,
    pub env: Vec<(String, String)>,
}

impl ContainerConfig {
    /// Whether two configurations are the same.
    pub open spec fn same(self, other: ContainerConfig) -> bool {
        &&& self.image_ref == other.image_ref
        &&& self.command@ == other.command@
        &&& self.env@ == other.env@
    }

    /// The same configuration once more.
    pub fn copy(&self) -> (r: ContainerConfig)
        ensures
            r.same(*self),
    {
        let mut command: Vec<String> = Vec::new();
        for i in 0..self.command.len()
            invariant
                command@ == self.command@.take(i as int),
        {
            command.push(self.command[i].clone());
            assert(command@ =~= self.command@.take(i + 1));
        }
        let mut env: Vec<(String, String)> = Vec::new();
        for i in 0..self.env.len()
            invariant
                env@ == self.env@.take(i as int),
        {
            env.push((self.env[i].0.clone(), self.env[i].1.clone()));
            assert(env@ =~= self.env@.take(i + 1));
        }
        assert(command@ =~= self.command@);
        assert(env@ =~= self.env@);
        ContainerConfig { image_ref: self.image_ref.clone(), command, env }
    }
}

/// Asks for a container; without an identifier of its own it gets a fresh one.
#[derive(Debug)]
pub struct CreateContainerRequest {
    pub config: Option<ContainerConfig>,
    pub container_id: Option<String>,
}

/// Says which container is being created.
#[derive(Debug)]
pub struct CreateContainerResponse {
    pub container_id: String,
}

/// Asks for a container to be started.
#[derive(Debug)]
pub struct StartContainerRequest {
    pub container_id: String,
}

/// Asks for a container to be stopped by a signal.
#[derive(Debug)]
pub struct StopContainerRequest {
    pub container_id: String,
    pub signal: Option<u32>,
    pub timeout_seconds: Option<u32>,
}

/// Asks for a container to be removed.
#[derive(Debug)]
pub struct DeleteContainerRequest {
    pub container_id: String,
}

/// Asks for what is known of a container.
#[derive(Debug)]
pub struct GetContainerRequest {
    pub container_id: String,
}

/// What is known of a container.
#[derive(Debug)]
pub struct ContainerInfo {
    pub container_id: String,
    pub state: ContainerState,
    pub config: Option<ContainerConfig>,
    pub pid: Option<i64>,
    pub exit_code: Option<i32>,
}

/// What is known of every container.
#[derive(Debug)]
pub struct ListContainersResponse {
    pub containers: Vec<ContainerInfo>,
}

/// What the service can be asked for.
#[derive(Debug)]
pub enum Command {
    CreateContainer(CreateContainerRequest),
    StartContainer(StartContainerRequest),
    StopContainer(StopContainerRequest),
    GetContainer(GetContainerRequest),
    ListContainers,
    DeleteContainer(DeleteContainerRequest),
}

/// The answer to a request for the logs of a container.
pub fn stream_container_logs() -> (s: RpcStatus)
    ensures
        s.says(Code::Unimplemented, "Not yet implemented"@),
{
    RpcStatus::new(Code::Unimplemented, "Not yet implemented")
}

/// The answer to a request for the events of a container.
pub fn stream_container_events() -> (s: RpcStatus)
    ensures
        s.says(Code::Unimplemented, "Not yet implemented"@),
{
    RpcStatus::new(Code::Unimplemented, "Not yet implemented")
}

} // verus!
