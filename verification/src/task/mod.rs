//! The task service: it keeps the containers that the runtime knows, and runs the
//! runtime's commands for them.
use vstd::prelude::*;

pub mod dispatcher;
pub mod error;
pub mod laws;
pub mod worker;

verus! {

/// Where the task service listens.
pub const TASK_SERVICE_SOCKET: &'static str = "/tmp/feos/task_service.sock";

/// Asks for a container to be created from a bundle.
#[derive(Debug)]
pub struct CreateRequest {
    pub container_id: String,
    pub bundle_path: String,
    pub stdin_path: String,
    pub stdout_path: String,
    pub stderr_path: String,
}

/// Says which process a created container has.
#[derive(Debug)]
pub struct CreateResponse {
    pub pid: i64,
}

/// Asks for a container to be started.
#[derive(Debug)]
pub struct StartRequest {
    pub container_id: String,
}

/// Asks for a signal to be sent to a container.
#[derive(Debug)]
pub struct KillRequest {
    pub container_id: String,
    pub signal: u32,
}

/// Asks for a container to be deleted.
#[derive(Debug)]
pub struct DeleteRequest {
    pub container_id: String,
}

/// Asks to be told when a container has stopped.
#[derive(Debug)]
pub struct WaitRequest {
    pub container_id: String,
}

/// Says how a container has ended.
#[derive(Debug)]
pub struct WaitResponse {
    pub exit_code: i32,
}

/// The stages of a container's life.
#[derive(Clone, Copy, Debug, PartialEq, Eq, Structural)]
pub enum Status {
    Creating,
    Created,
    Running,
    Stopped,
}

impl Status {
    /// The stage's name in messages.
    pub open spec fn label(self) -> Seq<char> {
        match self {
            Status::Creating => "Creating"@,
            Status::Created => "Created"@,
            Status::Running => "Running"@,
            Status::Stopped => "Stopped"@,
        }
    }

    /// The stage's name in messages.
    pub fn name(self) -> (r: &'static str)
        ensures
            r@ == self.label(),
    {
        match self {
            Status::Creating => "Creating",
            Status::Created => "Created",
            Status::Running => "Running",
            Status::Stopped => "Stopped",
        }
    }
}

/// What the service keeps of a container. Whoever waits for it to stop is known by
/// a number.
#[derive(Debug)]
pub struct Container {
    pub status: Status,
    pub pid: Option<i32>,
    pub bundle_path: String,
    pub exit_code: Option<i32>,
    pub waiter: Option<u64>,
}

/// What the service can be asked for.
#[derive(Debug)]
pub enum Command {
    Create(CreateRequest),
    Start(StartRequest),
    Kill(KillRequest),
    Delete(DeleteRequest),
    /// Who waits is known by the number.
    Wait(WaitRequest, u64),
}

/// What the workers report.
#[derive(Debug)]
pub enum Event {
    ContainerCreated { id: String, pid: i32 },
    ContainerCreateFailed { id: String, error: error::TaskError },
    ContainerStarted { id: String },
    ContainerStartFailed { id: String, error: error::TaskError },
    ContainerStopped { id: String, exit_code: i32 },
    ContainerDeleted { id: String },
}

} // verus!
