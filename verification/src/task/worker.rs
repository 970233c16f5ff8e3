//! The workers of the task service: the runtime's commands, and what their results
//! amount to.
use crate::task::error::TaskError;
use crate::task::{CreateRequest, CreateResponse, DeleteRequest, Event, KillRequest, StartRequest};
use crate::text;
use vstd::prelude::*;

verus! {

/// The runtime's command.
pub const YOUKI_BIN: &'static str = "youki";

/// What `String::from_utf8_lossy` gives for some bytes.
pub uninterp spec fn lossy_text(bytes: Seq<u8>) -> Seq<char>;

/// Whether bytes are ASCII, and a text holds the same characters.
pub open spec fn ascii_as(bytes: Seq<u8>, s: Seq<char>) -> bool {
    (forall|i: int| 0 <= i < bytes.len() ==> #[trigger] bytes[i] < 128) ==> s == Seq::new(
        bytes.len(),
        |i: int| bytes[i] as char,
    )
}

/// Calls `String::from_utf8_lossy`: the text that the bytes encode in UTF-8, with a
/// replacement character for what is no UTF-8. Stated of ASCII alone; for other bytes
/// only that the text depends on them alone.
#[verifier::external_body]
fn from_utf8_lossy(bytes: &Vec<u8>) -> (r: String)
    ensures
        r@ == lossy_text(bytes@),
        ascii_as(bytes@, r@),
{
    String::from_utf8_lossy(bytes).into_owned()
}

/// What came of a command of the runtime.
pub enum CommandOutcome {
    /// It could not be executed.
    NotExecuted(String),
    /// It ended; what its status reads as, and what it wrote.
    Exited { success: bool, status: String, stdout: Vec<u8>, stderr: Vec<u8> },
}

/// What a command of the runtime comes to.
pub open spec fn command_result(outcome: CommandOutcome, r: Result<(), TaskError>) -> bool {
    match outcome {
        CommandOutcome::NotExecuted(e) => r matches Err(TaskError::YoukiCommand(m)) && m@
            == "Failed to execute youki process: "@ + e@,
        CommandOutcome::Exited { success, status, stdout, stderr } => if success {
            r == Ok::<(), TaskError>(())
        } else {
            r matches Err(TaskError::YoukiCommand(m)) && m@ == "youki exited with code "@ + status@
                + ": stderr='"@ + lossy_text(stderr@) + "', stdout='"@ + lossy_text(stdout@) + "'"@
        },
    }
}

/// What a command of the runtime comes to.
pub fn run_youki_command(outcome: CommandOutcome) -> (r: Result<(), TaskError>)
    ensures
        command_result(outcome, r),
{
    match outcome {
        CommandOutcome::NotExecuted(e) => Err(
            TaskError::YoukiCommand(text::cat2("Failed to execute youki process: ", e.as_str())),
        ),
        CommandOutcome::Exited { success, status, stdout, stderr } => if success {
            Ok(())
        } else {
            let err = from_utf8_lossy(&stderr);
            let out = from_utf8_lossy(&stdout);
            Err(
                TaskError::YoukiCommand(
                    text::cat4(
                        text::cat4(
                            "youki exited with code ",
                            status.as_str(),
                            ": stderr='",
                            err.as_str(),
                        ).as_str(),
                        "', stdout='",
                        out.as_str(),
                        "'",
                    ),
                ),
            )
        },
    }
}

/// The file that the runtime writes the process of a created container to.
pub open spec fn pid_file(bundle_path: Seq<char>) -> Seq<char> {
    bundle_path + "/container.pid"@
}

/// How far the creation of a container has come, and what the last step gave.
pub enum CreateProgress {
    Accepted,
    /// Whether the runtime could be started.
    Spawned(Result<(), String>),
    /// Whether the runtime succeeded, and what its status reads as.
    Waited(Result<(bool, String), String>),
    /// What the file with the process holds.
    PidRead(Result<String, String>),
    /// Whether the file with the process could be removed.
    PidFileRemoved { pid: i32, removed: Result<(), String> },
}

/// What to do next to create a container.
pub enum CreateAction {
    /// Start the runtime with these arguments.
    Spawn(Vec<String>),
    /// Wait for the runtime to end.
    Wait,
    /// Read the file with the process.
    ReadPidFile(String),
    /// Remove the file with the process.
    RemovePidFile { path: String, pid: i32 },
    /// Report to the dispatcher, and answer the client.
    Finish { event: Event, answer: Result<CreateResponse, TaskError> },
}

/// Whether the creation fails with this error, which is reported and answered.
pub open spec fn create_fails(action: CreateAction, id: Seq<char>, e: TaskError) -> bool {
    &&& action matches CreateAction::Finish {
        event: Event::ContainerCreateFailed { id: i, error },
        answer: Err(answered),
    }
    &&& i@ == id
    &&& error.same_as(e)
    &&& answered == e
}

/// Whether the creation fails because of the runtime.
pub open spec fn runtime_fails(action: CreateAction, id: Seq<char>, message: Seq<char>) -> bool {
    exists|m: String| m@ == message && #[trigger] create_fails(
        action,
        id,
        TaskError::YoukiCommand(m),
    )
}

/// Whether the creation fails after the runtime succeeded.
pub open spec fn pid_fails(action: CreateAction, id: Seq<char>, message: Seq<char>) -> bool {
    exists|m: String| m@ == message && #[trigger] create_fails(action, id, TaskError::Internal(m))
}

/// The next step of a container's creation.
pub open spec fn create_next(
    req: CreateRequest,
    progress: CreateProgress,
    action: CreateAction,
) -> bool {
    let id = req.container_id@;
    match progress {
        CreateProgress::Accepted => action matches CreateAction::Spawn(args) && text::views(args@)
            == seq![
            "create"@,
            "--bundle"@,
            req.bundle_path@,
            "--pid-file"@,
            pid_file(req.bundle_path@),
            id,
        ],
        CreateProgress::Spawned(Ok(_)) => action == CreateAction::Wait,
        CreateProgress::Spawned(Err(e)) => runtime_fails(
            action,
            id,
            "Failed to spawn youki create: "@ + e@,
        ),
        CreateProgress::Waited(Err(e)) => runtime_fails(
            action,
            id,
            "Failed to wait for youki create process: "@ + e@,
        ),
        CreateProgress::Waited(Ok((success, status))) => if success {
            action matches CreateAction::ReadPidFile(path) && path@ == pid_file(req.bundle_path@)
        } else {
            runtime_fails(action, id, "youki create exited with non-zero status: "@ + status@)
        },
        CreateProgress::PidRead(Err(e)) => pid_fails(
            action,
            id,
            "Could not read pid file: "@ + e@,
        ),
        CreateProgress::PidRead(Ok(content)) => match text::signed_number(
            text::trimmed(content@),
        ) {
            Ok(n) => action matches CreateAction::RemovePidFile { path, pid } && path@ == pid_file(
                req.bundle_path@,
            ) && pid == n,
            Err(e) => pid_fails(action, id, "Failed to parse PID from file: "@ + e.text()),
        },
        CreateProgress::PidFileRemoved { pid, removed } => match removed {
            Ok(_) => {
                &&& action matches CreateAction::Finish {
                    event: Event::ContainerCreated { id: i, pid: p },
                    answer: Ok(response),
                }
                &&& i@ == id
                &&& p == pid
                &&& response.pid == pid
            },
            Err(e) => pid_fails(action, id, "Could not remove pid file: "@ + e@),
        },
    }
}

fn fail_create(id: &str, error: TaskError) -> (action: CreateAction)
    ensures
        create_fails(action, id@, error),
{
    let reported = error.duplicate();
    CreateAction::Finish {
        event: Event::ContainerCreateFailed { id: id.to_owned(), error: reported },
        answer: Err(error),
    }
}

/// The next step of a container's creation: the runtime creates it, and its process
/// is read from the file that the runtime writes. How it ended is reported to the
/// dispatcher and answered to the client.
pub fn handle_create(req: &CreateRequest, progress: CreateProgress) -> (action: CreateAction)
    ensures
        create_next(*req, progress, action),
{
    let id = req.container_id.as_str();
    let file = text::cat2(req.bundle_path.as_str(), "/container.pid");
    match progress {
        CreateProgress::Accepted => {
            let args = vec![
                "create".to_owned(),
                "--bundle".to_owned(),
                req.bundle_path.clone(),
                "--pid-file".to_owned(),
                file,
                req.container_id.clone(),
            ];
            assert(text::views(args@) =~= seq![
                "create"@,
                "--bundle"@,
                req.bundle_path@,
                "--pid-file"@,
                pid_file(req.bundle_path@),
                req.container_id@,
            ]);
            CreateAction::Spawn(args)
        },
        CreateProgress::Spawned(spawned) => match spawned {
            Ok(_) => CreateAction::Wait,
            Err(e) => fail_create(
                id,
                TaskError::YoukiCommand(text::cat2("Failed to spawn youki create: ", e.as_str())),
            ),
        },
        CreateProgress::Waited(waited) => match waited {
            Err(e) => fail_create(
                id,
                TaskError::YoukiCommand(
                    text::cat2("Failed to wait for youki create process: ", e.as_str()),
                ),
            ),
            Ok((success, status)) => if success {
                CreateAction::ReadPidFile(file)
            } else {
                fail_create(
                    id,
                    TaskError::YoukiCommand(
                        text::cat2("youki create exited with non-zero status: ", status.as_str()),
                    ),
                )
            },
        },
        CreateProgress::PidRead(content) => match content {
            Err(e) => fail_create(
                id,
                TaskError::Internal(text::cat2("Could not read pid file: ", e.as_str())),
            ),
            Ok(content) => match text::parse_i32(text::trim(content.as_str()).as_str()) {
                Ok(pid) => CreateAction::RemovePidFile { path: file, pid },
                Err(e) => fail_create(
                    id,
                    TaskError::Internal(
                        text::cat2("Failed to parse PID from file: ", e.message().as_str()),
                    ),
                ),
            },
        },
        CreateProgress::PidFileRemoved { pid, removed } => match removed {
            Ok(_) => CreateAction::Finish {
                event: Event::ContainerCreated { id: id.to_owned(), pid },
                answer: Ok(CreateResponse { pid: pid as i64 }),
            },
            Err(e) => fail_create(
                id,
                TaskError::Internal(text::cat2("Could not remove pid file: ", e.as_str())),
            ),
        },
    }
}

/// The runtime's arguments for a start.
pub fn start_args(req: &StartRequest) -> (args: Vec<String>)
    ensures
        text::views(args@) == seq!["start"@, req.container_id@],
{
    let args = vec!["start".to_owned(), req.container_id.clone()];
    assert(text::views(args@) =~= seq!["start"@, req.container_id@]);
    args
}

/// What follows from a start.
pub struct StartOutcome {
    /// What is reported to the dispatcher.
    pub event: Event,
    /// What the client is answered.
    pub answer: Result<(), TaskError>,
    /// The process whose end is awaited from now on, if any.
    pub wait_for: Option<i32>,
}

/// What follows from a start, given what the runtime's command came to: the end of a
/// started container's process is awaited.
pub fn handle_start(req: StartRequest, pid: i32, result: Result<(), TaskError>) -> (o: StartOutcome)
    ensures
        match result {
            Ok(_) => o.event == (Event::ContainerStarted { id: req.container_id }) && o.answer
                == Ok::<(), TaskError>(()) && o.wait_for == Some(pid),
            Err(e) => (o.event matches Event::ContainerStartFailed { id, error } && id
                == req.container_id && error.same_as(e)) && o.answer == Err::<(), TaskError>(e)
                && o.wait_for is None,
        },
{
    let id = req.container_id;
    match result {
        Ok(_) => StartOutcome {
            event: Event::ContainerStarted { id },
            answer: Ok(()),
            wait_for: Some(pid),
        },
        Err(e) => {
            let error = e.duplicate();
            StartOutcome {
                event: Event::ContainerStartFailed { id, error },
                answer: Err(e),
                wait_for: None,
            }
        },
    }
}

/// The runtime's arguments for a signal.
pub fn handle_kill(req: &KillRequest) -> (args: Vec<String>)
    ensures
        text::views(args@) == seq!["kill"@, req.container_id@, text::dec(req.signal as nat)],
{
    let args = vec![
        "kill".to_owned(),
        req.container_id.clone(),
        text::to_dec(req.signal as u64),
    ];
    assert(text::views(args@) =~= seq![
        "kill"@,
        req.container_id@,
        text::dec(req.signal as nat),
    ]);
    args
}

/// The runtime's arguments for a deletion.
pub fn delete_args(req: &DeleteRequest) -> (args: Vec<String>)
    ensures
        text::views(args@) == seq!["delete"@, "--force"@, req.container_id@],
{
    let args = vec!["delete".to_owned(), "--force".to_owned(), req.container_id.clone()];
    assert(text::views(args@) =~= seq!["delete"@, "--force"@, req.container_id@]);
    args
}

/// What follows from a deletion, given what the runtime's command came to: what is
/// reported to the dispatcher, if anything, and what the client is answered.
pub fn handle_delete(req: DeleteRequest, result: Result<(), TaskError>) -> (r: (
    Option<Event>,
    Result<(), TaskError>,
))
    ensures
        r.1 == result,
        match result {
            Ok(_) => r.0 == Some(Event::ContainerDeleted { id: req.container_id }),
            Err(_) => r.0 is None,
        },
{
    match result {
        Ok(done) => (Some(Event::ContainerDeleted { id: req.container_id }), Ok(done)),
        Err(e) => (None, Err(e)),
    }
}

/// How a process ended.
#[derive(Clone, Copy, Debug)]
pub enum ProcessEnd {
    /// It exited with a code.
    Exited(i32),
    /// A signal ended it.
    Signaled(i32),
    /// Something else happened to it.
    Other,
}

/// The exit code that an end stands for: that of the process, 128 and the signal, or
/// 255.
pub open spec fn exit_code_of(end: ProcessEnd) -> int {
    match end {
        ProcessEnd::Exited(code) => code as int,
        ProcessEnd::Signaled(signal) => 128 + signal,
        ProcessEnd::Other => 255,
    }
}

/// What is reported when the process of a container has ended; nothing where it
/// could not be waited for.
pub fn wait_for_process_exit(id: String, end: Result<ProcessEnd, String>) -> (r: Option<Event>)
    requires
        end matches Ok(e) ==> exit_code_of(e) <= i32::MAX,
    ensures
        match end {
            Ok(e) => r == Some(
                Event::ContainerStopped { id, exit_code: exit_code_of(e) as i32 },
            ),
            Err(_) => r is None,
        },
{
    match end {
        Err(_) => None,
        Ok(e) => {
            let exit_code: i32 = match e {
                ProcessEnd::Exited(code) => code,
                ProcessEnd::Signaled(signal) => 128 + signal,
                ProcessEnd::Other => 255,
            };
            Some(Event::ContainerStopped { id, exit_code })
        },
    }
}

/// Every creation that goes wrong is reported as failed and answered with the same
/// error; every one that succeeds is reported and answered with the same process.
pub proof fn creation_is_reported_as_it_is_answered(
    req: CreateRequest,
    progress: CreateProgress,
    action: CreateAction,
)
    requires
        create_next(req, progress, action),
    ensures
        action matches CreateAction::Finish { event, answer } ==> match answer {
            Ok(response) => event matches Event::ContainerCreated { id, pid } && id@
                == req.container_id@ && pid == response.pid,
            Err(e) => event matches Event::ContainerCreateFailed { id, error } && id@
                == req.container_id@ && error.same_as(e),
        },
{
}

} // verus!
