use feos::rpc::Code;
use feos::task::dispatcher::{Action, Dispatcher};
use feos::task::error::TaskError;
use feos::task::worker::{
    delete_args, handle_create, handle_delete, handle_kill, handle_start, run_youki_command,
    start_args, wait_for_process_exit, CommandOutcome, CreateAction, CreateProgress, ProcessEnd,
};
use feos::task::{
    Command, CreateRequest, DeleteRequest, Event, KillRequest, StartRequest, Status, WaitRequest,
};

fn create_request() -> CreateRequest {
    CreateRequest {
        container_id: "c".to_string(),
        bundle_path: "/b".to_string(),
        stdin_path: String::new(),
        stdout_path: String::new(),
        stderr_path: String::new(),
    }
}

fn start() -> Command {
    Command::Start(StartRequest { container_id: "c".to_string() })
}

fn kill() -> Command {
    Command::Kill(KillRequest { container_id: "c".to_string(), signal: 9 })
}

fn delete() -> Command {
    Command::Delete(DeleteRequest { container_id: "c".to_string() })
}

fn wait(waiter: u64) -> Command {
    Command::Wait(WaitRequest { container_id: "c".to_string() }, waiter)
}

fn refusal(action: Action) -> String {
    match action {
        Action::Refuse(e) => e.message(),
        _ => panic!("expected a refusal"),
    }
}

fn created() -> Dispatcher {
    let mut d = Dispatcher::new();
    assert!(matches!(d.handle_command(Command::Create(create_request())), Action::Create(_)));
    assert!(d
        .handle_event(Event::ContainerCreated { id: "c".to_string(), pid: 42 })
        .is_none());
    d
}

fn running() -> Dispatcher {
    let mut d = created();
    assert!(d.can_start("c"));
    assert!(matches!(d.handle_command(start()), Action::Start(_, 42)));
    assert!(d.handle_event(Event::ContainerStarted { id: "c".to_string() }).is_none());
    d
}

#[test]
fn containers_live_and_die() {
    let mut d = running();
    assert_eq!(d.get("c").unwrap().status, Status::Running);
    assert!(matches!(d.handle_command(wait(5)), Action::Hold));
    assert_eq!(
        refusal(d.handle_command(wait(6))),
        "An internal error occurred: Another client is already waiting on this container"
    );
    assert!(matches!(d.handle_command(kill()), Action::Kill(_)));
    let told = d.handle_event(Event::ContainerStopped { id: "c".to_string(), exit_code: 137 });
    let (waiter, response) = told.unwrap();
    assert_eq!((waiter, response.exit_code), (5, 137));
    match d.handle_command(wait(7)) {
        Action::Answer(response) => assert_eq!(response.exit_code, 137),
        _ => panic!(),
    }
    assert!(matches!(d.handle_command(delete()), Action::Delete(_)));
    assert!(d.handle_event(Event::ContainerDeleted { id: "c".to_string() }).is_none());
    assert!(d.get("c").is_none());
    assert_eq!(
        refusal(d.handle_command(delete())),
        "Container with ID 'c' not found"
    );
}

#[test]
fn commands_in_the_wrong_state_are_refused() {
    let mut d = Dispatcher::new();
    assert_eq!(refusal(d.handle_command(start())), "Container with ID 'c' not found");
    d.handle_command(Command::Create(create_request()));
    assert_eq!(
        refusal(d.handle_command(Command::Create(create_request()))),
        "Container with ID 'c' already exists"
    );
    assert_eq!(
        refusal(d.handle_command(start())),
        "Invalid state for operation on container 'c': \
         current state is Creating, required one of [Created]"
    );
    assert!(refusal(d.handle_command(wait(1))).contains("required one of [Running, Stopped]"));
    let mut d = running();
    assert!(refusal(d.handle_command(delete())).contains("required one of [Created, Stopped]"));
    let mut d = created();
    assert!(refusal(d.handle_command(kill())).contains("required one of [Running]"));
}

#[test]
fn failed_containers() {
    let mut d = Dispatcher::new();
    d.handle_command(Command::Create(create_request()));
    d.handle_event(Event::ContainerCreateFailed {
        id: "c".to_string(),
        error: TaskError::Internal("x".to_string()),
    });
    assert!(d.get("c").is_none());
    assert!(matches!(d.handle_command(Command::Create(create_request())), Action::Create(_)));
    let mut d = created();
    d.handle_event(Event::ContainerStartFailed {
        id: "c".to_string(),
        error: TaskError::Internal("x".to_string()),
    });
    assert_eq!(d.get("c").unwrap().status, Status::Created);
    d.handle_event(Event::ContainerStarted { id: "other".to_string() });
    assert!(d.get("other").is_none());
}

#[test]
fn task_errors_are_answered() {
    let invalid = TaskError::InvalidState {
        id: "c".to_string(),
        current_state: Status::Running,
        required_states: vec![Status::Created],
    };
    assert_eq!(invalid.duplicate().message(), invalid.message());
    let cases = vec![
        (TaskError::ContainerNotFound("c".to_string()), Code::NotFound),
        (TaskError::ContainerAlreadyExists("c".to_string()), Code::AlreadyExists),
        (invalid, Code::FailedPrecondition),
        (TaskError::YoukiCommand("m".to_string()), Code::Internal),
        (TaskError::Internal("m".to_string()), Code::Internal),
        (TaskError::from_io("m".to_string()), Code::Internal),
    ];
    for (error, code) in cases {
        assert_eq!(error.into_status().code, code);
    }
    assert_eq!(TaskError::from_io("m".to_string()).message(), "I/O error: m");
}

#[test]
fn the_runtime_is_called() {
    let req = create_request();
    match handle_create(&req, CreateProgress::Accepted) {
        CreateAction::Spawn(args) => assert_eq!(
            args,
            vec!["create", "--bundle", "/b", "--pid-file", "/b/container.pid", "c"]
        ),
        _ => panic!(),
    }
    assert!(matches!(handle_create(&req, CreateProgress::Spawned(Ok(()))), CreateAction::Wait));
    match handle_create(&req, CreateProgress::Waited(Ok((true, "0".to_string())))) {
        CreateAction::ReadPidFile(path) => assert_eq!(path, "/b/container.pid"),
        _ => panic!(),
    }
    assert!(matches!(
        handle_create(&req, CreateProgress::PidRead(Ok(" 42\n".to_string()))),
        CreateAction::RemovePidFile { pid: 42, .. }
    ));
    match handle_create(&req, CreateProgress::PidFileRemoved { pid: 42, removed: Ok(()) }) {
        CreateAction::Finish { event: Event::ContainerCreated { id, pid }, answer } => {
            assert_eq!((id.as_str(), pid), ("c", 42));
            assert_eq!(answer.unwrap().pid, 42);
        }
        _ => panic!(),
    }
    assert_eq!(start_args(&StartRequest { container_id: "c".to_string() }), vec!["start", "c"]);
    let signal = KillRequest { container_id: "c".to_string(), signal: 15 };
    assert_eq!(handle_kill(&signal), vec!["kill", "c", "15"]);
    let removal = DeleteRequest { container_id: "c".to_string() };
    assert_eq!(delete_args(&removal), vec!["delete", "--force", "c"]);
}

#[test]
fn failed_creations_are_reported_as_they_are_answered() {
    let req = create_request();
    for (progress, expected) in [
        (
            CreateProgress::Spawned(Err("e".to_string())),
            "Youki command failed: Failed to spawn youki create: e",
        ),
        (
            CreateProgress::Waited(Err("e".to_string())),
            "Youki command failed: Failed to wait for youki create process: e",
        ),
        (
            CreateProgress::Waited(Ok((false, "exit status: 1".to_string()))),
            "Youki command failed: youki create exited with non-zero status: exit status: 1",
        ),
        (
            CreateProgress::PidRead(Err("e".to_string())),
            "An internal error occurred: Could not read pid file: e",
        ),
        (
            CreateProgress::PidRead(Ok("x".to_string())),
            "An internal error occurred: Failed to parse PID from file: \
             invalid digit found in string",
        ),
        (
            CreateProgress::PidFileRemoved { pid: 1, removed: Err("e".to_string()) },
            "An internal error occurred: Could not remove pid file: e",
        ),
    ] {
        match handle_create(&req, progress) {
            CreateAction::Finish { event: Event::ContainerCreateFailed { id, error }, answer } => {
                assert_eq!(id, "c");
                assert_eq!(error.message(), expected);
                assert_eq!(answer.unwrap_err().message(), expected);
            }
            _ => panic!(),
        }
    }
}

#[test]
fn what_the_runtime_says_is_told() {
    let failed = CommandOutcome::Exited {
        success: false,
        status: "exit status: 1".to_string(),
        stdout: b"out".to_vec(),
        stderr: vec![b'e', b'r', b'r', 0xff],
    };
    assert_eq!(
        run_youki_command(failed).unwrap_err().message(),
        "Youki command failed: youki exited with code exit status: 1: \
         stderr='err\u{fffd}', stdout='out'"
    );
    let unknown = CommandOutcome::NotExecuted("missing".to_string());
    assert_eq!(
        run_youki_command(unknown).unwrap_err().message(),
        "Youki command failed: Failed to execute youki process: missing"
    );
}

#[test]
fn starts_deletions_and_ends_are_reported() {
    let req = || StartRequest { container_id: "c".to_string() };
    let started = handle_start(req(), 42, Ok(()));
    assert!(matches!(started.event, Event::ContainerStarted { .. }));
    assert_eq!(started.wait_for, Some(42));
    let failed = handle_start(req(), 42, Err(TaskError::Internal("x".to_string())));
    assert!(matches!(failed.event, Event::ContainerStartFailed { .. }));
    assert_eq!(failed.wait_for, None);
    let req = || DeleteRequest { container_id: "c".to_string() };
    let (event, answer) = handle_delete(req(), Ok(()));
    assert!(matches!(event, Some(Event::ContainerDeleted { .. })));
    assert!(answer.is_ok());
    let (event, answer) = handle_delete(req(), Err(TaskError::Internal("x".to_string())));
    assert!(event.is_none());
    assert!(answer.is_err());
    for (end, code) in
        [(ProcessEnd::Exited(3), 3), (ProcessEnd::Signaled(9), 137), (ProcessEnd::Other, 255)]
    {
        match wait_for_process_exit("c".to_string(), Ok(end)) {
            Some(Event::ContainerStopped { exit_code, .. }) => assert_eq!(exit_code, code),
            _ => panic!(),
        }
    }
    assert!(wait_for_process_exit("c".to_string(), Err("x".to_string())).is_none());
}
