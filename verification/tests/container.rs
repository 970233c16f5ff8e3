use feos::container::dispatcher::{
    self, choose_container_id, initiate_image_pull, Dispatcher, Job, Pending, Progress, PullOutcome,
    Step,
};
use feos::container::error::ContainerServiceError;
use feos::container::persistence::{
    container_state_to_string, string_to_container_state, ContainerRecord, ContainerRepository,
    ContainerStatus, DatabaseError, PersistenceError,
};
use feos::container::runtime::{AdapterError, ContainerAdapter, OciImageConfig, OciImageSpec};
use feos::container::worker::{
    handle_create_container, handle_delete_container, handle_start_container,
    handle_stop_container, wait_for_image_ready, CreateAction, CreateProgress, TaskAction,
    TaskProgress, WatchEvent,
};
use feos::container::{
    stream_container_events, stream_container_logs, Command, ContainerConfig, ContainerState,
    CreateContainerRequest, DeleteContainerRequest, GetContainerRequest, StartContainerRequest,
    StopContainerRequest,
};
use feos::ids::{id_of, id_text};
use feos::image::ImageState;
use feos::rpc::{dispatch_and_wait, dispatch_stream, Code, Delivery, RpcStatus};

const ID: u128 = 0x67e55044_10b1_426f_9247_bb680e5fe0c8;
const ID_TEXT: &str = "67e55044-10b1-426f-9247-bb680e5fe0c8";
const IMAGE: u128 = 0x11111111_2222_4333_8444_555555555555;
const IMAGE_TEXT: &str = "11111111-2222-4333-8444-555555555555";

fn config() -> ContainerConfig {
    ContainerConfig {
        image_ref: "docker.io/library/alpine:latest".to_string(),
        command: vec!["sh".to_string()],
        env: vec![("K".to_string(), "V".to_string())],
    }
}

fn record(state: ContainerState) -> ContainerRecord {
    ContainerRecord {
        container_id: ID,
        image_uuid: IMAGE,
        status: ContainerStatus { state, process_id: Some(77) },
        config: config(),
    }
}

fn start_request() -> StartContainerRequest {
    StartContainerRequest { container_id: ID_TEXT.to_string() }
}

fn stop_request(signal: Option<u32>) -> StopContainerRequest {
    StopContainerRequest { container_id: ID_TEXT.to_string(), signal, timeout_seconds: None }
}

fn delete_request() -> DeleteContainerRequest {
    DeleteContainerRequest { container_id: ID_TEXT.to_string() }
}

fn get_request() -> GetContainerRequest {
    GetContainerRequest { container_id: ID_TEXT.to_string() }
}

const STATES: [ContainerState; 5] = [
    ContainerState::Unspecified,
    ContainerState::PullingImage,
    ContainerState::Created,
    ContainerState::Running,
    ContainerState::Stopped,
];

#[test]
fn states_read_back() {
    for state in STATES {
        let text = container_state_to_string(state);
        assert_eq!(string_to_container_state(text).unwrap(), state);
    }
    assert_eq!(container_state_to_string(ContainerState::PullingImage), "PULLING_IMAGE");
    match string_to_container_state("running") {
        Err(e) => assert_eq!(e.message(), "Invalid state string 'running' in database"),
        Ok(_) => panic!(),
    }
}

#[test]
fn stored_containers_read_back() {
    let row = ContainerRepository::save_container(&record(ContainerState::Running));
    assert_eq!(row.container_id, ID_TEXT);
    assert_eq!(row.state, "RUNNING");
    let read = ContainerRepository::get_container(Some((row, Ok(config()))));
    let read = read.unwrap().unwrap().unwrap();
    assert_eq!(read.container_id, ID);
    assert_eq!(read.image_uuid, IMAGE);
    assert_eq!(read.status.state, ContainerState::Running);
    assert_eq!(read.status.process_id, Some(77));
    assert_eq!(read.config.command, vec!["sh"]);
    assert!(ContainerRepository::get_container(None).unwrap().unwrap().is_none());
}

#[test]
fn unreadable_rows_are_errors() {
    let mut row = ContainerRepository::save_container(&record(ContainerState::Created));
    row.state = "LOST".to_string();
    assert!(matches!(
        ContainerRepository::record_of(row, Ok(config())),
        Some(Err(PersistenceError::InvalidStateString(_)))
    ));
    let row = ContainerRepository::save_container(&record(ContainerState::Created));
    assert!(matches!(
        ContainerRepository::record_of(row, Err(PersistenceError::Decode("bad".to_string()))),
        Some(Err(PersistenceError::Decode(_)))
    ));
    let mut row = ContainerRepository::save_container(&record(ContainerState::Created));
    row.image_uuid = "x".to_string();
    assert!(ContainerRepository::record_of(row, Ok(config())).is_none());
    let good = ContainerRepository::save_container(&record(ContainerState::Stopped));
    let listed = ContainerRepository::list_all_containers(vec![(good, Ok(config()))]);
    assert_eq!(listed.unwrap().unwrap().len(), 1);
}

#[test]
fn creation_runs_through() {
    let request = CreateContainerRequest {
        config: Some(config()),
        container_id: Some(ID_TEXT.to_string()),
    };
    let step = Dispatcher::handle_command(Progress::Received(Command::CreateContainer(request)));
    let (id, pending) = match step {
        Step::LookUp { id, pending } => (id, pending),
        _ => panic!(),
    };
    assert_eq!(id, ID);
    let step = Dispatcher::handle_command(Progress::LookedUp { id, pending, found: Ok(None) });
    let config = match step {
        Step::Pull { id: ID, config } => config,
        _ => panic!(),
    };
    let image = initiate_image_pull("ref", PullOutcome::Started(IMAGE_TEXT.to_string()));
    let step = Dispatcher::handle_command(Progress::Pulled { id, config, image });
    let record = match step {
        Step::Save(record) => record,
        _ => panic!(),
    };
    assert_eq!(record.status.state, ContainerState::PullingImage);
    assert_eq!(record.status.process_id, None);
    assert_eq!(record.image_uuid, IMAGE);
    match Dispatcher::handle_command(Progress::Saved { record, stored: Ok(()) }) {
        Step::Work(Job::Create { container_id, image_uuid, config }) => {
            assert_eq!(container_id, ID);
            assert_eq!(image_uuid, IMAGE);
            assert_eq!(config.image_ref, "docker.io/library/alpine:latest");
            assert_eq!(config.command, vec!["sh"]);
            assert_eq!(config.env, vec![("K".to_string(), "V".to_string())]);
        }
        _ => panic!(),
    }
}

#[test]
fn creation_is_refused() {
    let named = |id: &str| {
        Dispatcher::handle_command(Progress::Received(Command::CreateContainer(
            CreateContainerRequest { config: None, container_id: Some(id.to_string()) },
        )))
    };
    match named("nonsense") {
        Step::Abandon(e) => {
            assert_eq!(e.message(), "Invalid argument: Invalid container_id UUID format.")
        }
        _ => panic!(),
    }
    assert!(matches!(named(""), Step::LookUp { .. }));
    let found = Ok(Some(record(ContainerState::Created)));
    match Dispatcher::handle_command(Progress::LookedUp {
        id: ID,
        pending: Pending::Create(Some(config())),
        found,
    }) {
        Step::Refuse(e) => {
            assert_eq!(e.message(), format!("Container with ID {ID_TEXT} already exists"));
            let status = e.into_status();
            assert_eq!(status.code, Code::AlreadyExists);
        }
        _ => panic!(),
    }
    match Dispatcher::handle_command(Progress::LookedUp {
        id: ID,
        pending: Pending::Create(None),
        found: Ok(None),
    }) {
        Step::Abandon(e) => {
            assert_eq!(e.message(), "Invalid argument: ContainerConfig is required")
        }
        _ => panic!(),
    }
    let image = initiate_image_pull("ref", PullOutcome::Failed("down".to_string()));
    match Dispatcher::handle_command(Progress::Pulled { id: ID, config: config(), image }) {
        Step::Abandon(e) => assert_eq!(
            e.message(),
            "Image Service Error: PullImage RPC failed for ref: down"
        ),
        _ => panic!(),
    }
    let image = initiate_image_pull("ref", PullOutcome::NotConnected("no socket".to_string()));
    assert!(matches!(image, Err(ContainerServiceError::ImageService(_))));
    match Dispatcher::handle_command(Progress::Pulled {
        id: ID,
        config: config(),
        image: Ok("xyz".to_string()),
    }) {
        Step::Abandon(e) => assert!(e.message().starts_with(
            "Image Service Error: Invalid image UUID: "
        )),
        _ => panic!(),
    }
}

#[test]
fn identifiers_are_chosen() {
    assert_eq!(choose_container_id(&None, 5).unwrap(), 5);
    assert_eq!(choose_container_id(&Some(String::new()), 5).unwrap(), 5);
    assert_eq!(choose_container_id(&Some(ID_TEXT.to_string()), 5).unwrap(), ID);
    assert!(choose_container_id(&Some("x".to_string()), 5).is_err());
}

#[test]
fn commands_follow_the_state() {
    for state in STATES {
        let found = || Ok(Some(record(state)));
        let start = Dispatcher::handle_command(Progress::LookedUp {
            id: ID,
            pending: Pending::Start(start_request()),
            found: found(),
        });
        assert_eq!(matches!(start, Step::Work(Job::Start(..))), state == ContainerState::Created);
        let stop = Dispatcher::handle_command(Progress::LookedUp {
            id: ID,
            pending: Pending::Stop(stop_request(None)),
            found: found(),
        });
        assert_eq!(matches!(stop, Step::Work(Job::Stop(..))), state == ContainerState::Running);
        let delete = Dispatcher::handle_command(Progress::LookedUp {
            id: ID,
            pending: Pending::Delete(delete_request()),
            found: found(),
        });
        assert_eq!(
            matches!(delete, Step::Work(Job::Delete(..))),
            state != ContainerState::Running
        );
    }
    match Dispatcher::handle_command(Progress::LookedUp {
        id: ID,
        pending: Pending::Delete(delete_request()),
        found: Ok(Some(record(ContainerState::Running))),
    }) {
        Step::Refuse(e) => {
            assert_eq!(
                e.message(),
                "Invalid container state for operation: \
                 Cannot delete container in state Running. Stop it first."
            );
            assert_eq!(e.into_status().code, Code::FailedPrecondition);
        }
        _ => panic!(),
    }
}

#[test]
fn containers_are_described() {
    match Dispatcher::handle_command(Progress::LookedUp {
        id: ID,
        pending: Pending::Get(get_request()),
        found: Ok(Some(record(ContainerState::Stopped))),
    }) {
        Step::Info(info) => {
            assert_eq!(info.container_id, ID_TEXT);
            assert_eq!(info.state, ContainerState::Stopped);
            assert_eq!(info.pid, Some(77));
            assert_eq!(info.exit_code, None);
        }
        _ => panic!(),
    }
    // A deleted container is no longer found.
    match Dispatcher::handle_command(Progress::LookedUp {
        id: ID,
        pending: Pending::Get(get_request()),
        found: Ok(None),
    }) {
        Step::Refuse(e) => assert_eq!(
            e.message(),
            format!("Invalid argument: Container '{ID_TEXT}' not found")
        ),
        _ => panic!(),
    }
    let request = GetContainerRequest { container_id: "?".to_string() };
    match Dispatcher::handle_command(Progress::Received(Command::GetContainer(request))) {
        Step::Refuse(e) => assert_eq!(e.message(), "Invalid argument: Invalid UUID format"),
        _ => panic!(),
    }
    assert!(matches!(
        Dispatcher::handle_command(Progress::Received(Command::ListContainers)),
        Step::ListAll
    ));
    let all = vec![record(ContainerState::Created), record(ContainerState::Running)];
    match Dispatcher::handle_command(Progress::Listed(Ok(all))) {
        Step::Containers(list) => {
            assert_eq!(list.containers.len(), 2);
            assert_eq!(list.containers[1].state, ContainerState::Running);
        }
        _ => panic!(),
    }
}

#[test]
fn errors_are_answered_with_their_codes() {
    let cases = vec![
        (
            ContainerServiceError::Persistence(PersistenceError::Database(
                DatabaseError::RowNotFound,
            )),
            Code::NotFound,
        ),
        (
            ContainerServiceError::Persistence(PersistenceError::Migration("m".to_string())),
            Code::Internal,
        ),
        (ContainerServiceError::ImageService("m".to_string()), Code::Unavailable),
        (ContainerServiceError::TaskService("m".to_string()), Code::Unavailable),
        (ContainerServiceError::Adapter("m".to_string()), Code::Internal),
        (ContainerServiceError::InvalidArgument("m".to_string()), Code::InvalidArgument),
        (ContainerServiceError::AlreadyExists("m".to_string()), Code::AlreadyExists),
        (ContainerServiceError::InvalidState("m".to_string()), Code::FailedPrecondition),
    ];
    for (error, code) in cases {
        assert_eq!(error.into_status().code, code);
    }
    assert_eq!(stream_container_logs().code, Code::Unimplemented);
    assert_eq!(stream_container_events().message, "Not yet implemented");
}

#[test]
fn remote_calls_are_answered() {
    assert_eq!(dispatch_and_wait(Delivery::Answered(Ok(7))).unwrap(), 7);
    let status = RpcStatus::new(Code::NotFound, "gone");
    let answer: Delivery<u8> = Delivery::Answered(Err(status));
    assert_eq!(dispatch_and_wait(answer).unwrap_err().message, "gone");
    let dropped: Delivery<u8> = Delivery::Dropped;
    assert_eq!(
        dispatch_and_wait(dropped).unwrap_err().message,
        "Dispatcher task dropped response channel."
    );
    let unsent: Delivery<u8> = Delivery::NotSent("closed".to_string());
    assert_eq!(
        dispatch_and_wait(unsent).unwrap_err().message,
        "Failed to send command to dispatcher: closed"
    );
    assert!(dispatch_stream(Ok(())).is_ok());
    assert_eq!(dispatch_stream(Err("closed".to_string())).unwrap_err().code, Code::Internal);
}

#[test]
fn created_containers_are_recorded() {
    let asked = config();
    let step = |progress| handle_create_container(ID, IMAGE, &asked, progress);
    match step(CreateProgress::Accepted) {
        CreateAction::Answer(response) => assert_eq!(response.container_id, ID_TEXT),
        _ => panic!(),
    }
    match step(CreateProgress::Answered(true)) {
        CreateAction::WaitForImage { image_uuid, image_ref } => {
            assert_eq!(image_uuid, IMAGE_TEXT);
            assert_eq!(image_ref, "docker.io/library/alpine:latest");
        }
        _ => panic!(),
    }
    match step(CreateProgress::ImageWaited(Ok(()))) {
        CreateAction::CreateInRuntime { container_id, bundle_path, config } => {
            assert_eq!(config.image_ref, asked.image_ref);
            assert_eq!(config.command, asked.command);
            assert_eq!(config.env, asked.env);
            assert_eq!(container_id, ID_TEXT);
            assert_eq!(bundle_path, format!("/var/lib/feos/images/{IMAGE_TEXT}"));
        }
        _ => panic!(),
    }
    assert!(matches!(
        step(CreateProgress::RuntimeCreated(Ok(42))),
        CreateAction::StorePid { id: ID, pid: 42 }
    ));
    assert!(matches!(
        step(CreateProgress::PidStored),
        CreateAction::StoreState { id: ID, state: ContainerState::Created }
    ));
    assert!(matches!(step(CreateProgress::Finished), CreateAction::Done));
}

#[test]
fn failed_creations_leave_no_record() {
    let asked = config();
    let step = |progress| handle_create_container(ID, IMAGE, &asked, progress);
    let waited = ContainerServiceError::ImageService("m".to_string());
    let created = AdapterError::Internal("m".to_string());
    for progress in [
        CreateProgress::Answered(false),
        CreateProgress::ImageWaited(Err(waited)),
        CreateProgress::RuntimeCreated(Err(created)),
    ] {
        assert!(matches!(step(progress), CreateAction::DeleteRecord { id: ID }));
    }
}

#[test]
fn images_are_awaited() {
    let wait = |event| wait_for_image_ready("u", "r", event);
    assert!(wait(WatchEvent::Status(ImageState::Downloading, String::new())).is_none());
    assert!(wait(WatchEvent::Status(ImageState::Ready, String::new())).unwrap().is_ok());
    let failed = wait(WatchEvent::Status(ImageState::PullFailed, "why".to_string()));
    assert_eq!(
        failed.unwrap().unwrap_err().message(),
        "Image Service Error: Image pull failed for r (uuid: u): why"
    );
    assert_eq!(
        wait(WatchEvent::Ended).unwrap().unwrap_err().message(),
        "Image Service Error: Image watch stream for u ended before reaching a terminal state."
    );
    assert!(wait(WatchEvent::Broken("b".to_string())).unwrap().is_err());
    assert!(wait(WatchEvent::NotWatched("b".to_string())).unwrap().is_err());
}

#[test]
fn started_containers_run_and_stopped_ones_are_stopped() {
    let start = |progress| handle_start_container(ID, &start_request(), progress);
    assert!(matches!(start(TaskProgress::Accepted), TaskAction::Start { .. }));
    assert!(matches!(
        start(TaskProgress::RuntimeDone(Ok(()))),
        TaskAction::StoreState { id: ID, state: ContainerState::Running }
    ));
    match start(TaskProgress::RuntimeDone(Err(AdapterError::Internal("x".to_string())))) {
        TaskAction::Answer(Err(ContainerServiceError::Adapter(m))) => {
            assert_eq!(m, AdapterError::Internal("x".to_string()).message())
        }
        _ => panic!(),
    }
    assert!(matches!(start(TaskProgress::Stored(Ok(()))), TaskAction::Answer(Ok(()))));
    let stop = |signal, progress| handle_stop_container(ID, &stop_request(signal), progress);
    assert!(matches!(
        stop(None, TaskProgress::Accepted),
        TaskAction::Kill { signal: 9, .. }
    ));
    assert!(matches!(
        stop(Some(15), TaskProgress::Accepted),
        TaskAction::Kill { signal: 15, .. }
    ));
    assert!(matches!(
        stop(None, TaskProgress::RuntimeDone(Ok(()))),
        TaskAction::StoreState { id: ID, state: ContainerState::Stopped }
    ));
    let delete = |progress| handle_delete_container(ID, &delete_request(), progress);
    assert!(matches!(delete(TaskProgress::Accepted), TaskAction::Delete { .. }));
    assert!(matches!(
        delete(TaskProgress::RuntimeDone(Ok(()))),
        TaskAction::DeleteRecord { id: ID }
    ));
}

#[test]
fn runtime_configurations_are_generated() {
    let image = OciImageSpec {
        config: OciImageConfig {
            entrypoint: Some(vec!["/bin/sh".to_string(), "-c".to_string()]),
            cmd: Some(vec!["ls".to_string()]),
            env: None,
        },
    };
    let plain = ContainerConfig {
        image_ref: "ref".to_string(),
        command: Vec::new(),
        env: Vec::new(),
    };
    let runtime = ContainerAdapter::generate_runtime_spec(image, &plain);
    assert_eq!(runtime.oci_version, "1.0.2");
    assert_eq!(runtime.process.args, vec!["/bin/sh", "-c", "ls"]);
    assert!(runtime.process.env.is_empty());
    assert_eq!(runtime.process.cwd, "/");
    assert_eq!(runtime.root.path, "rootfs");
    assert_eq!(runtime.mounts.len(), 4);
    assert_eq!(runtime.mounts[3].options, vec!["nosuid", "noexec", "nodev", "ro"]);
    assert_eq!(runtime.linux.namespaces[3].typ, "mount");
    let adapter = ContainerAdapter::default();
    let id = id_text(ID);
    assert_eq!(adapter.create_container(&id, "/b").bundle_path, "/b");
    assert_eq!(adapter.stop_container(&id, 9).signal, 9);
    assert_eq!(adapter.start_container(&id).container_id, ID_TEXT);
    assert_eq!(adapter.delete_container(&id).container_id, ID_TEXT);
}

#[test]
fn what_a_name_was_read_as_decides() {
    assert_eq!(dispatcher::accept_container_id(Ok(ID)).unwrap(), ID);
    match dispatcher::accept_container_id(Err("bad length".to_string())) {
        Err(ContainerServiceError::InvalidArgument(m)) => {
            assert_eq!(m, "Invalid container_id UUID format.")
        }
        _ => panic!("a malformed identifier was accepted"),
    }
    let pending = || Pending::Get(GetContainerRequest { container_id: "x".to_string() });
    assert!(matches!(Dispatcher::look_up_parsed(Ok(ID), pending()), Step::LookUp { id, .. } if id == ID));
    match Dispatcher::look_up_parsed(Err("bad length".to_string()), pending()) {
        Step::Refuse(ContainerServiceError::InvalidArgument(m)) => {
            assert_eq!(m, "Invalid UUID format")
        }
        _ => panic!("a malformed identifier was looked up"),
    }
    match Dispatcher::begin_record(ID, config(), Ok(IMAGE)) {
        Step::Save(r) => {
            assert_eq!((r.container_id, r.image_uuid), (ID, IMAGE));
            assert!(r.status.state == ContainerState::PullingImage);
        }
        _ => panic!("no record was begun"),
    }
    match Dispatcher::begin_record(ID, config(), Err("bad length".to_string())) {
        Step::Abandon(ContainerServiceError::ImageService(m)) => {
            assert_eq!(m, "Invalid image UUID: bad length")
        }
        _ => panic!("a malformed image was accepted"),
    }
}

#[test]
fn identifiers_have_one_of_four_forms() {
    assert_eq!(id_of("67e5504410b1426f9247bb680e5fe0c8"), Ok(ID));
    assert_eq!(id_of("67E55044-10B1-426F-9247-BB680E5FE0C8"), Ok(ID));
    assert_eq!(id_of("{67e55044-10b1-426f-9247-bb680e5fe0c8}"), Ok(ID));
    assert_eq!(id_of("urn:uuid:67e55044-10b1-426f-9247-bb680e5fe0c8"), Ok(ID));
    assert!(id_of("").is_err());
    assert!(id_of("67e55044-10b1-426f-9247-bb680e5fe0c").is_err());
    assert!(id_of("67e55044-10b1-426f-9247-bb680e5fe0c88").is_err());
}

#[test]
fn containers_run_what_was_asked() {
    let asked = ContainerConfig {
        image_ref: "ref".to_string(),
        command: vec!["echo".to_string(), "hi".to_string()],
        env: vec![("A".to_string(), "1".to_string()), ("B".to_string(), "x=y".to_string())],
    };
    let handed = match handle_create_container(
        ID,
        IMAGE,
        &asked,
        CreateProgress::ImageWaited(Ok(())),
    ) {
        CreateAction::CreateInRuntime { config, .. } => config,
        _ => panic!(),
    };
    let image = |entrypoint: Option<Vec<String>>, env: Option<Vec<String>>| OciImageSpec {
        config: OciImageConfig { entrypoint, cmd: Some(vec!["ls".to_string()]), env },
    };
    let bare = ContainerAdapter::generate_runtime_spec(image(None, None), &handed);
    assert_eq!(bare.process.args, vec!["echo", "hi"]);
    assert_eq!(bare.process.env, vec!["A=1", "B=x=y"]);
    let full = ContainerAdapter::generate_runtime_spec(
        image(Some(vec!["/init".to_string()]), Some(vec!["PATH=/bin".to_string()])),
        &handed,
    );
    assert_eq!(full.process.args, vec!["/init", "echo", "hi"]);
    assert_eq!(full.process.env, vec!["PATH=/bin", "A=1", "B=x=y"]);
}
