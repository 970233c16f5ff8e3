use feos::image::ImageState;
use feos::rpc::Code;
use feos::vm::ch_adapter::{
    build_vm_config, convert_net_config_to_ch, factory, memory_size_fits, ApiReply, ChNetworkDevice,
    ChPing, ChVmState, CleanupStep, CloudHypervisorAdapter, CreationProgress, CreationStep,
    HealthAction, HealthEvent, NicStep, ProcessOutcome, VmDirs,
};
use feos::vm::console::{
    bridge_console_streams, handle_stream_vm_console, refuse_connection, Bridge, BridgeAction,
    BridgeEvent, ConsoleMessage, ConsoleProgress, ConsoleStep,
};
use feos::vm::create::{
    self, choose_vm_id, handle_create_vm_command, CreateProgress, CreateStep, PullOutcome,
};
use feos::vm::dispatcher::{
    BusMessage, Command, Decoded, EventAction, EventProgress, FirstStep, VmServiceDispatcher,
};
use feos::vm::error::VmServiceError;
use feos::vm::events::{
    handle_stream_vm_events, handle_stream_vm_events_command, BusEvent, LiveStep, StreamProgress,
    StreamStep,
};
use feos::vm::guards::{check_state, record_attached_nic, record_removed_nic, Operation};
use feos::vm::handlers::{
    check_and_cleanup_vms, handle_delete_vm_command, handle_get_vm_command,
    handle_list_vms_command, known_vm_id, perform_startup_sanity_check, process_to_probe,
    DeleteProgress, DeleteStep, SanityAction,
};
use feos::vm::persistence::{
    string_to_vm_state, vm_state_to_string, DatabaseError, PersistenceError, VmRecord,
    VmRepository, VmStatus,
};
use feos::vm::vmm::{VmmError, VmmType};
use feos::vm::worker;
use feos::vm::{
    AttachNicRequest, Backend, CpuConfig, CreateVmRequest, MemoryConfig, NetConfig,
    RemoveNicRequest, StreamVmEventsRequest, VmConfig, VmEventWrapper, VmRequest, VmState,
    VmStateChangedEvent,
};

const ID: u128 = 0x67e55044_10b1_426f_9247_bb680e5fe0c8;
const ID_TEXT: &str = "67e55044-10b1-426f-9247-bb680e5fe0c8";
const IMAGE: u128 = 0x11111111_2222_4333_8444_555555555555;
const IMAGE_TEXT: &str = "11111111-2222-4333-8444-555555555555";

const STATES: [VmState; 7] = [
    VmState::Unspecified,
    VmState::Creating,
    VmState::Created,
    VmState::Running,
    VmState::Paused,
    VmState::Stopped,
    VmState::Crashed,
];

fn config() -> VmConfig {
    VmConfig {
        cpus: Some(CpuConfig { boot_vcpus: 2, max_vcpus: 4 }),
        memory: Some(MemoryConfig { size_mib: 2048, hugepages: true }),
        image_ref: "ghcr.io/x/y".to_string(),
        disks: Vec::new(),
        net: Vec::new(),
        ignition: None,
    }
}

fn record(state: VmState) -> VmRecord {
    VmRecord {
        vm_id: ID,
        image_uuid: IMAGE,
        status: VmStatus { state, last_msg: "msg".to_string(), process_id: Some(42) },
        config: config(),
    }
}

fn request() -> VmRequest {
    VmRequest { vm_id: ID_TEXT.to_string() }
}

fn tap(device_id: &str, mac: &str) -> NetConfig {
    NetConfig {
        device_id: device_id.to_string(),
        mac_address: mac.to_string(),
        backend: Some(Backend::Tap { tap_name: "tap0".to_string() }),
    }
}

fn passed_through(device_id: &str) -> NetConfig {
    NetConfig {
        device_id: device_id.to_string(),
        mac_address: String::new(),
        backend: Some(Backend::VfioPci { bdf: "0000:03:00.1".to_string() }),
    }
}

fn dirs() -> VmDirs {
    VmDirs { api_sockets: "/run/api".to_string(), consoles: "/run/consoles".to_string() }
}

#[test]
fn vm_states_read_back() {
    for state in STATES {
        assert_eq!(string_to_vm_state(vm_state_to_string(state)), Ok(state));
    }
    assert_eq!(vm_state_to_string(VmState::Crashed), "VM_STATE_CRASHED");
    assert_eq!(
        string_to_vm_state("CRASHED"),
        Err("Invalid state string 'CRASHED' in database".to_string())
    );
}

#[test]
fn stored_vms_read_back() {
    let row = VmRepository::save_vm(&record(VmState::Paused));
    assert_eq!(row.state, "VM_STATE_PAUSED");
    let read = VmRepository::get_vm(Some((row, Ok(config())))).unwrap().unwrap();
    assert_eq!((read.vm_id, read.image_uuid), (ID, IMAGE));
    assert_eq!(read.status.state, VmState::Paused);
    assert_eq!(read.status.last_msg, "msg");
    assert_eq!(read.status.process_id, Some(42));
    assert!(VmRepository::get_vm(None).unwrap().is_none());
    let row = VmRepository::save_vm(&record(VmState::Paused));
    assert_eq!(
        VmRepository::get_vm(Some((row, Err("bad".to_string())))).unwrap_err(),
        "Failed to decode VmConfig blob: bad"
    );
    let row = VmRepository::save_vm(&record(VmState::Paused));
    assert_eq!(
        VmRepository::list_all_vms(vec![(row, Err("bad".to_string()))]).unwrap_err(),
        format!("Failed to decode VmConfig blob for vm_id {ID_TEXT}: bad")
    );
}

#[test]
fn vm_creation_runs_through() {
    let wanted =
        CreateVmRequest { config: Some(config()), vm_id: Some(ID_TEXT.to_string()) };
    let (vm_id, wanted) = match VmServiceDispatcher::run(Command::CreateVm(wanted)) {
        FirstStep::Create(CreateStep::LookUp { vm_id, wanted }) => (vm_id, wanted),
        _ => panic!(),
    };
    assert_eq!(vm_id, ID);
    let looked = CreateProgress::LookedUp { vm_id, wanted, found: Ok(None) };
    let config = match handle_create_vm_command(looked) {
        CreateStep::Pull { vm_id: ID, config } => config,
        _ => panic!(),
    };
    let outcome = PullOutcome::Started(IMAGE_TEXT.to_string());
    let pulled = CreateProgress::Pulled { vm_id, config, outcome };
    let (record, image_uuid) = match handle_create_vm_command(pulled) {
        CreateStep::Save { record, image_uuid } => (record, image_uuid),
        _ => panic!(),
    };
    assert_eq!(record.status.state, VmState::Creating);
    assert_eq!(record.status.last_msg, "VM creation initiated");
    assert_eq!(record.image_uuid, IMAGE);
    let saved = CreateProgress::Saved { record, image_uuid, stored: Ok(()) };
    match handle_create_vm_command(saved) {
        CreateStep::Work { name, image_uuid, .. } => {
            assert_eq!(name, ID_TEXT);
            assert_eq!(image_uuid, IMAGE_TEXT);
        }
        _ => panic!(),
    }
}

fn create_refused(progress: CreateProgress) -> (Code, String) {
    match handle_create_vm_command(progress) {
        CreateStep::Refuse(s) => (s.code, s.message),
        _ => panic!(),
    }
}

#[test]
fn vm_creation_is_refused() {
    let named = |id: &str| {
        CreateProgress::Received(CreateVmRequest {
            config: Some(config()),
            vm_id: Some(id.to_string()),
        })
    };
    assert_eq!(create_refused(named("x")).1, "Provided vm_id is not a valid UUID format.");
    assert_eq!(
        create_refused(named("00000000-0000-0000-0000-000000000000")),
        (Code::InvalidArgument, "Provided vm_id cannot be the nil UUID.".to_string())
    );
    assert!(matches!(handle_create_vm_command(named("")), CreateStep::Pull { .. }));
    let taken = CreateProgress::LookedUp {
        vm_id: ID,
        wanted: Some(config()),
        found: Ok(Some(record(VmState::Created))),
    };
    assert_eq!(
        create_refused(taken),
        (Code::AlreadyExists, format!("VM with ID {ID_TEXT} already exists."))
    );
    let mut unnamed = config();
    unnamed.image_ref = String::new();
    let received =
        CreateProgress::Received(CreateVmRequest { config: Some(unnamed), vm_id: None });
    assert_eq!(
        create_refused(received).1,
        "VmConfig with a non-empty image_ref is required"
    );
    let failed = CreateProgress::Pulled {
        vm_id: ID,
        config: config(),
        outcome: PullOutcome::Failed("down".to_string()),
    };
    assert_eq!(
        create_refused(failed),
        (Code::Unavailable, "PullImage RPC failed for ghcr.io/x/y: down".to_string())
    );
    let unsaved = CreateProgress::Saved {
        record: record(VmState::Creating),
        image_uuid: IMAGE_TEXT.to_string(),
        stored: Err("disk".to_string()),
    };
    assert_eq!(create_refused(unsaved).1, "Failed to save VM to database: disk");
    assert_eq!(choose_vm_id(&None, 9).unwrap(), (9, false));
    assert_eq!(choose_vm_id(&Some(ID_TEXT.to_string()), 9).unwrap(), (ID, true));
}

#[test]
fn vm_commands_follow_the_state() {
    let allowed = |op: Operation| -> Vec<VmState> {
        STATES.into_iter().filter(|s| check_state(op, *s).is_ok()).collect()
    };
    assert_eq!(allowed(Operation::Start), vec![VmState::Created, VmState::Stopped]);
    assert_eq!(allowed(Operation::Shutdown), vec![VmState::Running]);
    assert_eq!(allowed(Operation::Pause), vec![VmState::Running]);
    assert_eq!(allowed(Operation::Resume), vec![VmState::Paused]);
    assert_eq!(allowed(Operation::Console), vec![VmState::Running]);
    let refused = check_state(Operation::Console, VmState::Stopped).unwrap_err();
    assert!(refused.message().contains("Invalid VM state"));
    assert!(refused.into_status().message.contains("Stopped"));
}

#[test]
fn crashed_vms_take_no_command() {
    for (command, op) in [
        (Command::StartVm(request()), Operation::Start),
        (Command::PauseVm(request()), Operation::Pause),
        (Command::ShutdownVm(request()), Operation::Shutdown),
        (Command::ResumeVm(request()), Operation::Resume),
    ] {
        match VmServiceDispatcher::run(command) {
            FirstStep::Check { id: ID, op: asked, .. } => assert_eq!(asked, op),
            _ => panic!(),
        }
        let found = Ok(Some(record(VmState::Crashed)));
        let refused = VmServiceDispatcher::state_checked(ID, op, found).unwrap_err();
        assert_eq!(refused.code, Code::FailedPrecondition);
    }
    // It can still be deleted.
    assert!(matches!(
        VmServiceDispatcher::run(Command::DeleteVm(request())),
        FirstStep::Delete(DeleteStep::LookUp { id: ID, .. })
    ));
    let gone = VmServiceDispatcher::state_checked(ID, Operation::Start, Ok(None)).unwrap_err();
    assert_eq!(gone.message, format!("VM with ID {ID_TEXT} not found"));
    let bad = VmRequest { vm_id: "x".to_string() };
    match VmServiceDispatcher::run(Command::PauseVm(bad)) {
        FirstStep::Refuse(s) => assert_eq!(s.message, "Invalid VM ID format."),
        _ => panic!(),
    }
}

fn told(w: &VmEventWrapper) -> (VmState, String) {
    let data = w.event.data.as_ref().unwrap();
    (data.change.new_state, data.change.reason.clone())
}

#[test]
fn vm_lifecycle_is_broadcast() {
    let step = |progress| worker::handle_create_vm(ID_TEXT, IMAGE_TEXT, "ref", progress);
    match step(worker::CreateProgress::Accepted) {
        worker::CreateAction::Answer(response) => assert_eq!(response.vm_id, ID_TEXT),
        _ => panic!(),
    }
    match step(worker::CreateProgress::Answered(true)) {
        worker::CreateAction::Announce(w) => {
            assert_eq!(told(&w), (VmState::Creating, "VM creation process started".to_string()))
        }
        _ => panic!(),
    }
    match step(worker::CreateProgress::Announced) {
        worker::CreateAction::WaitForImage { image_uuid, image_ref } => {
            assert_eq!((image_uuid.as_str(), image_ref.as_str()), (IMAGE_TEXT, "ref"))
        }
        _ => panic!(),
    }
    assert!(matches!(
        step(worker::CreateProgress::ImageWaited(Ok(()))),
        worker::CreateAction::CreateInHypervisor
    ));
    match step(worker::CreateProgress::HypervisorDone(Ok(Some(7)))) {
        worker::CreateAction::Conclude(w) => {
            assert_eq!(told(&w).0, VmState::Created);
            assert_eq!(w.process_id, Some(7));
            assert_eq!(w.event.component_id, "vm-service");
        }
        _ => panic!(),
    }
    match step(worker::CreateProgress::HypervisorDone(Err(VmmError::Internal("x".to_string())))) {
        worker::CreateAction::Conclude(w) => assert_eq!(
            told(&w),
            (VmState::Crashed, "An internal or unexpected error occurred: x".to_string())
        ),
        _ => panic!(),
    }
    let started = worker::handle_start_vm(ID_TEXT, Ok(()));
    assert_eq!(told(&started.event.unwrap()).0, VmState::Running);
    assert!(started.monitor && started.answer.is_ok());
    let stopped = worker::handle_shutdown_vm(ID_TEXT, Ok(()));
    assert_eq!(told(&stopped.event.unwrap()).0, VmState::Stopped);
    assert!(!stopped.monitor);
    let paused = worker::handle_pause_vm(ID_TEXT, Ok(()));
    assert_eq!(told(&paused.event.unwrap()).0, VmState::Paused);
    let resumed = worker::handle_resume_vm(ID_TEXT, Ok(()));
    assert_eq!(
        told(&resumed.event.unwrap()),
        (VmState::Running, "Resume command successful".to_string())
    );
    let failed =
        worker::handle_start_vm(ID_TEXT, Err(VmmError::VmNotFound(ID_TEXT.to_string())));
    assert!(failed.event.is_none() && !failed.monitor);
    assert_eq!(failed.answer.unwrap_err().code, Code::NotFound);
}

#[test]
fn images_of_vms_are_awaited() {
    let wait = |event| worker::wait_for_image_ready("u", "r", event);
    let status = |state| worker::WatchEvent::Status(state, "why".to_string());
    assert_eq!(worker::image_of(&Some(config())), "ghcr.io/x/y");
    assert_eq!(worker::image_of(&None), "");
    assert!(wait(status(ImageState::Downloading)).is_none());
    assert!(wait(status(ImageState::Ready)).unwrap().is_ok());
    assert_eq!(
        wait(status(ImageState::PullFailed)).unwrap().unwrap_err().into_status().message,
        "Image pull failed for r (uuid: u): why"
    );
    let lost = worker::WatchEvent::NotConnected("e".to_string());
    assert_eq!(
        wait(lost).unwrap().unwrap_err().into_status().message,
        "Failed to connect to ImageService: e"
    );
}

fn message(state: VmState, process_id: Option<i64>) -> BusMessage {
    let change = VmStateChangedEvent { new_state: state, reason: "why".to_string() };
    BusMessage {
        vm_id: ID_TEXT.to_string(),
        process_id,
        data: Some((
            "type.googleapis.com/feos.vm.vmm.api.v1.VmStateChangedEvent".to_string(),
            Decoded::Change(change),
        )),
    }
}

#[test]
fn broadcast_states_are_recorded() {
    let msg = message(VmState::Running, Some(42));
    let step = |progress| VmServiceDispatcher::handle_vm_event(&msg, progress);
    assert!(matches!(step(EventProgress::Received), EventAction::StorePid { id: ID, pid: 42 }));
    match step(EventProgress::PidStored) {
        EventAction::StoreStatus { id: ID, state: VmState::Running, reason } => {
            assert_eq!(reason, "why")
        }
        _ => panic!(),
    }
    assert!(matches!(step(EventProgress::StatusStored(Ok(true))), EventAction::Forward));
    assert!(matches!(step(EventProgress::StatusStored(Ok(false))), EventAction::Drop));
    let mut other = message(VmState::Running, None);
    other.data = Some(("type.googleapis.com/Other".to_string(), Decoded::UnknownState(9)));
    assert!(matches!(
        VmServiceDispatcher::handle_vm_event(&other, EventProgress::Received),
        EventAction::Drop
    ));
    let mut unnamed = message(VmState::Running, None);
    unnamed.vm_id = "x".to_string();
    assert!(matches!(
        VmServiceDispatcher::handle_vm_event(&unnamed, EventProgress::Received),
        EventAction::Drop
    ));
}

#[test]
fn watchers_are_told_the_present_state_first() {
    let one = StreamVmEventsRequest { vm_id: Some(ID_TEXT.to_string()) };
    let (vm_id, id) = match handle_stream_vm_events_command(StreamProgress::Received(one)) {
        StreamStep::LookUp { vm_id, id } => (vm_id, id),
        _ => panic!(),
    };
    let found = Ok(Some(record(VmState::Running)));
    match handle_stream_vm_events_command(StreamProgress::LookedUp { vm_id, id, found }) {
        StreamStep::SendOne { event, vm_id } => {
            assert_eq!(event.component_id, "vm-service-db");
            assert_eq!(event.data.unwrap().change.reason, "msg");
            assert!(matches!(
                handle_stream_vm_events_command(StreamProgress::SentOne {
                    vm_id,
                    delivered: true,
                }),
                StreamStep::Live(StreamVmEventsRequest { vm_id: Some(_) })
            ));
        }
        _ => panic!(),
    }
    let all = StreamVmEventsRequest { vm_id: None };
    assert!(matches!(
        handle_stream_vm_events_command(StreamProgress::Received(all)),
        StreamStep::ListAll
    ));
    let records = vec![record(VmState::Created), record(VmState::Running)];
    let rest = match handle_stream_vm_events_command(StreamProgress::Listed(Ok(records))) {
        StreamStep::SendNext { event, rest } => {
            assert_eq!(event.data.unwrap().change.reason, "Initial state from DB: msg");
            rest
        }
        _ => panic!(),
    };
    assert_eq!(rest.len(), 1);
    assert!(matches!(
        handle_stream_vm_events_command(StreamProgress::SentNext { rest, delivered: false }),
        StreamStep::End
    ));
    match handle_stream_vm_events_command(StreamProgress::LookedUp {
        vm_id: ID_TEXT.to_string(),
        id: ID,
        found: Ok(None),
    }) {
        StreamStep::Fail(s) => assert_eq!(s.code, Code::NotFound),
        _ => panic!(),
    }
}

#[test]
fn watchers_hear_of_what_they_watch() {
    let event = || match worker::handle_start_vm(ID_TEXT, Ok(())).event {
        Some(w) => BusEvent::Event(w),
        None => panic!(),
    };
    let watch = |vm_id: Option<&str>| StreamVmEventsRequest {
        vm_id: vm_id.map(|s| s.to_string()),
    };
    assert!(matches!(
        handle_stream_vm_events(&watch(Some(ID_TEXT)), event()),
        LiveStep::Forward(_)
    ));
    assert!(matches!(handle_stream_vm_events(&watch(None), event()), LiveStep::Forward(_)));
    assert!(matches!(handle_stream_vm_events(&watch(Some("x")), event()), LiveStep::Skip));
    assert!(matches!(
        handle_stream_vm_events(&watch(None), BusEvent::Lagged(3)),
        LiveStep::Skip
    ));
    assert!(matches!(handle_stream_vm_events(&watch(None), BusEvent::Closed), LiveStep::Stop));
}

#[test]
fn vms_are_deleted() {
    let found = Ok(Some(record(VmState::Crashed)));
    let looked = DeleteProgress::LookedUp { id: ID, request: request(), found };
    match handle_delete_vm_command(looked) {
        DeleteStep::DeleteRecord { id: ID, image_uuid, process_id, .. } => {
            assert_eq!(image_uuid, IMAGE_TEXT);
            assert_eq!(process_id, Some(42));
        }
        _ => panic!(),
    }
    let unknown = DeleteProgress::LookedUp { id: ID, request: request(), found: Ok(None) };
    match handle_delete_vm_command(unknown) {
        DeleteStep::CancelMonitor { image_uuid, process_id: None, .. } => {
            assert_eq!(image_uuid, "")
        }
        _ => panic!(),
    }
    let kept = DeleteProgress::RecordDeleted {
        id: ID,
        request: request(),
        image_uuid: IMAGE_TEXT.to_string(),
        process_id: None,
        removed: Err("disk".to_string()),
    };
    match handle_delete_vm_command(kept) {
        DeleteStep::Refuse(s) => assert_eq!(s.message, "Failed to delete VM from database."),
        _ => panic!(),
    }
    let done = worker::handle_delete_vm(IMAGE_TEXT.to_string(), Ok(()));
    assert_eq!(done.delete_image.as_deref(), Some(IMAGE_TEXT));
    assert!(done.answer.is_ok());
    assert!(worker::handle_delete_vm(String::new(), Ok(())).delete_image.is_none());
    let steps = CloudHypervisorAdapter::delete_vm(ID_TEXT, Some(42), &dirs());
    assert_eq!(steps.len(), 4);
    assert!(matches!(&steps[0], CleanupStep::DeleteViaApi { socket }
        if socket == &format!("/run/api/{ID_TEXT}")));
    assert!(matches!(steps[1], CleanupStep::Kill { pid: 42 }));
    assert!(matches!(&steps[3], CleanupStep::RemoveSocket { path }
        if path == &format!("/run/consoles/{ID_TEXT}.console")));
}

#[test]
fn vms_of_an_earlier_run_are_checked() {
    assert_eq!(process_to_probe(&record(VmState::Running)), Some(42));
    assert!(matches!(
        check_and_cleanup_vms(&record(VmState::Running), true),
        SanityAction::Monitor { .. }
    ));
    match check_and_cleanup_vms(&record(VmState::Running), false) {
        SanityAction::Delete(req) => assert_eq!(req.vm_id, ID_TEXT),
        _ => panic!(),
    }
    let mut unknown = record(VmState::Created);
    unknown.status.process_id = None;
    assert!(process_to_probe(&unknown).is_none());
    assert!(matches!(check_and_cleanup_vms(&unknown, false), SanityAction::Leave));
    assert!(perform_startup_sanity_check(Err("e".to_string())).is_empty());
    assert_eq!(perform_startup_sanity_check(Ok(vec![unknown])).len(), 1);
}

#[test]
fn vms_are_described() {
    let info = handle_get_vm_command(ID, Ok(Some(record(VmState::Running)))).unwrap();
    assert_eq!(info.state, VmState::Running);
    assert_eq!(info.vm_id, ID_TEXT);
    let gone = handle_get_vm_command(ID, Ok(None)).unwrap_err();
    assert_eq!(gone.message, format!("VM with ID {ID_TEXT} not found"));
    assert_eq!(
        handle_get_vm_command(ID, Err("e".to_string())).unwrap_err().message,
        "Failed to retrieve VM information."
    );
    let listed = handle_list_vms_command(Ok(vec![record(VmState::Paused)])).unwrap();
    assert_eq!(listed.vms[0].state, VmState::Paused);
    assert!(handle_list_vms_command(Err("e".to_string())).is_err());
}

#[test]
fn network_devices_are_converted() {
    match convert_net_config_to_ch(&tap("", "52:54:00:00:00:01")).unwrap() {
        ChNetworkDevice::Net(net) => {
            assert_eq!(net.id.as_deref(), Some("tap0"));
            assert_eq!(net.tap.as_deref(), Some("tap0"));
            assert_eq!(net.mac.as_deref(), Some("52:54:00:00:00:01"));
        }
        _ => panic!(),
    }
    let device = convert_net_config_to_ch(&passed_through("")).unwrap();
    assert_eq!(device.id().as_deref(), Some("/sys/bus/pci/devices/0000:03:00.1"));
    let named = convert_net_config_to_ch(&passed_through("nic0")).unwrap();
    assert_eq!(named.id().as_deref(), Some("nic0"));
    let mut loose = tap("", "");
    loose.backend = None;
    assert!(matches!(
        convert_net_config_to_ch(&loose),
        Err(VmmError::InvalidConfig(m)) if m == "NetConfig backend (tap or vfio_pci) is required"
    ));
}

#[test]
fn vms_are_configured() {
    let mut wanted = config();
    wanted.net = vec![tap("", ""), passed_through("nic1"), tap("nic2", "")];
    wanted.ignition = Some("{}".to_string());
    assert!(memory_size_fits(&wanted));
    let ch = build_vm_config(ID_TEXT, wanted, IMAGE_TEXT, &dirs()).unwrap();
    assert_eq!(ch.disk_path, format!("/var/lib/feos/images/{IMAGE_TEXT}/disk.image"));
    assert_eq!(ch.serial_socket, format!("/run/consoles/{ID_TEXT}.console"));
    assert_eq!(ch.memory.unwrap().size, 2048 * 1024 * 1024);
    assert_eq!(ch.cpus.unwrap().max_vcpus, 4);
    assert_eq!(ch.net.unwrap().len(), 2);
    assert_eq!(ch.devices.unwrap()[0].id.as_deref(), Some("nic1"));
    assert_eq!(ch.platform.unwrap().oem_strings, vec!["{}"]);
    let plain = build_vm_config(ID_TEXT, config(), IMAGE_TEXT, &dirs()).unwrap();
    assert!(plain.net.is_none() && plain.devices.is_none() && plain.platform.is_none());
    let mut huge = config();
    huge.memory = Some(MemoryConfig { size_mib: 1 << 44, hugepages: false });
    assert!(!memory_size_fits(&huge));
}

#[test]
fn vms_are_created_in_the_hypervisor() {
    let step = |progress| {
        CloudHypervisorAdapter::perform_vm_creation(ID_TEXT, IMAGE_TEXT, &dirs(), progress)
    };
    assert!(matches!(
        step(CreationProgress::Started(config())),
        CreationStep::WaitForSocket { .. }
    ));
    let late = CreationProgress::SocketWaited { config: config(), appeared: false };
    assert!(matches!(
        step(late),
        CreationStep::Finish(Err(VmmError::ApiConnectionFailed(m)))
            if m == "Timed out waiting for API socket"
    ));
    let made = CreationProgress::ConsoleDirMade { config: config(), made: Ok(()) };
    assert!(matches!(step(made), CreationStep::Configure(_)));
    assert!(matches!(
        step(CreationProgress::Configured(Err("e".to_string()))),
        CreationStep::Finish(Err(VmmError::ApiOperationFailed(m)))
            if m == "vm.create API call failed: e"
    ));
    let (result, kill) = CloudHypervisorAdapter::create_vm(ProcessOutcome::Created {
        pid: Some(7),
        result: Ok(()),
    });
    assert_eq!(result.unwrap(), Some(7));
    assert!(!kill);
    let (result, kill) = CloudHypervisorAdapter::create_vm(ProcessOutcome::Created {
        pid: Some(7),
        result: Err(VmmError::Internal("x".to_string())),
    });
    assert!(result.is_err() && kill);
    let adapter = factory(VmmType::CloudHypervisor, "/bin/ch".to_string());
    assert_eq!(adapter.ch_binary_path, "/bin/ch");
    let missing = CreateVmRequest { config: None, vm_id: None };
    assert!(CloudHypervisorAdapter::required_config(missing).is_err());
}

#[test]
fn hypervisor_calls_are_answered() {
    assert!(CloudHypervisorAdapter::start_vm("v", ApiReply::Done(())).is_ok());
    assert!(matches!(
        CloudHypervisorAdapter::pause_vm("v", ApiReply::NoSocket),
        Err(VmmError::VmNotFound(id)) if id == "v"
    ));
    assert!(matches!(
        CloudHypervisorAdapter::resume_vm("v", ApiReply::Failed("e".to_string())),
        Err(VmmError::ApiOperationFailed(m)) if m == "e"
    ));
    let info =
        CloudHypervisorAdapter::get_vm("v".to_string(), ApiReply::Done(ChVmState::Shutdown));
    assert_eq!(info.unwrap().state, VmState::Stopped);
    let ping = ChPing {
        build_version: None,
        version: "1".to_string(),
        pid: None,
        features: None,
    };
    let pong = CloudHypervisorAdapter::ping_vm("v", ApiReply::Done(ping)).unwrap();
    assert_eq!((pong.version.as_str(), pong.pid), ("1", 0));
    assert!(CloudHypervisorAdapter::attach_disk().is_err());
    assert!(CloudHypervisorAdapter::remove_disk().is_err());
    let req = RemoveNicRequest { vm_id: "v".to_string(), device_id: "d".to_string() };
    assert!(matches!(
        CloudHypervisorAdapter::remove_nic(&req, ApiReply::Failed("e".to_string())),
        Err(VmmError::ApiOperationFailed(m)) if m == "vm.remove-device failed: e"
    ));
}

#[test]
fn network_devices_come_and_go() {
    let req = AttachNicRequest { vm_id: ID_TEXT.to_string(), nic: Some(tap("", "")) };
    let (device, device_id) = match CloudHypervisorAdapter::attach_nic(req, true) {
        NicStep::Add { device, device_id } => (device, device_id),
        _ => panic!(),
    };
    assert_eq!(device_id, "tap0");
    let added = CloudHypervisorAdapter::nic_attached(&device, device_id, Ok(())).unwrap();
    let mut nics = vec![tap("other", "")];
    record_attached_nic(&mut nics, tap("", ""), added);
    assert_eq!(nics[1].device_id, "tap0");
    let nics = record_removed_nic(nics, "tap0");
    assert_eq!(nics.len(), 1);
    assert_eq!(nics[0].device_id, "other");
    let failed =
        CloudHypervisorAdapter::nic_attached(&device, "d".to_string(), Err("e".to_string()));
    assert!(matches!(failed, Err(VmmError::ApiOperationFailed(m)) if m == "vm.add-net failed: e"));
    let missing = AttachNicRequest { vm_id: ID_TEXT.to_string(), nic: None };
    assert!(matches!(
        CloudHypervisorAdapter::attach_nic(missing, true),
        NicStep::Fail(VmmError::InvalidConfig(_))
    ));
    let absent = AttachNicRequest { vm_id: ID_TEXT.to_string(), nic: None };
    assert!(matches!(
        CloudHypervisorAdapter::attach_nic(absent, false),
        NicStep::Fail(VmmError::VmNotFound(_))
    ));
}

#[test]
fn crashes_are_noticed() {
    let step = |event| CloudHypervisorAdapter::healthcheck_vm(ID_TEXT, ID, event);
    assert!(matches!(step(HealthEvent::Pinged(Ok(()))), HealthAction::Continue));
    match step(HealthEvent::Pinged(Err(VmmError::VmNotFound("v".to_string())))) {
        HealthAction::Report(w) => {
            assert_eq!(
                told(&w),
                (
                    VmState::Crashed,
                    "Healthcheck failed: The requested VM (id: v) could not be found".to_string()
                )
            );
            assert_eq!(w.event.component_id, "vm-health-monitor");
        }
        _ => panic!(),
    }
    assert!(matches!(step(HealthEvent::Cancelled(ID)), HealthAction::Stop));
    assert!(matches!(step(HealthEvent::Cancelled(1)), HealthAction::Continue));
    assert!(matches!(step(HealthEvent::ChannelClosed), HealthAction::Continue));
}

#[test]
fn consoles_are_bridged() {
    let attach = ConsoleMessage::Attach { vm_id: ID_TEXT.to_string() };
    match handle_stream_vm_console(ConsoleProgress::Opened(Some(Ok(attach)))) {
        ConsoleStep::Locate { vm_id } => assert_eq!(vm_id, ID_TEXT),
        _ => panic!(),
    }
    match handle_stream_vm_console(ConsoleProgress::Opened(None)) {
        ConsoleStep::Fail(s) => {
            assert_eq!(s.message, "Client disconnected before sending Attach message.")
        }
        _ => panic!(),
    }
    let bridge = |event| bridge_console_streams(&mut Bridge::new(), "/run/a b.console", event);
    match bridge(BridgeEvent::NotConnected("ENOENT".to_string())) {
        BridgeAction::Fail(s) => assert_eq!(
            s.message,
            "Failed to connect to console socket at \"/run/a b.console\": ENOENT"
        ),
        _ => panic!(),
    }
    match bridge(BridgeEvent::ConsoleRead(b"login:".to_vec())) {
        BridgeAction::ToClient(output) => assert_eq!(output, b"login:"),
        _ => panic!(),
    }
    assert!(matches!(bridge(BridgeEvent::ConsoleRead(Vec::new())), BridgeAction::Wait));
    match bridge(BridgeEvent::ClientSent(ConsoleMessage::Data(b"root".to_vec()))) {
        BridgeAction::ToConsole(input) => assert_eq!(input, b"root"),
        _ => panic!(),
    }
    let again = ConsoleMessage::Attach { vm_id: ID_TEXT.to_string() };
    match bridge(BridgeEvent::ClientSent(again)) {
        BridgeAction::Fail(s) => {
            assert_eq!(s.message, "Cannot send Attach message more than once.")
        }
        _ => panic!(),
    }
    match bridge(BridgeEvent::ClientSent(ConsoleMessage::Empty)) {
        BridgeAction::Fail(s) => assert_eq!(s.message, "Empty ConsoleInput payload."),
        _ => panic!(),
    }
    assert!(matches!(
        CloudHypervisorAdapter::get_console_socket_path(ID_TEXT, &dirs(), Ok(false)),
        Err(VmmError::VmNotFound(_))
    ));
}

#[test]
fn vm_errors_are_answered() {
    let text = || "m".to_string();
    let cases = vec![
        (VmServiceError::Vmm(VmmError::ProcessSpawnFailed(text())), Code::Internal),
        (VmServiceError::Vmm(VmmError::InvalidConfig(text())), Code::InvalidArgument),
        (VmServiceError::Vmm(VmmError::ApiConnectionFailed(text())), Code::Unavailable),
        (VmServiceError::Vmm(VmmError::ApiOperationFailed(text())), Code::Internal),
        (VmServiceError::Vmm(VmmError::VmNotFound(text())), Code::NotFound),
        (VmServiceError::Vmm(VmmError::ImageServiceFailed(text())), Code::Unavailable),
        (VmServiceError::Vmm(VmmError::Internal(text())), Code::Internal),
        (
            VmServiceError::Persistence(PersistenceError::Database(DatabaseError::RowNotFound)),
            Code::NotFound,
        ),
        (VmServiceError::Persistence(PersistenceError::Encode(text())), Code::Internal),
        (VmServiceError::ImageService(text()), Code::Unavailable),
        (VmServiceError::InvalidArgument(text()), Code::InvalidArgument),
        (VmServiceError::AlreadyExists(text()), Code::AlreadyExists),
        (VmServiceError::InvalidState(text()), Code::FailedPrecondition),
    ];
    for (error, code) in cases {
        assert_eq!(error.into_status().code, code);
    }
}

#[test]
fn what_an_identifier_was_read_as_decides() {
    let said = |s: feos::rpc::RpcStatus| (s.code, s.message);
    assert_eq!(create::accept_vm_id(Ok(7)).unwrap(), 7);
    assert_eq!(
        said(create::accept_vm_id(Ok(0)).unwrap_err()),
        (Code::InvalidArgument, "Provided vm_id cannot be the nil UUID.".to_string())
    );
    assert_eq!(
        said(create::accept_vm_id(Err("bad length".to_string())).unwrap_err()),
        (Code::InvalidArgument, "Provided vm_id is not a valid UUID format.".to_string())
    );
    assert_eq!(known_vm_id(Ok(7)).unwrap(), 7);
    assert_eq!(
        said(known_vm_id(Err("bad length".to_string())).unwrap_err()),
        (Code::InvalidArgument, "Invalid VM ID format.".to_string())
    );
}

#[test]
fn consoles_that_cannot_be_reached_are_named() {
    match refuse_connection("\"/run/a.console\"", "gone") {
        BridgeAction::Fail(s) => {
            assert_eq!(s.code, Code::Unavailable);
            assert_eq!(
                s.message,
                "Failed to connect to console socket at \"/run/a.console\": gone"
            );
        }
        _ => panic!("the bridge stayed open"),
    }
}

#[test]
fn one_direction_of_a_console_outlives_the_other() {
    let path = "/run/a.console";
    let typed = |text: &[u8]| BridgeEvent::ClientSent(ConsoleMessage::Data(text.to_vec()));
    for end in [BridgeEvent::ClientEnded, BridgeEvent::ClientFailed, BridgeEvent::ConsoleWritten(false)] {
        let mut bridge = Bridge::new();
        assert!(matches!(bridge_console_streams(&mut bridge, path, end), BridgeAction::Wait));
        match bridge_console_streams(&mut bridge, path, BridgeEvent::ConsoleRead(b"late".to_vec())) {
            BridgeAction::ToClient(output) => assert_eq!(output, b"late"),
            _ => panic!("the client was cut off"),
        }
        assert!(matches!(bridge_console_streams(&mut bridge, path, typed(b"x")), BridgeAction::Wait));
        let over = bridge_console_streams(&mut bridge, path, BridgeEvent::ConsoleRead(Vec::new()));
        assert!(matches!(over, BridgeAction::Close));
    }
    for end in [BridgeEvent::ConsoleRead(Vec::new()), BridgeEvent::ClientGone] {
        let mut bridge = Bridge::new();
        assert!(matches!(bridge_console_streams(&mut bridge, path, end), BridgeAction::Wait));
        match bridge_console_streams(&mut bridge, path, typed(b"exit")) {
            BridgeAction::ToConsole(input) => assert_eq!(input, b"exit"),
            _ => panic!("the console was cut off"),
        }
        let written = BridgeEvent::ConsoleWritten(true);
        assert!(matches!(bridge_console_streams(&mut bridge, path, written), BridgeAction::Wait));
        let over = bridge_console_streams(&mut bridge, path, BridgeEvent::ClientEnded);
        assert!(matches!(over, BridgeAction::Close));
    }
}

#[test]
fn a_refusal_ends_one_direction() {
    let path = "/run/a.console";
    let data = || BridgeEvent::ClientSent(ConsoleMessage::Data(b"x".to_vec()));
    let again = ConsoleMessage::Attach { vm_id: ID_TEXT.to_string() };
    for refused in [again, ConsoleMessage::Empty] {
        let mut bridge = Bridge::new();
        let told = bridge_console_streams(&mut bridge, path, BridgeEvent::ClientSent(refused));
        assert!(matches!(told, BridgeAction::Fail(s) if s.code == Code::InvalidArgument));
        assert_eq!(bridge, Bridge { to_client: true, to_console: false });
        assert!(matches!(bridge_console_streams(&mut bridge, path, data()), BridgeAction::Wait));
        match bridge_console_streams(&mut bridge, path, BridgeEvent::ConsoleRead(b"y".to_vec())) {
            BridgeAction::ToClient(output) => assert_eq!(output, b"y"),
            _ => panic!("the client was cut off"),
        }
    }
    let mut bridge = Bridge::new();
    let failed = || BridgeEvent::ConsoleFailed("reset".to_string());
    match bridge_console_streams(&mut bridge, path, failed()) {
        BridgeAction::Fail(s) => {
            assert_eq!(s.code, Code::Internal);
            assert_eq!(s.message, "Error reading from console socket: reset");
        }
        _ => panic!("the client was not told"),
    }
    assert_eq!(bridge, Bridge { to_client: false, to_console: true });
    match bridge_console_streams(&mut bridge, path, data()) {
        BridgeAction::ToConsole(input) => assert_eq!(input, b"x"),
        _ => panic!("the console was cut off"),
    }
    assert!(matches!(bridge_console_streams(&mut bridge, path, failed()), BridgeAction::Wait));
}

#[test]
fn nothing_passes_a_closed_bridge() {
    let path = "/run/a.console";
    let again = || ConsoleMessage::Attach { vm_id: ID_TEXT.to_string() };
    for ends in [
        vec![BridgeEvent::ClientSent(again()), BridgeEvent::ConsoleRead(Vec::new())],
        vec![BridgeEvent::ConsoleFailed("reset".to_string()), BridgeEvent::ClientEnded],
        vec![BridgeEvent::NotConnected("gone".to_string())],
    ] {
        let mut bridge = Bridge::new();
        for end in ends {
            bridge_console_streams(&mut bridge, path, end);
        }
        assert_eq!(bridge, Bridge { to_client: false, to_console: false });
        for late in [
            BridgeEvent::ClientSent(ConsoleMessage::Data(b"x".to_vec())),
            BridgeEvent::ConsoleRead(b"y".to_vec()),
            BridgeEvent::ClientSent(again()),
            BridgeEvent::ConsoleFailed("reset".to_string()),
            BridgeEvent::NotConnected("gone".to_string()),
        ] {
            let next = bridge_console_streams(&mut bridge, path, late);
            assert!(matches!(next, BridgeAction::Close));
        }
    }
}
