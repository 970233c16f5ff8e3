use feos::cli::container::{
    container_created, container_deleted, container_started, container_stopped,
    get_container_info, handle_container_command, list_containers, parse_key_val, ContainerArgs,
    ContainerCall, ContainerCommand,
};
use feos::cli::host::{
    get_cpu_info, get_hostname, get_memory, get_network_info, handle_host_command, reboot_host,
    shutdown_host, stream_klogs, upgrade_feos, HostArgs, HostCall, HostCommand, LogStep,
    UpgradeProgress, UpgradeStep,
};
use feos::cli::image::{
    delete_image, handle_image_command, list_images, pull_image, watch_image, ImageArgs,
    ImageCall, ImageCommand, ImageStatus, WatchStep,
};
use feos::cli::{DEFAULT_ADDRESS, DEFAULT_IMAGE_SOCKET};
use feos::container::{
    ContainerConfig, ContainerInfo, ContainerState, CreateContainerResponse,
};
use feos::digest::checksum;
use feos::host::info::{
    handle_get_network_info, read_and_parse_cpuinfo, read_and_parse_meminfo, HostnameResponse,
    NetEntry,
};
use feos::host::upload::{self, FileRead, UploadAction, UploadMessage, UploadProgress};
use feos::image::{ImageInfo, ImageState};
use feos::table::TextMap;

#[test]
fn variables_are_read() {
    assert_eq!(parse_key_val("K=V=W"), Ok(("K".to_string(), "V=W".to_string())));
    assert_eq!(parse_key_val("K="), Ok(("K".to_string(), String::new())));
    assert_eq!(parse_key_val("novalue"), Err("invalid KEY=value format: novalue".to_string()));
}

#[test]
fn container_commands_become_requests() {
    let args = ContainerArgs {
        address: DEFAULT_ADDRESS.to_string(),
        command: ContainerCommand::Create {
            image_ref: "alpine".to_string(),
            id: None,
            cmd: vec!["sh".to_string()],
            env: vec![
                ("A".to_string(), "1".to_string()),
                ("B".to_string(), "2".to_string()),
                ("A".to_string(), "3".to_string()),
            ],
        },
    };
    assert_eq!(args.address, "http://[::1]:1337");
    let (line, call) = handle_container_command(args.command);
    assert_eq!(line.unwrap(), "Requesting container creation with image: alpine...");
    match call {
        ContainerCall::Create(request) => {
            let config = request.config.unwrap();
            let mut env = config.env;
            env.sort();
            assert_eq!(
                env,
                vec![("A".to_string(), "3".to_string()), ("B".to_string(), "2".to_string())]
            );
            assert_eq!(config.command, vec!["sh"]);
            assert!(request.container_id.is_none());
        }
        _ => panic!(),
    }
    let (line, call) = handle_container_command(ContainerCommand::Stop { id: "c".to_string() });
    assert_eq!(line.unwrap(), "Requesting to stop container: c...");
    assert!(matches!(call, ContainerCall::Stop(r) if r.signal.is_none()));
    let (line, call) = handle_container_command(ContainerCommand::Start { id: "c".to_string() });
    assert_eq!(line.unwrap(), "Requesting to start container: c...");
    assert!(matches!(call, ContainerCall::Start(r) if r.container_id == "c"));
    let (line, call) = handle_container_command(ContainerCommand::Delete { id: "c".to_string() });
    assert_eq!(line.unwrap(), "Requesting to delete container: c...");
    assert!(matches!(call, ContainerCall::Delete(_)));
    assert!(handle_container_command(ContainerCommand::Info { id: "c".to_string() }).0.is_none());
    assert!(matches!(
        handle_container_command(ContainerCommand::List),
        (None, ContainerCall::List)
    ));
}

fn container(config: Option<ContainerConfig>) -> ContainerInfo {
    ContainerInfo {
        container_id: "c1".to_string(),
        state: ContainerState::Running,
        config,
        pid: Some(42),
        exit_code: None,
    }
}

#[test]
fn containers_are_shown() {
    let config = ContainerConfig {
        image_ref: "alpine".to_string(),
        command: vec!["echo".to_string(), "a \"b\"".to_string()],
        env: vec![("K".to_string(), "V".to_string()), ("L".to_string(), "\n".to_string())],
    };
    assert_eq!(
        get_container_info("c1", &container(Some(config))),
        vec![
            "Container Info for: c1",
            "  State: Running",
            "  PID: 42",
            "  Config:",
            "    Image Ref: alpine",
            "    Command: [\"echo\", \"a \\\"b\\\"\"]",
            "    Env: {\"K\": \"V\", \"L\": \"\\n\"}",
        ]
    );
    let mut ended = container(None);
    ended.exit_code = Some(-1);
    assert_eq!(get_container_info("c1", &ended)[3], "  Exit Code: -1");
    assert_eq!(list_containers(&Vec::new()), vec!["No containers found."]);
    let listed = list_containers(&vec![container(None)]);
    assert_eq!(listed[0], format!("{:<38} {:<15} IMAGE_REF", "CONTAINER_ID", "STATE"));
    assert_eq!(listed[1], format!("{:-<38} {:-<15} {:-<40}", "", "", ""));
    assert_eq!(listed[2], format!("{:<38} {:<15} N/A", "c1", "Running"));
    let created = CreateContainerResponse { container_id: "c1".to_string() };
    assert_eq!(
        container_created(&created)[1],
        "Use 'feos-cli container list' to check its status and \
         'feos-cli container start c1' to run it."
    );
    assert_eq!(container_started("c1"), "Start request sent for container: c1");
    assert_eq!(container_stopped("c1"), "Stop request sent for container: c1");
    assert_eq!(container_deleted("c1"), "Successfully deleted container: c1");
}

#[test]
fn images_are_shown() {
    let args = ImageArgs {
        socket: DEFAULT_IMAGE_SOCKET.to_string(),
        command: ImageCommand::Watch { image_uuid: "u".to_string() },
    };
    let (line, call) = handle_image_command(args.command);
    assert_eq!(line.unwrap(), "Watching status for image: u. Press Ctrl+C to stop.");
    assert!(matches!(call, ImageCall::Watch(r) if r.image_uuid == "u"));
    let (line, _) = handle_image_command(ImageCommand::Pull { image_ref: "r".to_string() });
    assert_eq!(line.unwrap(), "Requesting image pull for: r...");
    assert_eq!(pull_image("u")[0], "Image pull initiated. UUID: u");
    assert_eq!(pull_image("u")[1], "Use 'feos-cli image watch u' to see progress.");
    assert_eq!(delete_image("u"), "Successfully deleted image: u");
    assert_eq!(list_images(&Vec::new()), vec!["No local images found."]);
    let images = vec![ImageInfo {
        image_uuid: "u".to_string(),
        image_ref: "r".to_string(),
        state: ImageState::Ready,
    }];
    let shown = list_images(&images);
    assert_eq!(shown[0], format!("{:<38} {:<12} REFERENCE", "UUID", "STATE"));
    assert_eq!(shown[1], format!("{:-<38} {:-<12} {:-<40}", "", "", ""));
    assert_eq!(shown[2], format!("{:<38} {:<12} r", "u", "Ready"));
}

#[test]
fn watches_end_with_the_pull() {
    let status = |state, progress_percent| {
        watch_image(Some(Ok(ImageStatus { state, progress_percent, message: "m".to_string() })))
    };
    match status(ImageState::Downloading, 7) {
        WatchStep::Show(lines) => {
            assert_eq!(lines, vec!["Status: Downloading  | Progress:   7% | Message: m"])
        }
        _ => panic!(),
    }
    match status(ImageState::Ready, 100) {
        WatchStep::ShowLast(lines) => {
            assert_eq!(lines[0], "Status: Ready        | Progress: 100% | Message: m");
            assert_eq!(lines[1], "Terminal state reached. Exiting watch.");
        }
        _ => panic!(),
    }
    assert!(matches!(status(ImageState::PullFailed, 0), WatchStep::ShowLast(_)));
    match watch_image(Some(Err("lost".to_string()))) {
        WatchStep::Fail(line) => assert_eq!(line, "\nError in watch stream: lost"),
        _ => panic!(),
    }
    assert!(matches!(watch_image(None), WatchStep::End));
}

#[test]
fn host_commands_are_announced() {
    let args =
        HostArgs { address: DEFAULT_ADDRESS.to_string(), command: HostCommand::Shutdown };
    let (line, call) = handle_host_command(args.command);
    assert_eq!(line.unwrap(), "Requesting host shutdown...");
    assert!(matches!(call, HostCall::Shutdown));
    let (line, call) = handle_host_command(HostCommand::Reboot);
    assert_eq!(line.unwrap(), "Requesting host reboot...");
    assert!(matches!(call, HostCall::Reboot));
    assert!(matches!(handle_host_command(HostCommand::Memory), (None, HostCall::GetMemory)));
    let upgrade = HostCommand::Upgrade { binary_path: "/b".to_string() };
    assert!(matches!(handle_host_command(upgrade), (None, HostCall::Upgrade { .. })));
    let named = HostnameResponse { hostname: "node-1".to_string() };
    assert_eq!(get_hostname(&named), "node-1");
    assert!(shutdown_host().starts_with("Shutdown command sent"));
    assert!(reboot_host().starts_with("Reboot command sent"));
    match stream_klogs(Some(Err("s".to_string()))) {
        LogStep::Fail(line) => assert_eq!(line, "Error in kernel log stream: s"),
        _ => panic!(),
    }
    assert!(matches!(stream_klogs(Some(Ok("x".to_string()))), LogStep::Show(_)));
    assert!(matches!(stream_klogs(None), LogStep::End));
}

#[test]
fn memory_is_shown() {
    let info = read_and_parse_meminfo(&vec![
        "MemTotal: 16384 kB".to_string(),
        "DirectMap1G: 5 kB".to_string(),
    ]);
    let shown = get_memory(&Some(info));
    assert_eq!(shown.len(), 50);
    assert_eq!(shown[0], format!("{:<20} {:>15} kB", "Key", "Value"));
    assert_eq!(shown[1], format!("{:-<20} {:-<16}", "", ""));
    assert_eq!(shown[2], format!("{:<20} {:>15} kB", "MemTotal:", 16384));
    assert_eq!(shown[49], format!("{:<20} {:>15} kB", "DirectMap1G:", 5));
    assert_eq!(get_memory(&None), vec!["No memory information received from the host."]);
}

#[test]
fn processors_are_shown() {
    let mut cpus = read_and_parse_cpuinfo(&vec![
        "processor: 0".to_string(),
        "model name: Xeon".to_string(),
        "".to_string(),
        "processor: 1".to_string(),
    ]);
    cpus[0].cpu_mhz = "2400.000".to_string();
    let shown = get_cpu_info(&cpus);
    assert_eq!(shown.len(), 29);
    assert_eq!(shown[0], "--- Processor 0 ---");
    assert_eq!(shown[2], format!("{:<20}: Xeon", "Model Name"));
    assert_eq!(shown[6], format!("{:<20}: 2400.000 MHz", "CPU MHz"));
    assert_eq!(shown[14], "");
    assert_eq!(shown[15], "--- Processor 1 ---");
    assert_eq!(get_cpu_info(&Vec::new()), vec!["No CPU information received from the host."]);
}

#[test]
fn network_devices_are_shown() {
    let mut statistics = TextMap::new();
    statistics.insert("rx_bytes".to_string(), "123".to_string());
    let entry =
        NetEntry { is_dir: true, name: Some("lo".to_string()), has_statistics: true, statistics };
    let devices = handle_get_network_info(Ok(vec![entry])).unwrap();
    let shown = get_network_info(&devices);
    assert_eq!(shown.len(), 12);
    assert_eq!(shown[0], "Interface: lo");
    assert_eq!(shown[2], format!("    Bytes:    {:>15}", 123));
    assert_eq!(shown[11], "");
    assert_eq!(get_network_info(&Vec::new()), vec!["No network devices found on the host."]);
}

#[test]
fn uploads_are_accepted() {
    let content = vec![0x7f, b'E', b'L', b'F', 1, 2, 3];
    let named = UpgradeProgress::Named { binary_path: "/b".to_string(), found: true };
    match upgrade_feos(named) {
        UpgradeStep::Read { line } => assert_eq!(line, "Calculating checksum for /b..."),
        _ => panic!(),
    }
    let sum = match upgrade_feos(UpgradeProgress::Read(Ok(content.clone()))) {
        UpgradeStep::Send { lines, message: UploadMessage::Metadata { sha256_sum } } => {
            assert_eq!(lines[0], format!("Checksum (SHA256): {sha256_sum}"));
            assert_eq!(lines[1], "Uploading new binary to host...");
            sha256_sum
        }
        _ => panic!(),
    };
    assert_eq!(sum, checksum(&content));
    assert!(matches!(upgrade_feos(UpgradeProgress::ChecksumSent(true)), UpgradeStep::Open));
    assert!(matches!(
        upgrade_feos(UpgradeProgress::Opened(Ok(()))),
        UpgradeStep::ReadChunk { size: 65536 }
    ));
    match upgrade_feos(UpgradeProgress::ChunkRead(Ok(content.clone()))) {
        UpgradeStep::SendChunk(UploadMessage::Chunk(chunk)) => assert_eq!(chunk, content),
        _ => panic!(),
    }
    assert!(matches!(
        upgrade_feos(UpgradeProgress::ChunkRead(Ok(Vec::new()))),
        UpgradeStep::StopSending(None)
    ));
    let file = FileRead { head: Some([0x7f, b'E', b'L', b'F']), rest: Ok(vec![1, 2, 3]) };
    let read_back = UploadProgress::ReadBack { expected: sum, file: Ok(file) };
    assert!(matches!(upload::handle_upgrade(read_back), UploadAction::Stage { .. }));
}

#[test]
fn failed_uploads_are_shown() {
    let missing = UpgradeProgress::Named { binary_path: "/b".to_string(), found: false };
    match upgrade_feos(missing) {
        UpgradeStep::Fail(e) => assert_eq!(e, "Binary file not found at: /b"),
        _ => panic!(),
    }
    let stopped = |progress| match upgrade_feos(progress) {
        UpgradeStep::StopSending(Some(line)) => line,
        _ => panic!(),
    };
    assert_eq!(
        stopped(UpgradeProgress::Opened(Err("e".to_string()))),
        "Failed to open file for upload: e"
    );
    assert_eq!(
        stopped(UpgradeProgress::ChunkRead(Err("e".to_string()))),
        "Error reading from file: e"
    );
    assert!(matches!(
        upgrade_feos(UpgradeProgress::ChunkSent(false)),
        UpgradeStep::StopSending(None)
    ));
    match upgrade_feos(UpgradeProgress::Answered(Ok("done".to_string()))) {
        UpgradeStep::Show(line) => assert_eq!(line, "Server response: done"),
        _ => panic!(),
    }
}
