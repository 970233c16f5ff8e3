use feos::digest::checksum;
use feos::host::dispatcher::{Command, HostServiceDispatcher, Task};
use feos::host::error::HostError;
use feos::host::info::{
    handle_get_cpu_info, handle_get_memory, handle_get_network_info, handle_get_version_info,
    handle_hostname, read_and_parse_cpuinfo, read_and_parse_meminfo, HostnameRead, NetEntry,
};
use feos::host::ops::{
    self, download_file, handle_stream_feos_logs, handle_stream_kernel_logs, DownloadAction,
    DownloadEvent, FeosLogAction, FeosLogEvent, LogAction, LogEntry, LogEvent, UpgradeAction,
    UpgradeFailure, UpgradeFeosBinaryRequest, UpgradeProgress,
};
use feos::host::power::{handle_reboot, handle_shutdown, PowerAction, PowerProgress, RebootMode};
use feos::host::time::{
    NtpTime, QueryAction, QueryProgress, SyncAction, SyncProgress, TimeSpec, TimeSyncWorker,
};
use feos::host::upload::{
    self, FileRead, UploadAction, UploadMessage, UploadProgress,
};
use feos::hostinfo::{
    check_info, get_interfaces, is_running_on_vm, HostInfo, Interface, InterfaceRead, SystemInfo,
};
use feos::rpc::Code;
use feos::server::{run_server, start, ServerPlan, Start};
use feos::table::TextMap;

fn lines(all: &[&str]) -> Vec<String> {
    all.iter().map(|s| s.to_string()).collect()
}

#[test]
fn host_names_are_answered() {
    let named = handle_hostname(HostnameRead::Name("node-1".to_string()));
    assert_eq!(named.unwrap().hostname, "node-1");
    assert_eq!(handle_hostname(HostnameRead::NotText).unwrap().hostname, "Invalid UTF-8");
    let failed = handle_hostname(HostnameRead::Failed("EFAULT".to_string())).unwrap_err();
    assert_eq!(failed.message, "Failed to get system hostname: EFAULT");
}

#[test]
fn memory_is_read() {
    let info = read_and_parse_meminfo(&lines(&[
        "MemTotal:       16384 kB",
        "MemFree:         4096 kB",
        "Active(anon):      17 kB",
        "HugePages_Total:    3",
        "Committed_AS:       x",
        "DirectMap1G:        5 kB",
        "MemFree:         2048 kB",
        "short",
    ]));
    assert_eq!(info.memtotal, 16384);
    assert_eq!(info.memfree, 2048);
    assert_eq!(info.activeanon, 17);
    assert_eq!(info.hugepagestotal, 3);
    assert_eq!(info.committedas, 0);
    assert_eq!(info.directmap1g, 5);
    assert_eq!(info.buffers, 0);
    assert!(info.memfree <= info.memtotal);
    let failed = handle_get_memory(Err("gone".to_string())).unwrap_err();
    assert_eq!(failed.message, "Failed to get memory info: gone");
    assert_eq!(handle_get_memory(Ok(Vec::new())).unwrap().memtotal, 0);
}

#[test]
fn processors_are_read() {
    let cpus = read_and_parse_cpuinfo(&lines(&[
        "processor\t: 0",
        "vendor_id\t: GenuineIntel",
        "cpu MHz\t\t: 2400.000",
        "model name\t: Xeon: E5",
        "cpu cores\t: 8",
        "flags\t\t: fpu vme  de",
        "",
        "",
        "processor\t: 1",
        "vendor_id\t: GenuineIntel",
        "no colon here",
    ]));
    assert_eq!(cpus.len(), 2);
    assert_eq!(cpus[0].vendor_id, "GenuineIntel");
    assert_eq!(cpus[0].cpu_mhz, "2400.000");
    assert_eq!(cpus[0].model_name, "Xeon: E5");
    assert_eq!(cpus[0].cpu_cores, 8);
    assert_eq!(cpus[0].flags, vec!["fpu", "vme", "de"]);
    assert_eq!(cpus[1].processor, 1);
    assert_eq!(cpus[1].cpu_mhz, "");
    assert!(handle_get_cpu_info(Ok(Vec::new())).unwrap().is_empty());
    let failed = handle_get_cpu_info(Err("gone".to_string())).unwrap_err();
    assert_eq!(failed.message, "Failed to get CPU info: gone");
}

fn entry(name: Option<&str>, is_dir: bool, has_statistics: bool) -> NetEntry {
    let mut statistics = TextMap::new();
    statistics.insert("rx_bytes".to_string(), "123\n".to_string());
    statistics.insert("tx_carrier_errors".to_string(), " 9 ".to_string());
    statistics.insert("multicast".to_string(), "many".to_string());
    NetEntry { is_dir, name: name.map(|n| n.to_string()), has_statistics, statistics }
}

#[test]
fn network_devices_are_read() {
    let devices = handle_get_network_info(Ok(vec![
        entry(Some("lo"), true, true),
        entry(Some("bonding_masters"), false, true),
        entry(Some("bare"), true, false),
        entry(None, true, true),
    ]))
    .unwrap();
    assert_eq!(devices.len(), 2);
    assert_eq!(devices[0].name, "lo");
    assert_eq!(devices[0].rx_bytes, 123);
    assert_eq!(devices[0].tx_carrier, 9);
    assert_eq!(devices[0].rx_multicast, 0);
    assert_eq!(devices[0].tx_bytes, 0);
    assert_eq!(devices[1].name, "invalid_utf8");
    let failed = handle_get_network_info(Err("gone".to_string())).unwrap_err();
    assert_eq!(failed.message, "Failed to get network info from sysfs: gone");
}

#[test]
fn versions_are_answered() {
    let info =
        handle_get_version_info(Ok("Linux version 6.1\n".to_string()), "0.5".to_string()).unwrap();
    assert_eq!(info.kernel_version, "Linux version 6.1");
    assert_eq!(info.feos_version, "0.5");
    let failed = handle_get_version_info(Err("gone".to_string()), "0.5".to_string()).unwrap_err();
    assert_eq!(failed.message, "Failed to read kernel version from /proc/version: gone");
}

#[test]
fn host_commands_are_dispatched() {
    assert!(matches!(HostServiceDispatcher::run(Command::GetHostname), Task::ReadHostname));
    assert!(matches!(
        HostServiceDispatcher::run(Command::GetMemory),
        Task::ReadMemory("/proc/meminfo")
    ));
    assert!(matches!(
        HostServiceDispatcher::run(Command::StreamKernelLogs),
        Task::StreamLines("/dev/kmsg")
    ));
    assert!(matches!(
        HostServiceDispatcher::run(Command::Reboot),
        Task::Power(RebootMode::AutoBoot)
    ));
}

#[test]
fn host_errors_are_answered() {
    let path = || "/proc/stat".to_string();
    let unread = HostError::SystemInfoRead { source: "e".to_string(), path: path() };
    assert_eq!(unread.message(), "Failed to read system info from /proc/stat");
    assert_eq!(unread.into_status().message, "Failed to read system info from /proc/stat");
    let hidden = HostError::Hostname("e".to_string()).into_status();
    assert_eq!(hidden.message, "An internal host error occurred");
    assert_eq!(hidden.code, Code::Internal);
    let power = HostError::PowerOperation("e".to_string());
    assert_eq!(power.message(), "Host power operation failed");
    assert_eq!(HostError::LogReader("e".to_string()).into_status().message, "e");
}

#[test]
fn machines_are_stopped_after_the_answer() {
    assert_eq!(handle_shutdown(PowerProgress::Received), PowerAction::Answer);
    assert_eq!(handle_shutdown(PowerProgress::Answered), PowerAction::Sleep(1));
    assert_eq!(
        handle_shutdown(PowerProgress::Waited),
        PowerAction::Execute(RebootMode::PowerOff)
    );
    assert_eq!(handle_reboot(PowerProgress::Waited), PowerAction::Execute(RebootMode::AutoBoot));
    assert_eq!(handle_reboot(PowerProgress::Refused), PowerAction::Done);
}

#[test]
fn logs_are_streamed() {
    match handle_stream_kernel_logs(LogEvent::Line("6,1,2,-;x".to_string())) {
        LogAction::Send(line) => assert_eq!(line, "6,1,2,-;x"),
        _ => panic!(),
    }
    match handle_stream_kernel_logs(LogEvent::Failed("EPIPE".to_string())) {
        LogAction::Fail(s) => assert_eq!(s.message, "Error reading from /dev/kmsg: EPIPE"),
        _ => panic!(),
    }
    assert!(matches!(handle_stream_kernel_logs(LogEvent::ClientGone), LogAction::Stop));
    assert!(matches!(handle_stream_kernel_logs(LogEvent::Ended), LogAction::Stop));
    assert!(matches!(
        handle_stream_kernel_logs(LogEvent::NotOpened("e".to_string())),
        LogAction::Fail(_)
    ));
    let logged = LogEntry {
        seq: 7,
        seconds: -1,
        nanos: 999_999_999,
        level: "INFO".to_string(),
        target: "t".to_string(),
        message: "m".to_string(),
    };
    match handle_stream_feos_logs(FeosLogEvent::Entry(logged)) {
        FeosLogAction::Send(e) => assert_eq!((e.seq, e.seconds, e.nanos), (7, -1, 999_999_999)),
        _ => panic!(),
    }
    assert!(matches!(handle_stream_feos_logs(FeosLogEvent::Ended), FeosLogAction::Stop));
    match handle_stream_feos_logs(FeosLogEvent::NoReader) {
        FeosLogAction::Fail(s) => assert_eq!(s.message, "Failed to create log reader"),
        _ => panic!(),
    }
}

#[test]
fn downloads_end_with_the_first_failure() {
    let failed = |event| match download_file(event) {
        DownloadAction::Finish(Err(e)) => e,
        _ => panic!(),
    };
    assert_eq!(
        failed(DownloadEvent::Answered { code: 404, status: "404 Not Found".to_string() }),
        "Download failed with status: 404 Not Found"
    );
    assert_eq!(
        failed(DownloadEvent::RequestFailed("dns".to_string())),
        "HTTP GET request failed: dns"
    );
    assert_eq!(
        failed(DownloadEvent::NoCertificates("none".to_string())),
        "Could not load native root certificates: none"
    );
    assert_eq!(
        failed(DownloadEvent::FrameFailed("cut".to_string())),
        "Error reading response frame: cut"
    );
    assert_eq!(
        failed(DownloadEvent::Written(Err("full".to_string()))),
        "Failed to write chunk to temp file: full"
    );
    let bad = DownloadEvent::Ready { url: "http://[".to_string() };
    assert_eq!(failed(bad), "http://[".parse::<hyper::Uri>().unwrap_err().to_string());
    let empty = DownloadEvent::Ready { url: String::new() };
    assert_eq!(failed(empty), "empty string");
    match download_file(DownloadEvent::Ready { url: "https://x/y".to_string() }) {
        DownloadAction::Get { url } => assert_eq!(url, "https://x/y"),
        _ => panic!(),
    }
    assert!(matches!(
        download_file(DownloadEvent::Answered { code: 204, status: String::new() }),
        DownloadAction::NextFrame
    ));
    assert!(matches!(download_file(DownloadEvent::Frame(None)), DownloadAction::NextFrame));
    match download_file(DownloadEvent::Frame(Some(vec![1, 2]))) {
        DownloadAction::Write(chunk) => assert_eq!(chunk, vec![1, 2]),
        _ => panic!(),
    }
    assert!(matches!(download_file(DownloadEvent::Ended), DownloadAction::Finish(Ok(()))));
}

const MAGIC: [u8; 4] = [0x7f, b'E', b'L', b'F'];

fn binary() -> FileRead {
    FileRead { head: Some(MAGIC), rest: Ok(vec![1, 2, 3]) }
}

fn sum() -> String {
    checksum(&vec![0x7f, b'E', b'L', b'F', 1, 2, 3])
}

#[test]
fn downloaded_binaries_are_checked() {
    let req = UpgradeFeosBinaryRequest { url: "https://x/y".to_string(), sha256_sum: sum() };
    let step = |progress| ops::handle_upgrade(&req, progress);
    assert!(matches!(step(UpgradeProgress::Received), UpgradeAction::Answer));
    assert!(matches!(step(UpgradeProgress::Answered), UpgradeAction::MakeTempFile));
    match step(UpgradeProgress::TempFileMade(Ok(()))) {
        UpgradeAction::Download { url } => assert_eq!(url, "https://x/y"),
        _ => panic!(),
    }
    assert!(matches!(step(UpgradeProgress::Downloaded(Ok(()))), UpgradeAction::ReadBack));
    match step(UpgradeProgress::ReadBack(Ok(binary()))) {
        UpgradeAction::Stage { path } => assert_eq!(path, "/var/lib/feos/upgrade/feos.new"),
        _ => panic!(),
    }
    match step(UpgradeProgress::Staged(Ok(()))) {
        UpgradeAction::Signal(signal) => assert_eq!(signal.0, "/var/lib/feos/upgrade/feos.new"),
        _ => panic!(),
    }
    assert!(matches!(step(UpgradeProgress::Signalled(Ok(()))), UpgradeAction::Done));
    let empty = FileRead { head: None, rest: Ok(Vec::new()) };
    assert!(matches!(
        step(UpgradeProgress::ReadBack(Ok(empty))),
        UpgradeAction::GiveUp(UpgradeFailure::TooSmall)
    ));
    let script = FileRead { head: Some(*b"#!/b"), rest: Ok(Vec::new()) };
    assert!(matches!(
        step(UpgradeProgress::ReadBack(Ok(script))),
        UpgradeAction::GiveUp(UpgradeFailure::NotElf)
    ));
    let other = FileRead { head: Some(MAGIC), rest: Ok(vec![9]) };
    match step(UpgradeProgress::ReadBack(Ok(other))) {
        UpgradeAction::GiveUp(UpgradeFailure::Checksum { expected, actual }) => {
            assert_eq!(expected, sum());
            assert_eq!(actual, checksum(&vec![0x7f, b'E', b'L', b'F', 9]));
        }
        _ => panic!(),
    }
}

fn upload_error(progress: UploadProgress) -> (Code, String) {
    match upload::handle_upgrade(progress) {
        UploadAction::Answer(Err(s)) => (s.code, s.message),
        _ => panic!(),
    }
}

#[test]
fn uploads_begin_with_a_checksum() {
    let first = UploadMessage::Metadata { sha256_sum: "s".to_string() };
    match upload::handle_upgrade(UploadProgress::Opened(Some(Ok(first)))) {
        UploadAction::MakeTempFile { expected } => assert_eq!(expected, "s"),
        _ => panic!(),
    }
    assert_eq!(upload_error(UploadProgress::Opened(None)).1, "Empty request stream.");
    assert_eq!(
        upload_error(UploadProgress::Opened(Some(Ok(UploadMessage::Chunk(vec![1]))))).1,
        "First message must be UpgradeMetadata."
    );
    let again = UploadMessage::Metadata { sha256_sum: "s".to_string() };
    assert_eq!(
        upload_error(UploadProgress::Received {
            expected: "s".to_string(),
            message: Some(Ok(again)),
        })
        .1,
        "Subsequent messages must be binary chunks."
    );
    match upload::handle_upgrade(UploadProgress::Received {
        expected: "s".to_string(),
        message: Some(Ok(UploadMessage::Chunk(vec![1, 2]))),
    }) {
        UploadAction::WriteChunk { chunk, .. } => assert_eq!(chunk, vec![1, 2]),
        _ => panic!(),
    }
    assert!(matches!(
        upload::handle_upgrade(UploadProgress::Received {
            expected: "s".to_string(),
            message: None,
        }),
        UploadAction::ReadBack { .. }
    ));
}

#[test]
fn uploaded_binaries_are_checked() {
    let read = |file| UploadProgress::ReadBack { expected: sum(), file };
    match upload::handle_upgrade(read(Ok(binary()))) {
        UploadAction::Stage { path } => assert_eq!(path, "/var/lib/feos/upgrade/feos.new"),
        _ => panic!(),
    }
    assert_eq!(
        upload_error(read(Ok(FileRead { head: None, rest: Ok(Vec::new()) }))).1,
        "Received file is too small to be a valid binary."
    );
    assert_eq!(
        upload_error(read(Ok(FileRead { head: Some([0; 4]), rest: Ok(Vec::new()) }))).1,
        "Uploaded file is not a valid ELF binary."
    );
    assert_eq!(
        upload_error(read(Ok(FileRead { head: Some(MAGIC), rest: Err("io".to_string()) }))),
        (Code::Internal, "Failed to read temp file for hashing: io".to_string())
    );
    let got = checksum(&MAGIC.to_vec());
    assert_eq!(
        upload_error(read(Ok(FileRead { head: Some(MAGIC), rest: Ok(Vec::new()) }))).1,
        format!("Checksum mismatch. Expected: {}, Got: {got}", sum())
    );
    match upload::handle_upgrade(UploadProgress::Signalled(Ok(()))) {
        UploadAction::Answer(Ok(response)) => assert_eq!(
            response.message,
            "Binary received and validated. System will now restart with the new binary."
        ),
        _ => panic!(),
    }
}

#[test]
fn time_servers_are_asked_in_order() {
    let worker = TimeSyncWorker::new(vec![1, 2]);
    assert!(matches!(worker.synchronize_time(SyncProgress::Started), SyncAction::Bind));
    assert!(matches!(
        worker.synchronize_time(SyncProgress::Bound(Ok(()))),
        SyncAction::Query { index: 0 }
    ));
    let failed = |index| SyncProgress::Tried { index, result: Err("e".to_string()) };
    assert!(matches!(worker.synchronize_time(failed(0)), SyncAction::Query { index: 1 }));
    assert!(matches!(worker.synchronize_time(failed(1)), SyncAction::Resolve { .. }));
    assert!(matches!(
        worker.synchronize_time(SyncProgress::Tried { index: 0, result: Ok(()) }),
        SyncAction::Finish(Ok(()))
    ));
    assert!(matches!(
        worker.synchronize_time(SyncProgress::Resolved(Ok(vec![false, true, true]))),
        SyncAction::QueryFallback { address: 1 }
    ));
    assert!(matches!(
        worker.synchronize_time(SyncProgress::Resolved(Ok(vec![false]))),
        SyncAction::Finish(Err(_))
    ));
    assert!(matches!(
        TimeSyncWorker::new(Vec::new()).synchronize_time(SyncProgress::Bound(Ok(()))),
        SyncAction::Resolve { .. }
    ));
    let lost = TimeSyncWorker::perform_sync_loop(&Err("e".to_string()));
    assert_ne!(TimeSyncWorker::perform_sync_loop(&Ok(())), lost);
}

#[test]
fn clocks_are_set_to_the_answered_time() {
    let answered = |seconds, fraction| {
        TimeSyncWorker::query_ntp_server(QueryProgress::Answered(Ok(NtpTime {
            seconds,
            fraction,
        })))
    };
    match answered(1705320000, 0x8000_0000) {
        QueryAction::SetClock(spec) => {
            assert_eq!(spec, TimeSpec { seconds: 1705320000, nanos: 500_000_000 })
        }
        _ => panic!(),
    }
    match answered(0, u32::MAX) {
        QueryAction::SetClock(spec) => assert_eq!(spec.nanos, 999_999_999),
        _ => panic!(),
    }
    match answered(8210266876799, 0) {
        QueryAction::SetClock(spec) => assert_eq!(spec.seconds, 8210266876799),
        _ => panic!(),
    }
    assert!(matches!(answered(8210266876800, 0), QueryAction::Finish(Err(_))));
    // The bits of these numbers stand for seconds before 1970.
    let first = (-8334601228800i64) as u64;
    assert!(matches!(answered(first, 0), QueryAction::SetClock(_)));
    assert!(matches!(answered(first - 1, 0), QueryAction::Finish(Err(_))));
    match answered(u64::MAX / 2, 0) {
        QueryAction::Finish(Err(e)) => {
            assert_eq!(e, "Failed to convert NTP time to local time")
        }
        _ => panic!(),
    }
    let lost = QueryProgress::Answered(Err("timeout".to_string()));
    match TimeSyncWorker::query_ntp_server(lost) {
        QueryAction::Finish(Err(e)) => assert_eq!(e, "NTP query failed: timeout"),
        _ => panic!(),
    }
    let unset = QueryProgress::ClockSet(Err("EPERM".to_string()));
    match TimeSyncWorker::query_ntp_server(unset) {
        QueryAction::Finish(Err(e)) => assert_eq!(e, "Failed to set system time: EPERM"),
        _ => panic!(),
    }
}

#[test]
fn machines_are_described() {
    let interfaces = get_interfaces(vec![
        InterfaceRead {
            name: "eth0".to_string(),
            device: Some("../../../0000:00:03.0".to_string()),
            address: Some("52:54:00:12:34:56\n".to_string()),
        },
        InterfaceRead { name: "lo".to_string(), device: None, address: None },
    ]);
    assert_eq!(interfaces[0].pci_address.as_deref(), Some("0000:00:03.0"));
    assert_eq!(interfaces[0].mac_address.as_deref(), Some("52:54:00:12:34:56"));
    assert!(interfaces[1].pci_address.is_none());
    let system = SystemInfo { uptime: 10, ram_total: 20, ram_unused: 5 };
    let host = check_info(Some(4), Some(system), Some(interfaces));
    assert_eq!((host.num_cores, host.uptime, host.ram_total, host.ram_unused), (4, 10, 20, 5));
    assert_eq!(host.net_interfaces.len(), 2);
    let unknown = check_info(Some(-1), None, None);
    assert_eq!(unknown.num_cores, HostInfo::default().num_cores);
    assert!(unknown.net_interfaces.is_empty());
    assert_eq!(Interface::default().name, "");
}

#[test]
fn virtual_machines_are_recognised() {
    let named = |s: &str| Ok(s.to_string());
    assert_eq!(
        is_running_on_vm(named("Cloud Hypervisor\n"), named("CLOUD HYPERVISOR")),
        Ok(true)
    );
    assert_eq!(is_running_on_vm(named("cloud-hypervisor"), named("Dell Inc.")), Ok(false));
    assert_eq!(is_running_on_vm(named("cloud"), named("cloud hypervisor")), Ok(false));
    assert_eq!(
        is_running_on_vm(Err("a".to_string()), Err("b".to_string())),
        Err("a".to_string())
    );
    assert_eq!(is_running_on_vm(named("x"), Err("b".to_string())), Err("b".to_string()));
}

#[test]
fn only_the_first_process_prepares_the_machine() {
    assert_eq!(start(1, Some("rootfs".to_string())), Start::MoveRoot);
    assert_eq!(start(2, Some("rootfs".to_string())), Start::Serve);
    assert_eq!(start(1, Some("tmpfs".to_string())), Start::Serve);
    assert_eq!(start(1, None), Start::Serve);
    assert_eq!(
        run_server(false, false, 1),
        ServerPlan { warn_not_root: true, initialize: true, tell_skipped: false }
    );
    assert_eq!(
        run_server(true, true, 1),
        ServerPlan { warn_not_root: false, initialize: false, tell_skipped: true }
    );
    assert!(!run_server(false, true, 2).initialize);
}

#[test]
fn checksums_are_compared_as_they_are_written() {
    assert!(upload::compare_checksums("ab", "ab").is_ok());
    let refused = upload::compare_checksums("ab", "AB").unwrap_err();
    assert_eq!(refused.code, Code::InvalidArgument);
    assert_eq!(refused.message, "Checksum mismatch. Expected: AB, Got: ab");
    assert!(ops::compare_checksums("ab".to_string(), "ab").is_ok());
    match ops::compare_checksums("ab".to_string(), "cd") {
        Err(UpgradeFailure::Checksum { expected, actual }) => {
            assert_eq!((expected.as_str(), actual.as_str()), ("cd", "ab"))
        }
        _ => panic!("another checksum was accepted"),
    }
}

#[test]
fn only_a_point_in_time_sets_the_clock() {
    let set = TimeSyncWorker::set_clock_to(Some((1_700_000_000, 5)));
    assert!(matches!(set, QueryAction::SetClock(t) if t == TimeSpec { seconds: 1_700_000_000, nanos: 5 }));
    match TimeSyncWorker::set_clock_to(None) {
        QueryAction::Finish(Err(m)) => assert_eq!(m, "Failed to convert NTP time to local time"),
        _ => panic!("the clock was set"),
    }
}
