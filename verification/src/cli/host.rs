//! The commands on the host itself.
use crate::digest;
use crate::host::info::{CpuInfo, HostnameResponse, MemInfo, NetDev};
use crate::host::upload::{self, UploadMessage};
use crate::text;
use vstd::prelude::*;

verus! {

/// What is asked of the host service, and where it listens.
#[derive(Debug)]
pub struct HostArgs {
    pub address: String,
    pub command: HostCommand,
}

/// What can be asked of the host service.
#[derive(Debug)]
pub enum HostCommand {
    Hostname,
    Memory,
    CpuInfo,
    NetworkInfo,
    Upgrade { binary_path: String },
    /// Stream the logs of the kernel.
    Klogs,
    /// Shut the host down.
    Shutdown,
    /// Reboot the host.
    Reboot,
}

/// A request to the host service.
#[derive(Debug)]
pub enum HostCall {
    Hostname,
    GetMemory,
    GetCpuInfo,
    GetNetworkInfo,
    /// Upload the binary at this path.
    Upgrade { binary_path: String },
    StreamKernelLogs,
    Shutdown,
    Reboot,
}

/// What a command first says, if anything, and what it then asks for.
pub fn handle_host_command(command: HostCommand) -> (r: (Option<String>, HostCall))
    ensures
        match command {
            HostCommand::Hostname => r.0 is None && r.1 == HostCall::Hostname,
            HostCommand::Memory => r.0 is None && r.1 == HostCall::GetMemory,
            HostCommand::CpuInfo => r.0 is None && r.1 == HostCall::GetCpuInfo,
            HostCommand::NetworkInfo => r.0 is None && r.1 == HostCall::GetNetworkInfo,
            HostCommand::Upgrade { binary_path } => r.0 is None && r.1 == (HostCall::Upgrade {
                binary_path,
            }),
            HostCommand::Klogs => (r.0 matches Some(line) && line@
                == "Streaming kernel logs... Press Ctrl+C to stop."@) && r.1
                == HostCall::StreamKernelLogs,
            HostCommand::Shutdown => (r.0 matches Some(line) && line@
                == "Requesting host shutdown..."@) && r.1 == HostCall::Shutdown,
            HostCommand::Reboot => (r.0 matches Some(line) && line@ == "Requesting host reboot..."@)
                && r.1 == HostCall::Reboot,
        },
{
    match command {
        HostCommand::Hostname => (None, HostCall::Hostname),
        HostCommand::Memory => (None, HostCall::GetMemory),
        HostCommand::CpuInfo => (None, HostCall::GetCpuInfo),
        HostCommand::NetworkInfo => (None, HostCall::GetNetworkInfo),
        HostCommand::Upgrade { binary_path } => (None, HostCall::Upgrade { binary_path }),
        HostCommand::Klogs => (
            Some("Streaming kernel logs... Press Ctrl+C to stop.".to_owned()),
            HostCall::StreamKernelLogs,
        ),
        HostCommand::Shutdown => (
            Some("Requesting host shutdown...".to_owned()),
            HostCall::Shutdown,
        ),
        HostCommand::Reboot => (Some("Requesting host reboot...".to_owned()), HostCall::Reboot),
    }
}

/// What is shown of the name of the host.
pub fn get_hostname(response: &HostnameResponse) -> (r: String)
    ensures
        r@ == response.hostname@,
{
    response.hostname.clone()
}

/// What is shown of a host that was asked to shut down.
pub fn shutdown_host() -> (r: String)
    ensures
        r@ == "Shutdown command sent successfully. Connection will be lost."@,
{
    "Shutdown command sent successfully. Connection will be lost.".to_owned()
}

/// What is shown of a host that was asked to reboot.
pub fn reboot_host() -> (r: String)
    ensures
        r@ == "Reboot command sent successfully. Connection will be lost."@,
{
    "Reboot command sent successfully. Connection will be lost.".to_owned()
}

/// What the table of memory shows, in order.
pub open spec fn memory_rows(m: MemInfo) -> Seq<(Seq<char>, u64)> {
    seq![
        ("MemTotal:"@, m.memtotal),
        ("MemFree:"@, m.memfree),
        ("MemAvailable:"@, m.memavailable),
        ("Buffers:"@, m.buffers),
        ("Cached:"@, m.cached),
        ("SwapCached:"@, m.swapcached),
        ("Active:"@, m.active),
        ("Inactive:"@, m.inactive),
        ("Active(anon):"@, m.activeanon),
        ("Inactive(anon):"@, m.inactiveanon),
        ("Active(file):"@, m.activefile),
        ("Inactive(file):"@, m.inactivefile),
        ("Unevictable:"@, m.unevictable),
        ("Mlocked:"@, m.mlocked),
        ("SwapTotal:"@, m.swaptotal),
        ("SwapFree:"@, m.swapfree),
        ("Dirty:"@, m.dirty),
        ("Writeback:"@, m.writeback),
        ("AnonPages:"@, m.anonpages),
        ("Mapped:"@, m.mapped),
        ("Shmem:"@, m.shmem),
        ("Slab:"@, m.slab),
        ("SReclaimable:"@, m.sreclaimable),
        ("SUnreclaim:"@, m.sunreclaim),
        ("KernelStack:"@, m.kernelstack),
        ("PageTables:"@, m.pagetables),
        ("NFS_Unstable:"@, m.nfsunstable),
        ("Bounce:"@, m.bounce),
        ("WritebackTmp:"@, m.writebacktmp),
        ("CommitLimit:"@, m.commitlimit),
        ("Committed_AS:"@, m.committedas),
        ("VmallocTotal:"@, m.vmalloctotal),
        ("VmallocUsed:"@, m.vmallocused),
        ("VmallocChunk:"@, m.vmallocchunk),
        ("HardwareCorrupted:"@, m.hardwarecorrupted),
        ("AnonHugePages:"@, m.anonhugepages),
        ("ShmemHugePages:"@, m.shmemhugepages),
        ("ShmemPmdMapped:"@, m.shmempmdmapped),
        ("CmaTotal:"@, m.cmatotal),
        ("CmaFree:"@, m.cmafree),
        ("HugePages_Total:"@, m.hugepagestotal),
        ("HugePages_Free:"@, m.hugepagesfree),
        ("HugePages_Rsvd:"@, m.hugepagesrsvd),
        ("HugePages_Surp:"@, m.hugepagessurp),
        ("Hugepagesize:"@, m.hugepagesize),
        ("DirectMap4k:"@, m.directmap4k),
        ("DirectMap2m:"@, m.directmap2m),
        ("DirectMap1G:"@, m.directmap1g),
    ]
}

/// A row of the table of memory.
pub open spec fn memory_row(name: Seq<char>, value: Seq<char>) -> Seq<char> {
    text::padded_right(name, 20, ' ') + " "@ + text::padded_left(value, 15, ' ') + " kB"@
}

/// What is shown of the memory.
pub open spec fn memory_lines(info: Option<MemInfo>) -> Seq<Seq<char>> {
    match info {
        Some(m) => seq![
            memory_row("Key"@, "Value"@),
            text::repeated('-', 20) + " "@ + text::repeated('-', 16),
        ] + memory_rows(m).map_values(
            |row: (Seq<char>, u64)| memory_row(row.0, text::dec(row.1 as nat)),
        ),
        None => seq!["No memory information received from the host."@],
    }
}

fn list_memory(m: &MemInfo) -> (r: Vec<(&'static str, u64)>)
    ensures
        r@.len() == memory_rows(*m).len(),
        forall|i: int|
            0 <= i < r@.len() ==> (#[trigger] r@[i]).0@ == memory_rows(*m)[i].0 && r@[i].1
                == memory_rows(*m)[i].1,
{
    vec![
        ("MemTotal:", m.memtotal),
        ("MemFree:", m.memfree),
        ("MemAvailable:", m.memavailable),
        ("Buffers:", m.buffers),
        ("Cached:", m.cached),
        ("SwapCached:", m.swapcached),
        ("Active:", m.active),
        ("Inactive:", m.inactive),
        ("Active(anon):", m.activeanon),
        ("Inactive(anon):", m.inactiveanon),
        ("Active(file):", m.activefile),
        ("Inactive(file):", m.inactivefile),
        ("Unevictable:", m.unevictable),
        ("Mlocked:", m.mlocked),
        ("SwapTotal:", m.swaptotal),
        ("SwapFree:", m.swapfree),
        ("Dirty:", m.dirty),
        ("Writeback:", m.writeback),
        ("AnonPages:", m.anonpages),
        ("Mapped:", m.mapped),
        ("Shmem:", m.shmem),
        ("Slab:", m.slab),
        ("SReclaimable:", m.sreclaimable),
        ("SUnreclaim:", m.sunreclaim),
        ("KernelStack:", m.kernelstack),
        ("PageTables:", m.pagetables),
        ("NFS_Unstable:", m.nfsunstable),
        ("Bounce:", m.bounce),
        ("WritebackTmp:", m.writebacktmp),
        ("CommitLimit:", m.commitlimit),
        ("Committed_AS:", m.committedas),
        ("VmallocTotal:", m.vmalloctotal),
        ("VmallocUsed:", m.vmallocused),
        ("VmallocChunk:", m.vmallocchunk),
        ("HardwareCorrupted:", m.hardwarecorrupted),
        ("AnonHugePages:", m.anonhugepages),
        ("ShmemHugePages:", m.shmemhugepages),
        ("ShmemPmdMapped:", m.shmempmdmapped),
        ("CmaTotal:", m.cmatotal),
        ("CmaFree:", m.cmafree),
        ("HugePages_Total:", m.hugepagestotal),
        ("HugePages_Free:", m.hugepagesfree),
        ("HugePages_Rsvd:", m.hugepagesrsvd),
        ("HugePages_Surp:", m.hugepagessurp),
        ("Hugepagesize:", m.hugepagesize),
        ("DirectMap4k:", m.directmap4k),
        ("DirectMap2m:", m.directmap2m),
        ("DirectMap1G:", m.directmap1g),
    ]
}

fn write_memory_row(name: &str, value: &str) -> (r: String)
    ensures
        r@ == memory_row(name@, value@),
{
    text::cat4(
        text::pad_right(name, 20, ' ').as_str(),
        " ",
        text::pad_left(value, 15, ' ').as_str(),
        " kB",
    )
}

/// What is shown of the memory.
pub fn get_memory(info: &Option<MemInfo>) -> (r: Vec<String>)
    ensures
        text::views(r@) == memory_lines(*info),
{
    match info {
        Some(m) => {
            let rows = list_memory(m);
            let mut lines: Vec<String> = vec![
                write_memory_row("Key", "Value"),
                text::cat3(
                    text::repeat('-', 20).as_str(),
                    " ",
                    text::repeat('-', 16).as_str(),
                ),
            ];
            let ghost shown = memory_lines(*info);
            let mut i: usize = 0;
            while i < rows.len()
                invariant
                    i <= rows@.len(),
                    *info == Some(*m),
                    shown == memory_lines(*info),
                    rows@.len() == memory_rows(*m).len(),
                    forall|j: int|
                        0 <= j < rows@.len() ==> (#[trigger] rows@[j]).0@ == memory_rows(*m)[j].0
                            && rows@[j].1 == memory_rows(*m)[j].1,
                    lines@.len() == i + 2,
                    forall|j: int| 0 <= j < i + 2 ==> (#[trigger] lines@[j])@ == shown[j],
                decreases rows@.len() - i,
            {
                let (name, value) = rows[i];
                lines.push(write_memory_row(name, text::to_dec(value).as_str()));
                assert(shown[i + 2] == memory_row(
                    memory_rows(*m)[i as int].0,
                    text::dec(memory_rows(*m)[i as int].1 as nat),
                ));
                i += 1;
            }
            assert(text::views(lines@) =~= shown);
            lines
        },
        None => {
            let lines = vec!["No memory information received from the host.".to_owned()];
            assert(text::views(lines@) =~= memory_lines(*info));
            lines
        },
    }
}

/// A named line on a processor.
pub open spec fn cpu_field(name: Seq<char>, value: Seq<char>) -> Seq<char> {
    text::padded_right(name, 20, ' ') + ": "@ + value
}

/// The lines on a processor. Its clock rate and its BogoMIPS are shown as they are
/// given, rounded already.
pub open spec fn cpu_block(cpu: CpuInfo) -> Seq<Seq<char>> {
    seq![
        "--- Processor "@ + text::dec(cpu.processor as nat) + " ---"@,
        cpu_field("Vendor ID"@, cpu.vendor_id@),
        cpu_field("Model Name"@, cpu.model_name@),
        cpu_field("CPU Family"@, cpu.cpu_family@),
        cpu_field("Model"@, cpu.model@),
        cpu_field("Stepping"@, cpu.stepping@),
        cpu_field("CPU MHz"@, cpu.cpu_mhz@ + " MHz"@),
        cpu_field("Cache Size"@, cpu.cache_size@),
        cpu_field("Physical ID"@, cpu.physical_id@),
        cpu_field("Core ID"@, cpu.core_id@),
        cpu_field("CPU Cores"@, text::dec(cpu.cpu_cores as nat)),
        cpu_field("Siblings"@, text::dec(cpu.siblings as nat)),
        cpu_field("Address Sizes"@, cpu.address_sizes@),
        cpu_field("BogoMIPS"@, cpu.bogo_mips@),
    ]
}

/// The lines on processors, with an empty line between two of them.
pub open spec fn cpu_blocks(cpus: Seq<CpuInfo>) -> Seq<Seq<char>>
    decreases cpus.len(),
{
    if cpus.len() == 0 {
        Seq::empty()
    } else if cpus.len() == 1 {
        cpu_block(cpus[0])
    } else {
        cpu_blocks(cpus.drop_last()).push(Seq::empty()) + cpu_block(cpus.last())
    }
}

/// What is shown of the processors.
pub open spec fn cpu_lines(cpus: Seq<CpuInfo>) -> Seq<Seq<char>> {
    if cpus.len() == 0 {
        seq!["No CPU information received from the host."@]
    } else {
        cpu_blocks(cpus)
    }
}

fn write_cpu_field(name: &str, value: &str) -> (r: String)
    ensures
        r@ == cpu_field(name@, value@),
{
    text::cat3(text::pad_right(name, 20, ' ').as_str(), ": ", value)
}

fn write_cpu(cpu: &CpuInfo) -> (r: Vec<String>)
    ensures
        text::views(r@) == cpu_block(*cpu),
{
    let r = vec![
        text::cat3("--- Processor ", text::to_dec(cpu.processor as u64).as_str(), " ---"),
        write_cpu_field("Vendor ID", cpu.vendor_id.as_str()),
        write_cpu_field("Model Name", cpu.model_name.as_str()),
        write_cpu_field("CPU Family", cpu.cpu_family.as_str()),
        write_cpu_field("Model", cpu.model.as_str()),
        write_cpu_field("Stepping", cpu.stepping.as_str()),
        write_cpu_field("CPU MHz", text::cat2(cpu.cpu_mhz.as_str(), " MHz").as_str()),
        write_cpu_field("Cache Size", cpu.cache_size.as_str()),
        write_cpu_field("Physical ID", cpu.physical_id.as_str()),
        write_cpu_field("Core ID", cpu.core_id.as_str()),
        write_cpu_field("CPU Cores", text::to_dec(cpu.cpu_cores as u64).as_str()),
        write_cpu_field("Siblings", text::to_dec(cpu.siblings as u64).as_str()),
        write_cpu_field("Address Sizes", cpu.address_sizes.as_str()),
        write_cpu_field("BogoMIPS", cpu.bogo_mips.as_str()),
    ];
    assert(text::views(r@) =~= cpu_block(*cpu));
    r
}

fn append_lines(lines: &mut Vec<String>, more: Vec<String>)
    ensures
        text::views(final(lines)@) == text::views(old(lines)@) + text::views(more@),
{
    let ghost was = lines@;
    let mut more = more;
    let ghost added = more@;
    lines.append(&mut more);
    assert(lines@ =~= was + added);
    assert(text::views(lines@) =~= text::views(was) + text::views(added));
}

/// What is shown of the processors.
pub fn get_cpu_info(cpus: &Vec<CpuInfo>) -> (r: Vec<String>)
    ensures
        text::views(r@) == cpu_lines(cpus@),
{
    if cpus.len() == 0 {
        let lines = vec!["No CPU information received from the host.".to_owned()];
        assert(text::views(lines@) =~= cpu_lines(cpus@));
        return lines;
    }
    let mut lines: Vec<String> = Vec::new();
    let mut i: usize = 0;
    assert(cpus@.take(0) =~= Seq::<CpuInfo>::empty());
    assert(text::views(lines@) =~= Seq::<Seq<char>>::empty());
    while i < cpus.len()
        invariant
            i <= cpus@.len(),
            text::views(lines@) == cpu_blocks(cpus@.take(i as int)),
        decreases cpus@.len() - i,
    {
        let ghost done = cpus@.take(i + 1);
        assert(done.drop_last() =~= cpus@.take(i as int));
        let ghost was = lines@;
        if i > 0 {
            lines.push(String::new());
            assert(text::views(lines@) =~= text::views(was).push(Seq::empty()));
        }
        append_lines(&mut lines, write_cpu(&cpus[i]));
        assert(text::views(lines@) =~= cpu_blocks(done));
        i += 1;
    }
    assert(cpus@.take(i as int) =~= cpus@);
    lines
}

/// The lines on a network device.
pub open spec fn device_block(dev: NetDev) -> Seq<Seq<char>> {
    seq![
        "Interface: "@ + dev.name@,
        "  RX"@,
        "    Bytes:    "@ + text::padded_left(text::dec(dev.rx_bytes as nat), 15, ' '),
        "    Packets:  "@ + text::padded_left(text::dec(dev.rx_packets as nat), 15, ' '),
        "    Errors:   "@ + text::padded_left(text::dec(dev.rx_errors as nat), 15, ' '),
        "    Dropped:  "@ + text::padded_left(text::dec(dev.rx_dropped as nat), 15, ' '),
        "  TX"@,
        "    Bytes:    "@ + text::padded_left(text::dec(dev.tx_bytes as nat), 15, ' '),
        "    Packets:  "@ + text::padded_left(text::dec(dev.tx_packets as nat), 15, ' '),
        "    Errors:   "@ + text::padded_left(text::dec(dev.tx_errors as nat), 15, ' '),
        "    Dropped:  "@ + text::padded_left(text::dec(dev.tx_dropped as nat), 15, ' '),
        Seq::empty(),
    ]
}

/// The lines on network devices.
pub open spec fn device_blocks(devices: Seq<NetDev>) -> Seq<Seq<char>>
    decreases devices.len(),
{
    if devices.len() == 0 {
        Seq::empty()
    } else {
        device_blocks(devices.drop_last()) + device_block(devices.last())
    }
}

/// What is shown of the network devices.
pub open spec fn network_lines(devices: Seq<NetDev>) -> Seq<Seq<char>> {
    if devices.len() == 0 {
        seq!["No network devices found on the host."@]
    } else {
        device_blocks(devices)
    }
}

fn write_count(name: &str, count: u64) -> (r: String)
    ensures
        r@ == name@ + text::padded_left(text::dec(count as nat), 15, ' '),
{
    text::cat2(name, text::pad_left(text::to_dec(count).as_str(), 15, ' ').as_str())
}

fn write_device(dev: &NetDev) -> (r: Vec<String>)
    ensures
        text::views(r@) == device_block(*dev),
{
    let r = vec![
        text::cat2("Interface: ", dev.name.as_str()),
        "  RX".to_owned(),
        write_count("    Bytes:    ", dev.rx_bytes),
        write_count("    Packets:  ", dev.rx_packets),
        write_count("    Errors:   ", dev.rx_errors),
        write_count("    Dropped:  ", dev.rx_dropped),
        "  TX".to_owned(),
        write_count("    Bytes:    ", dev.tx_bytes),
        write_count("    Packets:  ", dev.tx_packets),
        write_count("    Errors:   ", dev.tx_errors),
        write_count("    Dropped:  ", dev.tx_dropped),
        String::new(),
    ];
    assert(text::views(r@) =~= device_block(*dev));
    r
}

/// What is shown of the network devices.
pub fn get_network_info(devices: &Vec<NetDev>) -> (r: Vec<String>)
    ensures
        text::views(r@) == network_lines(devices@),
{
    if devices.len() == 0 {
        let lines = vec!["No network devices found on the host.".to_owned()];
        assert(text::views(lines@) =~= network_lines(devices@));
        return lines;
    }
    let mut lines: Vec<String> = Vec::new();
    let mut i: usize = 0;
    assert(devices@.take(0) =~= Seq::<NetDev>::empty());
    assert(text::views(lines@) =~= Seq::<Seq<char>>::empty());
    while i < devices.len()
        invariant
            i <= devices@.len(),
            text::views(lines@) == device_blocks(devices@.take(i as int)),
        decreases devices@.len() - i,
    {
        assert(devices@.take(i + 1).drop_last() =~= devices@.take(i as int));
        append_lines(&mut lines, write_device(&devices[i]));
        i += 1;
    }
    assert(devices@.take(i as int) =~= devices@);
    lines
}

/// What to do with what a stream of logs gives.
#[derive(Debug)]
pub enum LogStep {
    /// Show a line, and wait for the next.
    Show(String),
    /// Show an error; the stream is over.
    Fail(String),
    /// The stream is over.
    End,
}

/// What to do with the next entry of the kernel's logs.
pub fn stream_klogs(entry: Option<Result<String, String>>) -> (step: LogStep)
    ensures
        match entry {
            Some(Ok(message)) => step == LogStep::Show(message),
            Some(Err(e)) => step matches LogStep::Fail(line) && line@
                == "Error in kernel log stream: "@ + e@,
            None => step is End,
        },
{
    match entry {
        Some(Ok(message)) => LogStep::Show(message),
        Some(Err(e)) => LogStep::Fail(text::cat2("Error in kernel log stream: ", e.as_str())),
        None => LogStep::End,
    }
}

/// How many bytes of a binary are sent at once, at most.
pub const CHUNK_SIZE: usize = 65536;

/// How far an upgrade has come on the client's side.
pub enum UpgradeProgress {
    /// Whether there is a file.
    Named { binary_path: String, found: bool },
    /// What could be read of the file, where it could be opened.
    Read(Result<Vec<u8>, String>),
    /// Whether the checksum reached the host.
    ChecksumSent(bool),
    /// Whether the file could be opened for the upload.
    Opened(Result<(), String>),
    /// The next bytes of the file; none at its end.
    ChunkRead(Result<Vec<u8>, String>),
    /// Whether the last bytes reached the host.
    ChunkSent(bool),
    /// The answer of the host.
    Answered(Result<String, String>),
}

/// What to do next for an upgrade on the client's side.
pub enum UpgradeStep {
    /// Show a line, and read the file.
    Read { line: String },
    /// Show lines, and send the checksum.
    Send { lines: Vec<String>, message: UploadMessage },
    /// Open the file for the upload.
    Open,
    /// Read the next bytes of the file, up to a size.
    ReadChunk { size: usize },
    /// Send the next bytes.
    SendChunk(UploadMessage),
    /// Show an error, if any; nothing more is sent.
    StopSending(Option<String>),
    /// Show a line; the upgrade is over.
    Show(String),
    /// The upgrade failed.
    Fail(String),
}

/// The next step of an upgrade on the client's side.
pub open spec fn upgrade_next(progress: UpgradeProgress, step: UpgradeStep) -> bool {
    match progress {
        UpgradeProgress::Named { binary_path, found } => if found {
            step matches UpgradeStep::Read { line } && line@ == "Calculating checksum for "@
                + binary_path@ + "..."@
        } else {
            step matches UpgradeStep::Fail(e) && e@ == "Binary file not found at: "@ + binary_path@
        },
        UpgradeProgress::Read(Err(e)) => step == UpgradeStep::Fail(e),
        UpgradeProgress::Read(Ok(content)) => {
            let checksum = digest::hex_text(digest::sha256(content@));
            step matches UpgradeStep::Send { lines, message } && text::views(lines@) == seq![
                "Checksum (SHA256): "@ + checksum,
                "Uploading new binary to host..."@,
            ] && (message matches UploadMessage::Metadata { sha256_sum } && sha256_sum@ == checksum)
        },
        UpgradeProgress::ChecksumSent(sent) => if sent {
            step is Open
        } else {
            step matches UpgradeStep::StopSending(None)
        },
        UpgradeProgress::Opened(Ok(_)) => step == (UpgradeStep::ReadChunk { size: CHUNK_SIZE }),
        UpgradeProgress::Opened(Err(e)) => step matches UpgradeStep::StopSending(Some(line))
            && line@ == "Failed to open file for upload: "@ + e@,
        UpgradeProgress::ChunkRead(Err(e)) => step matches UpgradeStep::StopSending(Some(line))
            && line@ == "Error reading from file: "@ + e@,
        UpgradeProgress::ChunkRead(Ok(chunk)) => if chunk@.len() == 0 {
            step matches UpgradeStep::StopSending(None)
        } else {
            step == UpgradeStep::SendChunk(UploadMessage::Chunk(chunk))
        },
        UpgradeProgress::ChunkSent(sent) => if sent {
            step == (UpgradeStep::ReadChunk { size: CHUNK_SIZE })
        } else {
            step matches UpgradeStep::StopSending(None)
        },
        UpgradeProgress::Answered(Ok(message)) => step matches UpgradeStep::Show(line) && line@
            == "Server response: "@ + message@,
        UpgradeProgress::Answered(Err(e)) => step == UpgradeStep::Fail(e),
    }
}

/// The next step of an upgrade on the client's side: the checksum of the binary is
/// sent first, and its bytes after it.
pub fn upgrade_feos(progress: UpgradeProgress) -> (step: UpgradeStep)
    ensures
        upgrade_next(progress, step),
{
    match progress {
        UpgradeProgress::Named { binary_path, found } => if found {
            UpgradeStep::Read {
                line: text::cat3("Calculating checksum for ", binary_path.as_str(), "..."),
            }
        } else {
            UpgradeStep::Fail(text::cat2("Binary file not found at: ", binary_path.as_str()))
        },
        UpgradeProgress::Read(read) => match read {
            Err(e) => UpgradeStep::Fail(e),
            Ok(content) => {
                let checksum = digest::checksum(&content);
                let lines = vec![
                    text::cat2("Checksum (SHA256): ", checksum.as_str()),
                    "Uploading new binary to host...".to_owned(),
                ];
                assert(text::views(lines@) =~= seq![
                    "Checksum (SHA256): "@ + checksum@,
                    "Uploading new binary to host..."@,
                ]);
                UpgradeStep::Send { lines, message: UploadMessage::Metadata { sha256_sum: checksum } }
            },
        },
        UpgradeProgress::ChecksumSent(sent) => if sent {
            UpgradeStep::Open
        } else {
            UpgradeStep::StopSending(None)
        },
        UpgradeProgress::Opened(opened) => match opened {
            Ok(_) => UpgradeStep::ReadChunk { size: CHUNK_SIZE },
            Err(e) => UpgradeStep::StopSending(
                Some(text::cat2("Failed to open file for upload: ", e.as_str())),
            ),
        },
        UpgradeProgress::ChunkRead(read) => match read {
            Err(e) => UpgradeStep::StopSending(
                Some(text::cat2("Error reading from file: ", e.as_str())),
            ),
            Ok(chunk) => if chunk.len() == 0 {
                UpgradeStep::StopSending(None)
            } else {
                UpgradeStep::SendChunk(UploadMessage::Chunk(chunk))
            },
        },
        UpgradeProgress::ChunkSent(sent) => if sent {
            UpgradeStep::ReadChunk { size: CHUNK_SIZE }
        } else {
            UpgradeStep::StopSending(None)
        },
        UpgradeProgress::Answered(answer) => match answer {
            Ok(message) => UpgradeStep::Show(text::cat2("Server response: ", message.as_str())),
            Err(e) => UpgradeStep::Fail(e),
        },
    }
}

/// Bytes behind each other.
pub open spec fn joined_chunks(chunks: Seq<Vec<u8>>) -> Seq<u8>
    decreases chunks.len(),
{
    if chunks.len() == 0 {
        Seq::empty()
    } else {
        joined_chunks(chunks.drop_last()) + chunks.last()@
    }
}

/// The bytes that steps of an upload append to the file of the host.
pub open spec fn written(actions: Seq<upload::UploadAction>) -> Seq<u8>
    decreases actions.len(),
{
    if actions.len() == 0 {
        Seq::empty()
    } else {
        written(actions.drop_last()) + match actions.last() {
            upload::UploadAction::WriteChunk { expected: _, chunk } => chunk@,
            _ => Seq::empty(),
        }
    }
}

/// Whether the client sends a chunk that it read, and the host takes it.
pub open spec fn chunk_passes(
    chunk: Vec<u8>,
    step: UpgradeStep,
    expected: String,
    action: upload::UploadAction,
) -> bool {
    &&& upgrade_next(UpgradeProgress::ChunkRead(Ok(chunk)), step)
    &&& step matches UpgradeStep::SendChunk(message) && upload::upload_next(
        upload::UploadProgress::Received { expected, message: Some(Ok(message)) },
        action,
    )
}

/// The host writes the bytes that the client read, unchanged and in order.
pub proof fn sent_bytes_are_written(
    chunks: Seq<Vec<u8>>,
    steps: Seq<UpgradeStep>,
    expected: String,
    actions: Seq<upload::UploadAction>,
)
    requires
        steps.len() == chunks.len(),
        actions.len() == chunks.len(),
        forall|i: int|
            0 <= i < chunks.len() ==> chunk_passes(
                #[trigger] chunks[i],
                steps[i],
                expected,
                actions[i],
            ),
    ensures
        written(actions) == joined_chunks(chunks),
    decreases chunks.len(),
{
    if chunks.len() > 0 {
        let n = chunks.len() - 1;
        assert(chunk_passes(chunks[n], steps[n], expected, actions[n]));
        let init = chunks.drop_last();
        assert forall|i: int| 0 <= i < init.len() implies chunk_passes(
            #[trigger] init[i],
            steps.drop_last()[i],
            expected,
            actions.drop_last()[i],
        ) by {
            assert(init[i] == chunks[i]);
        }
        sent_bytes_are_written(init, steps.drop_last(), expected, actions.drop_last());
    }
}

/// A binary that the client uploads is one that the host accepts: where the client
/// sends all that it read for the checksum, and the host reads back what it wrote,
/// the host stages the file if and only if it begins like a binary.
pub proof fn uploaded_binary_is_accepted(
    content: Vec<u8>,
    asked: UpgradeStep,
    chunks: Seq<Vec<u8>>,
    steps: Seq<UpgradeStep>,
    expected: String,
    actions: Seq<upload::UploadAction>,
    file: upload::FileRead,
    last: upload::UploadAction,
)
    requires
        upgrade_next(UpgradeProgress::Read(Ok(content)), asked),
        asked matches UpgradeStep::Send { lines: _, message: UploadMessage::Metadata { sha256_sum } }
            && expected == sha256_sum,
        joined_chunks(chunks) == content@,
        steps.len() == chunks.len(),
        actions.len() == chunks.len(),
        forall|i: int|
            0 <= i < chunks.len() ==> chunk_passes(
                #[trigger] chunks[i],
                steps[i],
                expected,
                actions[i],
            ),
        file.head matches Some(head) && (file.rest matches Ok(rest) && head@ + rest@ == written(
            actions,
        )),
        upload::upload_next(upload::UploadProgress::ReadBack { expected, file: Ok(file) }, last),
    ensures
        last is Stage <==> upload::is_elf(file.head->Some_0),
{
    sent_bytes_are_written(chunks, steps, expected, actions);
}

} // verus!
