//! The adapter for Cloud Hypervisor: the configuration that a virtual machine is
//! created with, and what the hypervisor's answers amount to.
use crate::image::IMAGE_DIR;
use crate::numbers;
use crate::text;
use crate::vm::vmm::{self, VmmError, VmmType};
use crate::vm::{
    AttachNicRequest, Backend, CreateVmRequest, NetConfig, PingVmResponse, RemoveNicRequest,
    VmConfig, VmEventWrapper, VmInfo, VmState, VmStateChangedEvent,
};
use vstd::prelude::*;

verus! {

/// Where the hypervisor keeps its sockets.
pub struct VmDirs {
    /// The directory of the sockets that the hypervisors listen on.
    pub api_sockets: String,
    /// The directory of the sockets of the consoles.
    pub consoles: String,
}

impl VmDirs {
    /// The socket that the hypervisor of a virtual machine listens on.
    pub open spec fn api_socket(self, vm_id: Seq<char>) -> Seq<char> {
        text::joined(self.api_sockets@, vm_id)
    }

    /// The socket of the console of a virtual machine.
    pub open spec fn console_socket(self, vm_id: Seq<char>) -> Seq<char> {
        text::joined(self.consoles@, vm_id + ".console"@)
    }

    /// The socket that the hypervisor of a virtual machine listens on.
    pub fn api_socket_path(&self, vm_id: &str) -> (r: String)
        ensures
            r@ == self.api_socket(vm_id@),
    {
        text::path_join(self.api_sockets.as_str(), vm_id)
    }

    /// The socket of the console of a virtual machine.
    pub fn console_socket_path(&self, vm_id: &str) -> (r: String)
        ensures
            r@ == self.console_socket(vm_id@),
    {
        let name = text::cat2(vm_id, ".console");
        text::path_join(self.consoles.as_str(), name.as_str())
    }
}

/// A network device as the hypervisor knows it.
#[derive(Debug)]
pub struct ChNetConfig {
    pub tap: Option<String>,
    pub mac: Option<String>,
    pub id: Option<String>,
}

/// A passed-through device as the hypervisor knows it.
#[derive(Debug)]
pub struct ChDeviceConfig {
    pub path: String,
    pub id: Option<String>,
}

/// A device that connects a virtual machine to a network.
#[derive(Debug)]
pub enum ChNetworkDevice {
    Net(ChNetConfig),
    Device(ChDeviceConfig),
}

impl ChNetworkDevice {
    /// The name of the device.
    pub open spec fn spec_id(self) -> Option<String> {
        match self {
            ChNetworkDevice::Net(config) => config.id,
            ChNetworkDevice::Device(config) => config.id,
        }
    }

    /// The name of the device.
    pub fn id(&self) -> (r: Option<String>)
        ensures
            r == self.spec_id(),
    {
        let id = match self {
            ChNetworkDevice::Net(config) => &config.id,
            ChNetworkDevice::Device(config) => &config.id,
        };
        match id {
            Some(s) => Some(s.clone()),
            None => None,
        }
    }
}

/// The name of a network device: its own, or that of what it is connected to.
pub open spec fn device_name(nic: NetConfig) -> Seq<char> {
    if nic.device_id@.len() > 0 {
        nic.device_id@
    } else {
        match nic.backend {
            Some(Backend::Tap { tap_name }) => tap_name@,
            Some(Backend::VfioPci { bdf }) => "/sys/bus/pci/devices/"@ + bdf@,
            None => Seq::empty(),
        }
    }
}

/// Whether a device of the hypervisor is this network device.
pub open spec fn connects(device: ChNetworkDevice, nic: NetConfig) -> bool {
    match nic.backend {
        Some(Backend::Tap { tap_name }) => {
            &&& device matches ChNetworkDevice::Net(net)
            &&& net.tap matches Some(t) && t@ == tap_name@
            &&& if nic.mac_address@.len() == 0 {
                net.mac is None
            } else {
                net.mac matches Some(m) && m@ == nic.mac_address@
            }
            &&& net.id matches Some(i) && i@ == device_name(nic)
        },
        Some(Backend::VfioPci { bdf }) => {
            &&& device matches ChNetworkDevice::Device(dev)
            &&& dev.path@ == "/sys/bus/pci/devices/"@ + bdf@
            &&& dev.id matches Some(i) && i@ == device_name(nic)
        },
        None => false,
    }
}

/// Whether an error says that a network device is connected to nothing.
pub open spec fn lacks_backend(e: VmmError) -> bool {
    e matches VmmError::InvalidConfig(m) && m@ == "NetConfig backend (tap or vfio_pci) is required"@
}

/// The device that a network device is for the hypervisor.
pub fn convert_net_config_to_ch(nic: &NetConfig) -> (r: Result<ChNetworkDevice, VmmError>)
    ensures
        match r {
            Ok(device) => connects(device, *nic),
            Err(e) => nic.backend is None && lacks_backend(e),
        },
{
    match &nic.backend {
        Some(Backend::Tap { tap_name }) => {
            let id = if !nic.device_id.as_str().is_empty() {
                Some(nic.device_id.clone())
            } else {
                Some(tap_name.clone())
            };
            let mac = if nic.mac_address.as_str().is_empty() {
                None
            } else {
                Some(nic.mac_address.clone())
            };
            Ok(ChNetworkDevice::Net(ChNetConfig { tap: Some(tap_name.clone()), mac, id }))
        },
        Some(Backend::VfioPci { bdf }) => {
            let path = text::cat2("/sys/bus/pci/devices/", bdf.as_str());
            let id = if !nic.device_id.as_str().is_empty() {
                Some(nic.device_id.clone())
            } else {
                Some(path.clone())
            };
            Ok(ChNetworkDevice::Device(ChDeviceConfig { path, id }))
        },
        None => Err(
            VmmError::InvalidConfig(
                "NetConfig backend (tap or vfio_pci) is required".to_owned(),
            ),
        ),
    }
}

/// The processors as the hypervisor knows them.
#[derive(Debug)]
pub struct ChCpusConfig {
    pub boot_vcpus: i32,
    pub max_vcpus: i32,
}

/// The memory as the hypervisor knows it, in bytes.
#[derive(Debug)]
pub struct ChMemoryConfig {
    pub size: i64,
    pub shared: bool,
    pub hugepages: bool,
}

/// What the hypervisor tells a virtual machine of its platform.
#[derive(Debug)]
pub struct ChPlatformConfig {
    pub num_pci_segments: i32,
    pub oem_strings: Vec<String>,
}

/// What the hypervisor creates a virtual machine from: it boots the firmware, has
/// the serial console on a socket and no other console.
#[derive(Debug)]
pub struct ChVmConfig {
    pub firmware: String,
    pub disk_path: String,
    pub serial_socket: String,
    pub cpus: Option<ChCpusConfig>,
    pub memory: Option<ChMemoryConfig>,
    pub net: Option<Vec<ChNetConfig>>,
    pub devices: Option<Vec<ChDeviceConfig>>,
    pub platform: Option<ChPlatformConfig>,
}

/// Whether the size of the memory in bytes can be held.
pub open spec fn memory_fits(config: VmConfig) -> bool {
    config.memory matches Some(mem) ==> i64::MIN <= numbers::low_i64(mem.size_mib as int) * 1048576
        <= i64::MAX
}

/// Whether the size of the memory in bytes can be held.
pub fn memory_size_fits(config: &VmConfig) -> (r: bool)
    ensures
        r == memory_fits(*config),
{
    match &config.memory {
        None => true,
        Some(mem) => {
            let mib: i64 = numbers::truncate_u64(mem.size_mib);
            mib.checked_mul(1048576).is_some()
        },
    }
}

/// The network devices that are connected to tap devices.
pub open spec fn taps(nics: Seq<NetConfig>) -> Seq<NetConfig>
    decreases nics.len(),
{
    if nics.len() == 0 {
        Seq::empty()
    } else if nics.last().backend matches Some(Backend::Tap { .. }) {
        taps(nics.drop_last()).push(nics.last())
    } else {
        taps(nics.drop_last())
    }
}

/// The network devices that are passed through.
pub open spec fn passed_through(nics: Seq<NetConfig>) -> Seq<NetConfig>
    decreases nics.len(),
{
    if nics.len() == 0 {
        Seq::empty()
    } else if nics.last().backend matches Some(Backend::VfioPci { .. }) {
        passed_through(nics.drop_last()).push(nics.last())
    } else {
        passed_through(nics.drop_last())
    }
}

/// Whether devices are these network devices, in order.
pub open spec fn nets_are(nets: Seq<ChNetConfig>, nics: Seq<NetConfig>) -> bool {
    &&& nets.len() == nics.len()
    &&& forall|i: int|
        0 <= i < nets.len() ==> connects(ChNetworkDevice::Net(#[trigger] nets[i]), nics[i])
}

/// Whether devices are these passed-through devices, in order.
pub open spec fn devices_are(devices: Seq<ChDeviceConfig>, nics: Seq<NetConfig>) -> bool {
    &&& devices.len() == nics.len()
    &&& forall|i: int|
        0 <= i < devices.len() ==> connects(
            ChNetworkDevice::Device(#[trigger] devices[i]),
            nics[i],
        )
}

/// Whether the configuration is this one as the hypervisor knows it.
pub open spec fn configures(
    ch: ChVmConfig,
    vm_id: Seq<char>,
    config: VmConfig,
    image_uuid: Seq<char>,
    dirs: VmDirs,
) -> bool {
    &&& ch.firmware@ == "/usr/share/cloud-hypervisor/hypervisor-fw"@
    &&& ch.disk_path@ == IMAGE_DIR@ + "/"@ + image_uuid + "/disk.image"@
    &&& ch.serial_socket@ == dirs.consoles@ + "/"@ + vm_id + ".console"@
    &&& match config.cpus {
        None => ch.cpus is None,
        Some(cpus) => ch.cpus == Some(
            ChCpusConfig {
                boot_vcpus: numbers::low_i32(cpus.boot_vcpus as int),
                max_vcpus: numbers::low_i32(cpus.max_vcpus as int),
            },
        ),
    }
    &&& match config.memory {
        None => ch.memory is None,
        Some(mem) => ch.memory == Some(
            ChMemoryConfig {
                size: (numbers::low_i64(mem.size_mib as int) * 1048576) as i64,
                shared: true,
                hugepages: mem.hugepages,
            },
        ),
    }
    &&& if taps(config.net@).len() == 0 {
        ch.net is None
    } else {
        ch.net matches Some(nets) && nets_are(nets@, taps(config.net@))
    }
    &&& if passed_through(config.net@).len() == 0 {
        ch.devices is None
    } else {
        ch.devices matches Some(devices) && devices_are(devices@, passed_through(config.net@))
    }
    &&& match config.ignition {
        Some(data) => if data@.len() > 0 {
            ch.platform matches Some(p) && p.num_pci_segments == 1 && p.oem_strings@ == seq![data]
        } else {
            ch.platform is None
        },
        None => ch.platform is None,
    }
}

/// Whether every network device is connected to something.
pub open spec fn all_connected(nics: Seq<NetConfig>) -> bool {
    forall|i: int| 0 <= i < nics.len() ==> (#[trigger] nics[i]).backend is Some
}

/// The network devices of a configuration, as the hypervisor knows them.
fn convert_nics(nics: &Vec<NetConfig>) -> (r: Result<
    (Vec<ChNetConfig>, Vec<ChDeviceConfig>),
    VmmError,
>)
    ensures
        match r {
            Ok((nets, devices)) => all_connected(nics@) && nets_are(nets@, taps(nics@))
                && devices_are(devices@, passed_through(nics@)),
            Err(e) => !all_connected(nics@) && lacks_backend(e),
        },
{
    let mut nets: Vec<ChNetConfig> = Vec::new();
    let mut devices: Vec<ChDeviceConfig> = Vec::new();
    let mut i: usize = 0;
    while i < nics.len()
        invariant
            i <= nics@.len(),
            all_connected(nics@.take(i as int)),
            nets_are(nets@, taps(nics@.take(i as int))),
            devices_are(devices@, passed_through(nics@.take(i as int))),
        decreases nics@.len() - i,
    {
        let ghost init = nics@.take(i as int);
        let ghost next = nics@.take(i + 1);
        assert(next.drop_last() =~= init);
        assert(next.last() == nics@[i as int]);
        match convert_net_config_to_ch(&nics[i]) {
            Err(e) => {
                assert(nics@[i as int].backend is None);
                return Err(e);
            },
            Ok(ChNetworkDevice::Net(net)) => {
                nets.push(net);
            },
            Ok(ChNetworkDevice::Device(device)) => {
                devices.push(device);
            },
        }
        assert forall|k: int| 0 <= k < next.len() implies (#[trigger] next[k]).backend is Some by {
            if k < i {
                assert(next[k] == init[k]);
            }
        }
        i += 1;
    }
    assert(nics@.take(i as int) =~= nics@);
    Ok((nets, devices))
}

/// The configuration that the hypervisor is given for a virtual machine.
pub fn build_vm_config(
    vm_id: &str,
    config: VmConfig,
    image_uuid: &str,
    dirs: &VmDirs,
) -> (r: Result<ChVmConfig, VmmError>)
    requires
        memory_fits(config),
    ensures
        match r {
            Ok(ch) => all_connected(config.net@) && configures(
                ch,
                vm_id@,
                config,
                image_uuid@,
                *dirs,
            ),
            Err(e) => !all_connected(config.net@) && lacks_backend(e),
        },
{
    let (nets, devices) = match convert_nics(&config.net) {
        Ok(both) => both,
        Err(e) => {
            return Err(e);
        },
    };
    let cpus = match config.cpus {
        None => None,
        Some(cpus) => Some(
            ChCpusConfig {
                boot_vcpus: numbers::truncate_u32(cpus.boot_vcpus),
                max_vcpus: numbers::truncate_u32(cpus.max_vcpus),
            },
        ),
    };
    let memory = match config.memory {
        None => None,
        Some(mem) => {
            let mib: i64 = numbers::truncate_u64(mem.size_mib);
            Some(ChMemoryConfig { size: mib * 1048576, shared: true, hugepages: mem.hugepages })
        },
    };
    let platform = match config.ignition {
        None => None,
        Some(data) => if data.as_str().is_empty() {
            None
        } else {
            let oem_strings = vec![data];
            assert(oem_strings@ =~= seq![data]);
            Some(ChPlatformConfig { num_pci_segments: 1, oem_strings })
        },
    };
    Ok(
        ChVmConfig {
            firmware: "/usr/share/cloud-hypervisor/hypervisor-fw".to_owned(),
            disk_path: text::cat4(IMAGE_DIR, "/", image_uuid, "/disk.image"),
            serial_socket: text::cat4(dirs.consoles.as_str(), "/", vm_id, ".console"),
            cpus,
            memory,
            net: if nets.len() == 0 {
                None
            } else {
                Some(nets)
            },
            devices: if devices.len() == 0 {
                None
            } else {
                Some(devices)
            },
            platform,
        },
    )
}

/// How far the creation of a virtual machine in a started hypervisor has come, and
/// what the last step gave.
pub enum CreationProgress {
    /// The hypervisor was started.
    Started(VmConfig),
    /// Whether its socket appeared in time.
    SocketWaited { config: VmConfig, appeared: bool },
    /// Whether the socket is still there.
    SocketChecked { config: VmConfig, present: bool },
    /// Whether the directory of the consoles could be created.
    ConsoleDirMade { config: VmConfig, made: Result<(), String> },
    /// What the hypervisor made of the configuration.
    Configured(Result<(), String>),
}

/// What to do next to create a virtual machine in a started hypervisor.
pub enum CreationStep {
    /// Wait up to five seconds for the socket of the hypervisor.
    WaitForSocket { path: String, config: VmConfig },
    /// See whether the socket of the hypervisor is there.
    CheckSocket { path: String, config: VmConfig },
    /// Create the directory of the consoles.
    MakeConsoleDir { path: String, config: VmConfig },
    /// Have the hypervisor create the virtual machine.
    Configure(ChVmConfig),
    /// The creation is over.
    Finish(Result<(), VmmError>),
}

/// The next step of a creation.
pub open spec fn creation_next(
    vm_id: Seq<char>,
    image_uuid: Seq<char>,
    dirs: VmDirs,
    progress: CreationProgress,
    step: CreationStep,
) -> bool {
    match progress {
        CreationProgress::Started(config) => step matches CreationStep::WaitForSocket {
            path,
            config: c,
        } && path@ == dirs.api_socket(vm_id) && c == config,
        CreationProgress::SocketWaited { config, appeared } => if appeared {
            step matches CreationStep::CheckSocket { path, config: c } && path@ == dirs.api_socket(
                vm_id,
            ) && c == config
        } else {
            step matches CreationStep::Finish(Err(VmmError::ApiConnectionFailed(m))) && m@
                == "Timed out waiting for API socket"@
        },
        CreationProgress::SocketChecked { config, present } => if present {
            step matches CreationStep::MakeConsoleDir { path, config: c } && path@ == dirs.consoles@
                && c == config
        } else {
            step matches CreationStep::Finish(Err(VmmError::VmNotFound(m))) && m@ == vm_id
        },
        CreationProgress::ConsoleDirMade { config, made } => match made {
            Err(e) => step matches CreationStep::Finish(Err(VmmError::Internal(m))) && m@
                == "Failed to create console dir: "@ + e@,
            Ok(_) => if all_connected(config.net@) {
                step matches CreationStep::Configure(ch) && configures(
                    ch,
                    vm_id,
                    config,
                    image_uuid,
                    dirs,
                )
            } else {
                step matches CreationStep::Finish(Err(e)) && lacks_backend(e)
            },
        },
        CreationProgress::Configured(done) => match done {
            Ok(_) => step == CreationStep::Finish(Ok(())),
            Err(e) => step matches CreationStep::Finish(Err(VmmError::ApiOperationFailed(m))) && m@
                == "vm.create API call failed: "@ + e@,
        },
    }
}

/// What became of a hypervisor that was to create a virtual machine.
pub enum ProcessOutcome {
    /// It could not be started.
    NotStarted(String),
    /// It ended before the virtual machine was created; what its status reads as.
    Exited(String),
    /// It cannot be waited for.
    NotAwaited(String),
    /// It runs, and the creation came to this.
    Created { pid: Option<u32>, result: Result<(), VmmError> },
}

/// What came of a call to the hypervisor.
pub enum ApiReply<T> {
    /// Its socket is not there.
    NoSocket,
    /// The call failed.
    Failed(String),
    /// The call succeeded.
    Done(T),
}

/// What a call to the hypervisor of a virtual machine amounts to.
pub open spec fn api_result<T>(
    vm_id: Seq<char>,
    what: Seq<char>,
    reply: ApiReply<T>,
    r: Result<T, VmmError>,
) -> bool {
    match reply {
        ApiReply::NoSocket => r matches Err(VmmError::VmNotFound(m)) && m@ == vm_id,
        ApiReply::Failed(e) => r matches Err(VmmError::ApiOperationFailed(m)) && m@ == what + e@,
        ApiReply::Done(t) => r == Ok::<T, VmmError>(t),
    }
}

/// The states that the hypervisor knows.
#[derive(Clone, Copy, Debug, PartialEq, Eq, Structural)]
pub enum ChVmState {
    Created,
    Running,
    Paused,
    Shutdown,
}

/// What the hypervisor answers a ping.
pub struct ChPing {
    pub build_version: Option<String>,
    pub version: String,
    pub pid: Option<i64>,
    pub features: Option<Vec<String>>,
}

/// What the hypervisor is asked to add to a virtual machine.
pub enum NicStep {
    /// Add this device.
    Add { device: ChNetworkDevice, device_id: String },
    /// The request fails.
    Fail(VmmError),
}

/// One step of the removal of a hypervisor.
pub enum CleanupStep {
    /// Have the hypervisor delete the virtual machine, if its socket is there.
    DeleteViaApi { socket: String },
    /// Kill the process.
    Kill { pid: i32 },
    /// Remove a socket, if it is there.
    RemoveSocket { path: String },
}

/// What the monitor of a virtual machine's health learns.
pub enum HealthEvent {
    /// What a ping came to.
    Pinged(Result<(), VmmError>),
    /// The monitor of this virtual machine is to stop.
    Cancelled(u128),
    /// No more is to be learnt of what is to stop.
    ChannelClosed,
}

/// What the monitor of a virtual machine's health does.
pub enum HealthAction {
    /// Go on.
    Continue,
    /// Broadcast that the virtual machine has crashed, and stop.
    Report(VmEventWrapper),
    /// Stop.
    Stop,
}

/// Turns what the service asks of a virtual machine into calls to Cloud Hypervisor.
pub struct CloudHypervisorAdapter {
    pub ch_binary_path: String,
}

impl CloudHypervisorAdapter {
    /// The adapter for a hypervisor binary.
    pub fn new(ch_binary_path: String) -> (r: CloudHypervisorAdapter)
        ensures
            r.ch_binary_path == ch_binary_path,
    {
        CloudHypervisorAdapter { ch_binary_path }
    }

    /// The next step of a creation in a started hypervisor.
    pub fn perform_vm_creation(
        vm_id: &str,
        image_uuid: &str,
        dirs: &VmDirs,
        progress: CreationProgress,
    ) -> (step: CreationStep)
        requires
            progress matches CreationProgress::ConsoleDirMade { config, made: Ok(_) } ==> memory_fits(
                config,
            ),
        ensures
            creation_next(vm_id@, image_uuid@, *dirs, progress, step),
    {
        match progress {
            CreationProgress::Started(config) => CreationStep::WaitForSocket {
                path: dirs.api_socket_path(vm_id),
                config,
            },
            CreationProgress::SocketWaited { config, appeared } => if appeared {
                CreationStep::CheckSocket { path: dirs.api_socket_path(vm_id), config }
            } else {
                CreationStep::Finish(
                    Err(
                        VmmError::ApiConnectionFailed(
                            "Timed out waiting for API socket".to_owned(),
                        ),
                    ),
                )
            },
            CreationProgress::SocketChecked { config, present } => if present {
                CreationStep::MakeConsoleDir { path: dirs.consoles.clone(), config }
            } else {
                CreationStep::Finish(Err(VmmError::VmNotFound(vm_id.to_owned())))
            },
            CreationProgress::ConsoleDirMade { config, made } => match made {
                Err(e) => CreationStep::Finish(
                    Err(
                        VmmError::Internal(
                            text::cat2("Failed to create console dir: ", e.as_str()),
                        ),
                    ),
                ),
                Ok(_) => match build_vm_config(vm_id, config, image_uuid, dirs) {
                    Ok(ch) => CreationStep::Configure(ch),
                    Err(e) => CreationStep::Finish(Err(e)),
                },
            },
            CreationProgress::Configured(done) => match done {
                Ok(_) => CreationStep::Finish(Ok(())),
                Err(e) => CreationStep::Finish(
                    Err(
                        VmmError::ApiOperationFailed(
                            text::cat2("vm.create API call failed: ", e.as_str()),
                        ),
                    ),
                ),
            },
        }
    }

    /// The configuration of a request, which a hypervisor is started for.
    pub fn required_config(req: CreateVmRequest) -> (r: Result<VmConfig, VmmError>)
        ensures
            match req.config {
                Some(config) => r == Ok::<VmConfig, VmmError>(config),
                None => r matches Err(VmmError::InvalidConfig(m)) && m@ == "VmConfig is required"@,
            },
    {
        match req.config {
            Some(config) => Ok(config),
            None => Err(VmmError::InvalidConfig("VmConfig is required".to_owned())),
        }
    }

    /// The process of a created virtual machine, or why there is none; and whether
    /// the hypervisor is to be killed.
    pub fn create_vm(outcome: ProcessOutcome) -> (r: (Result<Option<i64>, VmmError>, bool))
        ensures
            match outcome {
                ProcessOutcome::NotStarted(e) => r.0 == Err::<Option<i64>, VmmError>(
                    VmmError::ProcessSpawnFailed(e),
                ) && !r.1,
                ProcessOutcome::Exited(status) => (r.0 matches Err(VmmError::ProcessSpawnFailed(m))
                    && m@ == "Process exited prematurely with status: "@ + status@) && !r.1,
                ProcessOutcome::NotAwaited(e) => (r.0 matches Err(VmmError::ProcessSpawnFailed(m))
                    && m@ == "Failed to wait for child process: "@ + e@) && !r.1,
                ProcessOutcome::Created { pid, result } => match result {
                    Ok(_) => !r.1 && match pid {
                        Some(p) => r.0 == Ok::<Option<i64>, VmmError>(Some(p as i64)),
                        None => r.0 == Ok::<Option<i64>, VmmError>(None),
                    },
                    Err(e) => r.0 == Err::<Option<i64>, VmmError>(e) && r.1,
                },
            },
    {
        match outcome {
            ProcessOutcome::NotStarted(e) => (Err(VmmError::ProcessSpawnFailed(e)), false),
            ProcessOutcome::Exited(status) => (
                Err(
                    VmmError::ProcessSpawnFailed(
                        text::cat2("Process exited prematurely with status: ", status.as_str()),
                    ),
                ),
                false,
            ),
            ProcessOutcome::NotAwaited(e) => (
                Err(
                    VmmError::ProcessSpawnFailed(
                        text::cat2("Failed to wait for child process: ", e.as_str()),
                    ),
                ),
                false,
            ),
            ProcessOutcome::Created { pid, result } => match result {
                Ok(_) => (
                    Ok(
                        match pid {
                            Some(p) => Some(p as i64),
                            None => None,
                        },
                    ),
                    false,
                ),
                Err(e) => (Err(e), true),
            },
        }
    }

    /// What a call to the hypervisor of a virtual machine amounts to.
    pub fn api_call<T>(vm_id: &str, what: &str, reply: ApiReply<T>) -> (r: Result<T, VmmError>)
        ensures
            api_result(vm_id@, what@, reply, r),
    {
        match reply {
            ApiReply::NoSocket => Err(VmmError::VmNotFound(vm_id.to_owned())),
            ApiReply::Failed(e) => Err(VmmError::ApiOperationFailed(text::cat2(what, e.as_str()))),
            ApiReply::Done(t) => Ok(t),
        }
    }

    /// What starting a virtual machine comes to.
    pub fn start_vm(vm_id: &str, reply: ApiReply<()>) -> (r: Result<(), VmmError>)
        ensures
            api_result(vm_id@, ""@, reply, r),
    {
        Self::api_call(vm_id, "", reply)
    }

    /// What shutting a virtual machine down comes to.
    pub fn shutdown_vm(vm_id: &str, reply: ApiReply<()>) -> (r: Result<(), VmmError>)
        ensures
            api_result(vm_id@, ""@, reply, r),
    {
        Self::api_call(vm_id, "", reply)
    }

    /// What pausing a virtual machine comes to.
    pub fn pause_vm(vm_id: &str, reply: ApiReply<()>) -> (r: Result<(), VmmError>)
        ensures
            api_result(vm_id@, ""@, reply, r),
    {
        Self::api_call(vm_id, "", reply)
    }

    /// What resuming a virtual machine comes to.
    pub fn resume_vm(vm_id: &str, reply: ApiReply<()>) -> (r: Result<(), VmmError>)
        ensures
            api_result(vm_id@, ""@, reply, r),
    {
        Self::api_call(vm_id, "", reply)
    }

    /// What asking the hypervisor for a virtual machine comes to.
    pub fn get_vm(vm_id: String, reply: ApiReply<ChVmState>) -> (r: Result<VmInfo, VmmError>)
        ensures
            match reply {
                ApiReply::Done(state) => r == Ok::<VmInfo, VmmError>(
                    VmInfo {
                        vm_id,
                        state: match state {
                            ChVmState::Created => VmState::Created,
                            ChVmState::Running => VmState::Running,
                            ChVmState::Paused => VmState::Paused,
                            ChVmState::Shutdown => VmState::Stopped,
                        },
                        config: None,
                    },
                ),
                ApiReply::NoSocket => r matches Err(VmmError::VmNotFound(m)) && m@ == vm_id@,
                ApiReply::Failed(e) => r matches Err(VmmError::ApiOperationFailed(m)) && m@ == ""@
                    + e@,
            },
    {
        match Self::api_call(vm_id.as_str(), "", reply) {
            Err(e) => Err(e),
            Ok(state) => Ok(
                VmInfo {
                    vm_id,
                    state: match state {
                        ChVmState::Created => VmState::Created,
                        ChVmState::Running => VmState::Running,
                        ChVmState::Paused => VmState::Paused,
                        ChVmState::Shutdown => VmState::Stopped,
                    },
                    config: None,
                },
            ),
        }
    }

    /// What pinging a hypervisor comes to: what it leaves out is empty, or 0.
    pub fn ping_vm(vm_id: &str, reply: ApiReply<ChPing>) -> (r: Result<PingVmResponse, VmmError>)
        ensures
            match reply {
                ApiReply::Done(ping) => r matches Ok(response) && response.version == ping.version
                    && response.pid == (match ping.pid {
                    Some(pid) => pid,
                    None => 0,
                }) && (match ping.build_version {
                    Some(v) => response.build_version == v,
                    None => response.build_version@ == Seq::<char>::empty(),
                }) && (match ping.features {
                    Some(f) => response.features == f,
                    None => response.features@.len() == 0,
                }),
                ApiReply::NoSocket => r matches Err(VmmError::VmNotFound(m)) && m@ == vm_id@,
                ApiReply::Failed(e) => r matches Err(VmmError::ApiOperationFailed(m)) && m@ == ""@
                    + e@,
            },
    {
        match Self::api_call(vm_id, "", reply) {
            Err(e) => Err(e),
            Ok(ping) => Ok(
                PingVmResponse {
                    build_version: match ping.build_version {
                        Some(v) => v,
                        None => String::new(),
                    },
                    version: ping.version,
                    pid: match ping.pid {
                        Some(pid) => pid,
                        None => 0,
                    },
                    features: match ping.features {
                        Some(f) => f,
                        None => Vec::new(),
                    },
                },
            ),
        }
    }

    /// The steps of the removal of a hypervisor, in order. No step that fails keeps
    /// the next from being taken.
    pub fn delete_vm(vm_id: &str, process_id: Option<i64>, dirs: &VmDirs) -> (steps: Vec<
        CleanupStep,
    >)
        ensures
            match process_id {
                None => {
                    &&& steps@.len() == 3
                    &&& steps@[0] matches CleanupStep::DeleteViaApi { socket } && socket@
                        == dirs.api_socket(vm_id@)
                    &&& steps@[1] matches CleanupStep::RemoveSocket { path } && path@
                        == dirs.api_socket(vm_id@)
                    &&& steps@[2] matches CleanupStep::RemoveSocket { path } && path@
                        == dirs.console_socket(vm_id@)
                },
                Some(pid) => {
                    &&& steps@.len() == 4
                    &&& steps@[0] matches CleanupStep::DeleteViaApi { socket } && socket@
                        == dirs.api_socket(vm_id@)
                    &&& steps@[1] == (CleanupStep::Kill { pid: numbers::low_i32(pid as int) })
                    &&& steps@[2] matches CleanupStep::RemoveSocket { path } && path@
                        == dirs.api_socket(vm_id@)
                    &&& steps@[3] matches CleanupStep::RemoveSocket { path } && path@
                        == dirs.console_socket(vm_id@)
                },
            },
    {
        let mut steps: Vec<CleanupStep> = Vec::new();
        steps.push(CleanupStep::DeleteViaApi { socket: dirs.api_socket_path(vm_id) });
        if let Some(pid) = process_id {
            steps.push(CleanupStep::Kill { pid: numbers::truncate_i64(pid) });
        }
        steps.push(CleanupStep::RemoveSocket { path: dirs.api_socket_path(vm_id) });
        steps.push(CleanupStep::RemoveSocket { path: dirs.console_socket_path(vm_id) });
        steps
    }

    /// The socket of the console of a virtual machine, given whether it exists.
    pub fn get_console_socket_path(
        vm_id: &str,
        dirs: &VmDirs,
        present: Result<bool, String>,
    ) -> (r: Result<String, VmmError>)
        ensures
            match present {
                Err(e) => r == Err::<String, VmmError>(VmmError::Internal(e)),
                Ok(true) => r matches Ok(path) && path@ == dirs.console_socket(vm_id@),
                Ok(false) => r matches Err(VmmError::VmNotFound(m)) && m@ == vm_id@,
            },
    {
        match present {
            Err(e) => Err(VmmError::Internal(e)),
            Ok(there) => if there {
                Ok(dirs.console_socket_path(vm_id))
            } else {
                Err(VmmError::VmNotFound(vm_id.to_owned()))
            },
        }
    }

    /// Disks cannot be added.
    pub fn attach_disk() -> (r: Result<(), VmmError>)
        ensures
            r matches Err(VmmError::Internal(m)) && m@
                == "AttachDisk not implemented for CloudHypervisorAdapter"@,
    {
        Err(
            VmmError::Internal("AttachDisk not implemented for CloudHypervisorAdapter".to_owned()),
        )
    }

    /// Disks cannot be removed.
    pub fn remove_disk() -> (r: Result<(), VmmError>)
        ensures
            r matches Err(VmmError::Internal(m)) && m@
                == "RemoveDisk not implemented for CloudHypervisorAdapter"@,
    {
        Err(
            VmmError::Internal("RemoveDisk not implemented for CloudHypervisorAdapter".to_owned()),
        )
    }

    /// The device that is to be added to a virtual machine, and the name that the
    /// client is told, given whether the socket of the hypervisor is there.
    pub fn attach_nic(req: AttachNicRequest, socket_exists: bool) -> (step: NicStep)
        ensures
            if !socket_exists {
                step matches NicStep::Fail(VmmError::VmNotFound(m)) && m@ == req.vm_id@
            } else {
                match req.nic {
                    None => step matches NicStep::Fail(VmmError::InvalidConfig(m)) && m@
                        == "NetConfig is required"@,
                    Some(nic) => if nic.backend is Some {
                        step matches NicStep::Add { device, device_id } && connects(device, nic)
                            && device_id@ == device_name(nic)
                    } else {
                        step matches NicStep::Fail(e) && lacks_backend(e)
                    },
                }
            },
    {
        if !socket_exists {
            return NicStep::Fail(VmmError::VmNotFound(req.vm_id));
        }
        match req.nic {
            None => NicStep::Fail(VmmError::InvalidConfig("NetConfig is required".to_owned())),
            Some(nic) => match convert_net_config_to_ch(&nic) {
                Err(e) => NicStep::Fail(e),
                Ok(device) => {
                    let device_id = match device.id() {
                        Some(id) => id,
                        None => String::new(),
                    };
                    NicStep::Add { device, device_id }
                },
            },
        }
    }

    /// What adding a device comes to, given what the hypervisor made of it.
    pub fn nic_attached(
        device: &ChNetworkDevice,
        device_id: String,
        added: Result<(), String>,
    ) -> (r: Result<String, VmmError>)
        ensures
            match added {
                Ok(_) => r == Ok::<String, VmmError>(device_id),
                Err(e) => r matches Err(VmmError::ApiOperationFailed(m)) && m@ == (match *device {
                    ChNetworkDevice::Net(_) => "vm.add-net failed: "@ + e@,
                    ChNetworkDevice::Device(_) => "vm.add-device failed: "@ + e@,
                }),
            },
    {
        match added {
            Ok(_) => Ok(device_id),
            Err(e) => Err(
                VmmError::ApiOperationFailed(
                    match device {
                        ChNetworkDevice::Net(_) => text::cat2("vm.add-net failed: ", e.as_str()),
                        ChNetworkDevice::Device(_) => text::cat2(
                            "vm.add-device failed: ",
                            e.as_str(),
                        ),
                    },
                ),
            ),
        }
    }

    /// What removing a network device comes to.
    pub fn remove_nic(req: &RemoveNicRequest, reply: ApiReply<()>) -> (r: Result<(), VmmError>)
        ensures
            api_result(req.vm_id@, "vm.remove-device failed: "@, reply, r),
    {
        Self::api_call(req.vm_id.as_str(), "vm.remove-device failed: ", reply)
    }

    /// What the monitor of a virtual machine's health does with what it learns: it
    /// goes on while pings succeed, reports a crash when one fails, and stops when
    /// it is told to. Where nobody is left to tell it, it goes on.
    pub fn healthcheck_vm(vm_id: &str, id: u128, event: HealthEvent) -> (action: HealthAction)
        ensures
            match event {
                HealthEvent::Pinged(Ok(_)) => action == HealthAction::Continue,
                HealthEvent::Pinged(Err(e)) => action matches HealthAction::Report(w)
                    && w.process_id is None && vmm::tells(
                    w.event,
                    vm_id@,
                    "vm-health-monitor"@,
                    VmState::Crashed,
                    "Healthcheck failed: "@ + e.text(),
                ),
                HealthEvent::Cancelled(other) => action == (if other == id {
                    HealthAction::Stop
                } else {
                    HealthAction::Continue
                }),
                HealthEvent::ChannelClosed => action == HealthAction::Continue,
            },
    {
        match event {
            HealthEvent::Pinged(Ok(_)) => HealthAction::Continue,
            HealthEvent::Pinged(Err(e)) => {
                let reason = text::cat2("Healthcheck failed: ", e.message().as_str());
                HealthAction::Report(
                    vmm::broadcast_state_change_event(
                        vm_id,
                        "vm-health-monitor",
                        VmStateChangedEvent { new_state: VmState::Crashed, reason },
                        None,
                    ),
                )
            },
            HealthEvent::Cancelled(other) => if other == id {
                HealthAction::Stop
            } else {
                HealthAction::Continue
            },
            HealthEvent::ChannelClosed => HealthAction::Continue,
        }
    }
}

/// The hypervisor of a kind, run from this binary.
pub fn factory(vmm_type: VmmType, ch_binary_path: String) -> (r: CloudHypervisorAdapter)
    ensures
        r.ch_binary_path == ch_binary_path,
{
    match vmm_type {
        VmmType::CloudHypervisor => CloudHypervisorAdapter::new(ch_binary_path),
    }
}

} // verus!
