//! The virtual machine service: its messages and records, the decisions of its
//! dispatcher and workers, and the configuration that the hypervisor is given.
use vstd::prelude::*;

pub mod ch_adapter;
pub mod console;
pub mod create;
pub mod dispatcher;
pub mod error;
pub mod events;
pub mod guards;
pub mod handlers;
pub mod hypervisor_laws;
pub mod laws;
pub mod message_laws;
pub mod part_laws;
pub mod persistence;
pub mod service_laws;
pub mod vmm;
pub mod worker;

verus! {

/// The stages of a virtual machine's life.
#[derive(Clone, Copy, Debug, PartialEq, Eq, Structural)]
pub enum VmState {
    Unspecified,
    Creating,
    Created,
    Running,
    Paused,
    Stopped,
    Crashed,
}

impl VmState {
    /// The state's name in messages.
    pub open spec fn label(self) -> Seq<char> {
        match self {
            VmState::Unspecified => "Unspecified"@,
            VmState::Creating => "Creating"@,
            VmState::Created => "Created"@,
            VmState::Running => "Running"@,
            VmState::Paused => "Paused"@,
            VmState::Stopped => "Stopped"@,
            VmState::Crashed => "Crashed"@,
        }
    }

    /// The state's name in messages.
    pub fn name(self) -> (r: &'static str)
        ensures
            r@ == self.label(),
    {
        match self {
            VmState::Unspecified => "Unspecified",
            VmState::Creating => "Creating",
            VmState::Created => "Created",
            VmState::Running => "Running",
            VmState::Paused => "Paused",
            VmState::Stopped => "Stopped",
            VmState::Crashed => "Crashed",
        }
    }
}

/// The processors of a virtual machine.
#[derive(Debug)]
pub struct CpuConfig {
    pub boot_vcpus: u32,
    pub max_vcpus: u32,
}

/// The memory of a virtual machine.
#[derive(Debug)]
pub struct MemoryConfig {
    pub size_mib: u64,
    pub hugepages: bool,
}

/// What a network device of a virtual machine is connected to.
#[derive(Debug)]
pub enum Backend {
    /// A tap device of the host.
    Tap { tap_name: String },
    /// A PCI device of the host that is passed through.
    VfioPci { bdf: String },
}

/// A network device of a virtual machine.
#[derive(Debug)]
pub struct NetConfig {
    pub device_id: String,
    pub mac_address: String,
    pub backend: Option<Backend>,
}

/// What a virtual machine is made of. Disks are carried along in encoded form.
#[derive(Debug)]
pub struct VmConfig {
    pub cpus: Option<CpuConfig>,
    pub memory: Option<MemoryConfig>,
    pub image_ref: String,
    pub disks: Vec<Vec<u8>>,
    pub net: Vec<NetConfig>,
    pub ignition: Option<String>,
}

/// Asks for a virtual machine; without an identifier of its own it gets a fresh one.
#[derive(Debug)]
pub struct CreateVmRequest {
    pub config: Option<VmConfig>,
    pub vm_id: Option<String>,
}

/// Says which virtual machine is being created.
#[derive(Debug)]
pub struct CreateVmResponse {
    pub vm_id: String,
}

/// A request that names a virtual machine and nothing more.
#[derive(Debug)]
pub struct VmRequest {
    pub vm_id: String,
}

/// Asks for the events of one virtual machine or of all.
#[derive(Debug)]
pub struct StreamVmEventsRequest {
    pub vm_id: Option<String>,
}

/// Asks for a network device to be added to a virtual machine.
#[derive(Debug)]
pub struct AttachNicRequest {
    pub vm_id: String,
    pub nic: Option<NetConfig>,
}

/// Asks for a network device to be taken from a virtual machine.
#[derive(Debug)]
pub struct RemoveNicRequest {
    pub vm_id: String,
    pub device_id: String,
}

/// What is known of a virtual machine.
#[derive(Debug)]
pub struct VmInfo {
    pub vm_id: String,
    pub state: VmState,
    pub config: Option<VmConfig>,
}

/// What is known of every virtual machine.
#[derive(Debug)]
pub struct ListVmsResponse {
    pub vms: Vec<VmInfo>,
}

/// What a hypervisor says of itself.
#[derive(Debug)]
pub struct PingVmResponse {
    pub build_version: String,
    pub version: String,
    pub pid: i64,
    pub features: Vec<String>,
}

/// Says that a virtual machine has a new state, and why.
#[derive(Debug)]
pub struct VmStateChangedEvent {
    pub new_state: VmState,
    pub reason: String,
}

/// What an event carries: the name of its type, and the change that it tells of.
#[derive(Debug)]
pub struct EventData {
    pub type_url: String,
    pub change: VmStateChangedEvent,
}

/// Something that happened to a virtual machine.
#[derive(Debug)]
pub struct VmEvent {
    pub vm_id: String,
    pub id: String,
    pub component_id: String,
    pub data: Option<EventData>,
}

/// An event, with the process of the virtual machine where it became known.
#[derive(Debug)]
pub struct VmEventWrapper {
    pub event: VmEvent,
    pub process_id: Option<i64>,
}

} // verus!
