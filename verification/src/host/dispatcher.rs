//! The dispatcher of the host service: what is read or done for each command.
use crate::host::ops::{UpgradeFeosBinaryRequest, KMSG_PATH};
use crate::host::power::RebootMode;
use vstd::prelude::*;

verus! {

/// What the service can be asked for.
#[derive(Debug)]
pub enum Command {
    GetHostname,
    GetMemory,
    GetCPUInfo,
    GetKernelStats,
    GetNetworkInfo,
    GetVersionInfo,
    UpgradeFeosBinary(UpgradeFeosBinaryRequest),
    StreamKernelLogs,
    StreamFeOSLogs,
    Shutdown,
    Reboot,
}

/// What is read or done for a command.
pub enum Task {
    /// Ask the system for its name.
    ReadHostname,
    /// Read the lines of this file, for what they tell of the memory.
    ReadMemory(&'static str),
    /// Read the lines of this file, for what they tell of the processors.
    ReadCpus(&'static str),
    /// Read the lines of this file, for what the kernel counts.
    ReadKernelStats(&'static str),
    /// Read what is in this directory, for what it tells of the network devices.
    ReadNetwork(&'static str),
    /// Read this file, for the version of the kernel.
    ReadVersion(&'static str),
    /// Carry out an upgrade.
    Upgrade(UpgradeFeosBinaryRequest),
    /// Stream the lines of this file.
    StreamLines(&'static str),
    /// Stream the service's own log.
    StreamOwnLog,
    /// Stop the machine.
    Power(RebootMode),
}

/// Whether this is what a command asks for.
pub open spec fn asked(cmd: Command, task: Task) -> bool {
    match cmd {
        Command::GetHostname => task == Task::ReadHostname,
        Command::GetMemory => task matches Task::ReadMemory(p) && p@ == "/proc/meminfo"@,
        Command::GetCPUInfo => task matches Task::ReadCpus(p) && p@ == "/proc/cpuinfo"@,
        Command::GetKernelStats => task matches Task::ReadKernelStats(p) && p@ == "/proc/stat"@,
        Command::GetNetworkInfo => task matches Task::ReadNetwork(p) && p@ == "/sys/class/net"@,
        Command::GetVersionInfo => task matches Task::ReadVersion(p) && p@ == "/proc/version"@,
        Command::UpgradeFeosBinary(req) => task == Task::Upgrade(req),
        Command::StreamKernelLogs => task matches Task::StreamLines(p) && p@ == KMSG_PATH@,
        Command::StreamFeOSLogs => task == Task::StreamOwnLog,
        Command::Shutdown => task == Task::Power(RebootMode::PowerOff),
        Command::Reboot => task == Task::Power(RebootMode::AutoBoot),
    }
}

/// The dispatcher of the host service.
pub struct HostServiceDispatcher;

impl HostServiceDispatcher {
    /// What is read or done for a command.
    pub fn run(cmd: Command) -> (task: Task)
        ensures
            asked(cmd, task),
    {
        match cmd {
            Command::GetHostname => Task::ReadHostname,
            Command::GetMemory => Task::ReadMemory("/proc/meminfo"),
            Command::GetCPUInfo => Task::ReadCpus("/proc/cpuinfo"),
            Command::GetKernelStats => Task::ReadKernelStats("/proc/stat"),
            Command::GetNetworkInfo => Task::ReadNetwork("/sys/class/net"),
            Command::GetVersionInfo => Task::ReadVersion("/proc/version"),
            Command::UpgradeFeosBinary(req) => Task::Upgrade(req),
            Command::StreamKernelLogs => Task::StreamLines(KMSG_PATH),
            Command::StreamFeOSLogs => Task::StreamOwnLog,
            Command::Shutdown => Task::Power(RebootMode::PowerOff),
            Command::Reboot => Task::Power(RebootMode::AutoBoot),
        }
    }
}

} // verus!
