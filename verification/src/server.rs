//! The start of the server: what the first process of a machine does before it
//! serves.
use vstd::prelude::*;

verus! {

/// The kind of file system that the kernel starts from.
pub const INITIAL_FSTYPE: &'static str = "rootfs";

/// What a process does at its start.
#[derive(Clone, Copy, Debug, PartialEq, Eq, Structural)]
pub enum Start {
    /// Move to a file system of its own, and start anew from there.
    MoveRoot,
    /// Serve.
    Serve,
}

/// What a process does at its start: the first process of a machine leaves the file
/// system that the kernel starts from. A file system that could not be told is not
/// that one.
pub fn start(process_id: u32, root_fstype: Option<String>) -> (r: Start)
    ensures
        r == Start::MoveRoot <==> process_id == 1 && (root_fstype matches Some(fstype) && fstype@
            == INITIAL_FSTYPE@),
{
    if process_id == 1 {
        if let Some(fstype) = root_fstype {
            if crate::text::same(fstype.as_str(), INITIAL_FSTYPE) {
                return Start::MoveRoot;
            }
        }
    }
    Start::Serve
}

/// What the server does before it serves.
#[derive(Clone, Copy, Debug, PartialEq, Eq, Structural)]
pub struct ServerPlan {
    /// Warn that the server does not run as root.
    pub warn_not_root: bool,
    /// Prepare the machine, as after a first boot.
    pub initialize: bool,
    /// Say that the machine was prepared before an upgrade.
    pub tell_skipped: bool,
}

/// What the server does before it serves: the first process prepares the machine,
/// but not again after an upgrade.
pub fn run_server(restarted_after_upgrade: bool, is_root: bool, process_id: u32) -> (plan:
    ServerPlan)
    ensures
        plan.warn_not_root == !is_root,
        plan.initialize == (!restarted_after_upgrade && process_id == 1),
        plan.tell_skipped == restarted_after_upgrade,
{
    if !restarted_after_upgrade {
        ServerPlan {
            warn_not_root: !is_root,
            initialize: process_id == 1,
            tell_skipped: false,
        }
    } else {
        ServerPlan { warn_not_root: !is_root, initialize: false, tell_skipped: true }
    }
}

} // verus!
