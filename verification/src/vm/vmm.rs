//! The hypervisor: its errors, and the events that it gives rise to.
use crate::ids;
use crate::rpc::{Code, RpcStatus};
use crate::text;
use crate::vm::{EventData, VmEvent, VmEventWrapper, VmState, VmStateChangedEvent};
use vstd::prelude::*;

verus! {

/// Why the hypervisor could not deal with a virtual machine.
#[derive(Debug)]
pub enum VmmError {
    ProcessSpawnFailed(String),
    InvalidConfig(String),
    ApiConnectionFailed(String),
    ApiOperationFailed(String),
    VmNotFound(String),
    ImageServiceFailed(String),
    Internal(String),
}

impl VmmError {
    /// What the error reads as.
    pub open spec fn text(self) -> Seq<char> {
        match self {
            VmmError::ProcessSpawnFailed(m) => "Hypervisor process failed to start: "@ + m@,
            VmmError::InvalidConfig(m) => "The provided configuration is invalid for this hypervisor: "@
                + m@,
            VmmError::ApiConnectionFailed(m) => "Could not connect to the hypervisor's API socket: "@
                + m@,
            VmmError::ApiOperationFailed(m) => "The hypervisor's API returned an error: "@ + m@,
            VmmError::VmNotFound(m) => "The requested VM (id: "@ + m@ + ") could not be found"@,
            VmmError::ImageServiceFailed(m) => "The image service returned an error: "@ + m@,
            VmmError::Internal(m) => "An internal or unexpected error occurred: "@ + m@,
        }
    }

    /// The error's text.
    pub fn message(&self) -> (r: String)
        ensures
            r@ == self.text(),
    {
        match self {
            VmmError::ProcessSpawnFailed(m) => text::cat2(
                "Hypervisor process failed to start: ",
                m.as_str(),
            ),
            VmmError::InvalidConfig(m) => text::cat2(
                "The provided configuration is invalid for this hypervisor: ",
                m.as_str(),
            ),
            VmmError::ApiConnectionFailed(m) => text::cat2(
                "Could not connect to the hypervisor's API socket: ",
                m.as_str(),
            ),
            VmmError::ApiOperationFailed(m) => text::cat2(
                "The hypervisor's API returned an error: ",
                m.as_str(),
            ),
            VmmError::VmNotFound(m) => text::cat3(
                "The requested VM (id: ",
                m.as_str(),
                ") could not be found",
            ),
            VmmError::ImageServiceFailed(m) => text::cat2(
                "The image service returned an error: ",
                m.as_str(),
            ),
            VmmError::Internal(m) => text::cat2(
                "An internal or unexpected error occurred: ",
                m.as_str(),
            ),
        }
    }

    /// The code that the error is answered with.
    pub open spec fn code(self) -> Code {
        match self {
            VmmError::VmNotFound(_) => Code::NotFound,
            VmmError::InvalidConfig(_) => Code::InvalidArgument,
            VmmError::ApiConnectionFailed(_) => Code::Unavailable,
            VmmError::ImageServiceFailed(_) => Code::Unavailable,
            VmmError::ProcessSpawnFailed(_) => Code::Internal,
            VmmError::ApiOperationFailed(_) => Code::Internal,
            VmmError::Internal(_) => Code::Internal,
        }
    }

    /// What the error says of the case at hand.
    pub open spec fn detail(self) -> Seq<char> {
        match self {
            VmmError::ProcessSpawnFailed(m) => m@,
            VmmError::InvalidConfig(m) => m@,
            VmmError::ApiConnectionFailed(m) => m@,
            VmmError::ApiOperationFailed(m) => m@,
            VmmError::VmNotFound(m) => m@,
            VmmError::ImageServiceFailed(m) => m@,
            VmmError::Internal(m) => m@,
        }
    }

    /// The status that the error is answered as.
    pub fn into_status(self) -> (s: RpcStatus)
        ensures
            s.says(self.code(), self.detail()),
    {
        match self {
            VmmError::VmNotFound(message) => RpcStatus { code: Code::NotFound, message },
            VmmError::InvalidConfig(message) => RpcStatus { code: Code::InvalidArgument, message },
            VmmError::ApiConnectionFailed(message) => RpcStatus {
                code: Code::Unavailable,
                message,
            },
            VmmError::ImageServiceFailed(message) => RpcStatus { code: Code::Unavailable, message },
            VmmError::ProcessSpawnFailed(message) => RpcStatus { code: Code::Internal, message },
            VmmError::ApiOperationFailed(message) => RpcStatus { code: Code::Internal, message },
            VmmError::Internal(message) => RpcStatus { code: Code::Internal, message },
        }
    }
}

/// The name of the type of the events that tell of a new state.
pub const STATE_CHANGED_TYPE_URL: &'static str = "type.googleapis.com/feos.vm.vmm.api.v1.VmStateChangedEvent";

/// Whether an event tells of this new state, under a random identifier of its own.
pub open spec fn tells(
    event: VmEvent,
    vm_id: Seq<char>,
    component: Seq<char>,
    state: VmState,
    reason: Seq<char>,
) -> bool {
    &&& event.vm_id@ == vm_id
    &&& exists|id: u128| #[trigger] ids::is_random_form(id) && event.id@ == ids::hyphenated(id)
    &&& event.component_id@ == component
    &&& event.data matches Some(data) && data.type_url@ == STATE_CHANGED_TYPE_URL@
        && data.change.new_state == state && data.change.reason@ == reason
}

/// An event that tells of a new state.
pub fn state_change_event(vm_id: &str, component: &str, change: VmStateChangedEvent) -> (event:
    VmEvent)
    ensures
        tells(event, vm_id@, component@, change.new_state, change.reason@),
{
    let id: u128 = ids::fresh_id();
    VmEvent {
        vm_id: vm_id.to_owned(),
        id: ids::id_text(id),
        component_id: component.to_owned(),
        data: Some(EventData { type_url: STATE_CHANGED_TYPE_URL.to_owned(), change }),
    }
}

/// What is broadcast when a virtual machine has a new state.
pub fn broadcast_state_change_event(
    vm_id: &str,
    component: &str,
    data: VmStateChangedEvent,
    process_id: Option<i64>,
) -> (w: VmEventWrapper)
    ensures
        tells(w.event, vm_id@, component@, data.new_state, data.reason@),
        w.process_id == process_id,
{
    VmEventWrapper { event: state_change_event(vm_id, component, data), process_id }
}

/// The kinds of hypervisor.
#[derive(Clone, Copy, Debug, PartialEq, Eq, Structural)]
pub enum VmmType {
    CloudHypervisor,
}

} // verus!
