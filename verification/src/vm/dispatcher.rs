//! The dispatcher of the virtual machine service: the first step of each command,
//! and what the events of the workers lead to.
use crate::ids;
use crate::rpc::{Code, RpcStatus};
use crate::text;
use crate::vm::create::{self, CreateProgress, CreateStep};
use crate::vm::events::{self, StreamProgress, StreamStep};
use crate::vm::guards::{self, Operation};
use crate::vm::handlers::{self, DeleteProgress, DeleteStep};
use crate::vm::persistence::VmRecord;
use crate::vm::{
    AttachNicRequest, CreateVmRequest, RemoveNicRequest, StreamVmEventsRequest, VmRequest, VmState,
    VmStateChangedEvent,
};
use vstd::prelude::*;

verus! {

/// What the service can be asked for.
#[derive(Debug)]
pub enum Command {
    CreateVm(CreateVmRequest),
    StartVm(VmRequest),
    GetVm(VmRequest),
    StreamVmEvents(StreamVmEventsRequest),
    DeleteVm(VmRequest),
    StreamVmConsole,
    ListVms,
    PingVm(VmRequest),
    ShutdownVm(VmRequest),
    PauseVm(VmRequest),
    ResumeVm(VmRequest),
    AttachDisk(VmRequest),
    RemoveDisk(VmRequest),
    AttachNic(AttachNicRequest),
    RemoveNic(RemoveNicRequest),
}

/// The first thing to do for a command.
pub enum FirstStep {
    Create(CreateStep),
    Stream(StreamStep),
    Delete(DeleteStep),
    /// Look the virtual machine up, to say what is known of it.
    Get { id: u128 },
    /// Look the virtual machine up, to see whether its state allows the command.
    Check { id: u128, op: Operation, request: VmRequest },
    /// Read all virtual machines.
    ListAll,
    /// Wait for the client to name a virtual machine.
    Console,
    /// Hand the command to a worker at once.
    Ping(VmRequest),
    AttachDisk(VmRequest),
    RemoveDisk(VmRequest),
    AttachNic(AttachNicRequest),
    RemoveNic(RemoveNicRequest),
    /// Answer with an error.
    Refuse(RpcStatus),
}

/// A command that depends on the state begins with a look at the virtual machine.
pub open spec fn checks(op: Operation, req: VmRequest, step: FirstStep) -> bool {
    match ids::uuid_parsed(req.vm_id@) {
        Ok(id) => step == (FirstStep::Check { id, op, request: req }),
        Err(_) => step matches FirstStep::Refuse(s) && s.says(
            Code::InvalidArgument,
            "Invalid VM ID format."@,
        ),
    }
}

/// The first thing to do for a command.
pub open spec fn first_step(cmd: Command, step: FirstStep) -> bool {
    match cmd {
        Command::CreateVm(req) => step matches FirstStep::Create(s) && create::first_step(req, s),
        Command::StartVm(req) => checks(Operation::Start, req, step),
        Command::GetVm(req) => match ids::uuid_parsed(req.vm_id@) {
            Ok(id) => step == (FirstStep::Get { id }),
            Err(_) => step matches FirstStep::Refuse(s) && s.says(
                Code::InvalidArgument,
                "Invalid VM ID format."@,
            ),
        },
        Command::StreamVmEvents(req) => step matches FirstStep::Stream(s) && events::stream_next(
            StreamProgress::Received(req),
            s,
        ),
        Command::DeleteVm(req) => step matches FirstStep::Delete(s) && handlers::delete_next(
            DeleteProgress::Received(req),
            s,
        ),
        Command::StreamVmConsole => step == FirstStep::Console,
        Command::ListVms => step == FirstStep::ListAll,
        Command::PingVm(req) => step == FirstStep::Ping(req),
        Command::ShutdownVm(req) => checks(Operation::Shutdown, req, step),
        Command::PauseVm(req) => checks(Operation::Pause, req, step),
        Command::ResumeVm(req) => checks(Operation::Resume, req, step),
        Command::AttachDisk(req) => step == FirstStep::AttachDisk(req),
        Command::RemoveDisk(req) => step == FirstStep::RemoveDisk(req),
        Command::AttachNic(req) => step == FirstStep::AttachNic(req),
        Command::RemoveNic(req) => step == FirstStep::RemoveNic(req),
    }
}

/// What is known of the change that an event carries.
pub enum Decoded {
    Change(VmStateChangedEvent),
    /// The number of the new state stands for none.
    UnknownState(i32),
    /// The change cannot be read.
    Malformed(String),
}

/// An event as the dispatcher sees it.
pub struct BusMessage {
    pub vm_id: String,
    pub process_id: Option<i64>,
    /// The name of the type of the data, and what it was read as.
    pub data: Option<(String, Decoded)>,
}

/// How far the dispatcher has come with an event.
pub enum EventProgress {
    Received,
    /// The process was stored, or could not be stored.
    PidStored,
    /// Whether the new state was stored: not, where there is no record.
    StatusStored(Result<bool, String>),
}

/// What the dispatcher does next with an event.
pub enum EventAction {
    /// Store the process of the virtual machine.
    StorePid { id: u128, pid: i64 },
    /// Store the new state and why it came about.
    StoreStatus { id: u128, state: VmState, reason: String },
    /// Pass the event on to those who watch.
    Forward,
    /// Nothing is left to do.
    Drop,
}

/// What follows from the change that an event carries.
pub open spec fn stores_change(id: u128, msg: BusMessage, action: EventAction) -> bool {
    match msg.data {
        Some((type_url, decoded)) => if text::occurs_in("VmStateChangedEvent"@, type_url@) {
            match decoded {
                Decoded::Change(change) => action matches EventAction::StoreStatus {
                    id: i,
                    state,
                    reason,
                } && i == id && state == change.new_state && reason@ == change.reason@,
                _ => action == EventAction::Drop,
            }
        } else {
            action == EventAction::Drop
        },
        None => action == EventAction::Drop,
    }
}

/// What the dispatcher does next with an event of a virtual machine.
pub open spec fn event_next_of(
    id: u128,
    msg: BusMessage,
    progress: EventProgress,
    action: EventAction,
) -> bool {
    match progress {
        EventProgress::Received => match msg.process_id {
            Some(pid) => action == (EventAction::StorePid { id, pid }),
            None => stores_change(id, msg, action),
        },
        EventProgress::PidStored => stores_change(id, msg, action),
        EventProgress::StatusStored(stored) => action == (if stored == Ok::<bool, String>(true) {
            EventAction::Forward
        } else {
            EventAction::Drop
        }),
    }
}

/// What the dispatcher does next with an event.
pub open spec fn event_next(msg: BusMessage, progress: EventProgress, action: EventAction) -> bool {
    match ids::uuid_parsed(msg.vm_id@) {
        Err(_) => action == EventAction::Drop,
        Ok(id) => event_next_of(id, msg, progress, action),
    }
}

/// The decisions of the virtual machine service.
pub struct VmServiceDispatcher;

impl VmServiceDispatcher {
    fn check(op: Operation, request: VmRequest) -> (step: FirstStep)
        ensures
            checks(op, request, step),
    {
        match handlers::requested_vm(&request) {
            Ok(id) => FirstStep::Check { id, op, request },
            Err(s) => FirstStep::Refuse(s),
        }
    }

    /// The first thing to do for a command.
    pub fn run(cmd: Command) -> (step: FirstStep)
        ensures
            first_step(cmd, step),
    {
        match cmd {
            Command::CreateVm(req) => FirstStep::Create(
                create::handle_create_vm_command(CreateProgress::Received(req)),
            ),
            Command::StartVm(req) => Self::check(Operation::Start, req),
            Command::GetVm(req) => match handlers::requested_vm(&req) {
                Ok(id) => FirstStep::Get { id },
                Err(s) => FirstStep::Refuse(s),
            },
            Command::StreamVmEvents(req) => FirstStep::Stream(
                events::handle_stream_vm_events_command(StreamProgress::Received(req)),
            ),
            Command::DeleteVm(req) => FirstStep::Delete(
                handlers::handle_delete_vm_command(DeleteProgress::Received(req)),
            ),
            Command::StreamVmConsole => FirstStep::Console,
            Command::ListVms => FirstStep::ListAll,
            Command::PingVm(req) => FirstStep::Ping(req),
            Command::ShutdownVm(req) => Self::check(Operation::Shutdown, req),
            Command::PauseVm(req) => Self::check(Operation::Pause, req),
            Command::ResumeVm(req) => Self::check(Operation::Resume, req),
            Command::AttachDisk(req) => FirstStep::AttachDisk(req),
            Command::RemoveDisk(req) => FirstStep::RemoveDisk(req),
            Command::AttachNic(req) => FirstStep::AttachNic(req),
            Command::RemoveNic(req) => FirstStep::RemoveNic(req),
        }
    }

    /// Whether a command that depends on the state goes on to a worker, once the
    /// virtual machine was looked up.
    pub fn state_checked(
        id: u128,
        op: Operation,
        found: Result<Option<VmRecord>, String>,
    ) -> (r: Result<(), RpcStatus>)
        ensures
            match found {
                Ok(Some(record)) => if guards::allowed(op, record.status.state) {
                    r == Ok::<(), RpcStatus>(())
                } else {
                    r matches Err(s) && s.says(
                        Code::FailedPrecondition,
                        guards::refusal(op, record.status.state),
                    )
                },
                Ok(None) => r matches Err(s) && s.says(
                    Code::NotFound,
                    "VM with ID "@ + ids::hyphenated(id) + " not found"@,
                ),
                Err(_) => r matches Err(s) && s.says(
                    Code::Internal,
                    "Failed to retrieve VM information."@,
                ),
            },
    {
        match found {
            Ok(Some(record)) => match guards::check_state(op, record.status.state) {
                Ok(_) => Ok(()),
                Err(e) => Err(e.into_status()),
            },
            Ok(None) => Err(
                RpcStatus {
                    code: Code::NotFound,
                    message: text::cat3("VM with ID ", ids::id_text(id).as_str(), " not found"),
                },
            ),
            Err(_) => Err(RpcStatus::new(Code::Internal, "Failed to retrieve VM information.")),
        }
    }

    /// What follows from the change that an event carries.
    pub fn handle_vm_state_changed_event(id: u128, msg: &BusMessage) -> (action: EventAction)
        ensures
            stores_change(id, *msg, action),
    {
        match &msg.data {
            Some((type_url, decoded)) => if text::contains(
                type_url.as_str(),
                "VmStateChangedEvent",
            ) {
                match decoded {
                    Decoded::Change(change) => EventAction::StoreStatus {
                        id,
                        state: change.new_state,
                        reason: change.reason.clone(),
                    },
                    Decoded::UnknownState(_) => EventAction::Drop,
                    Decoded::Malformed(_) => EventAction::Drop,
                }
            } else {
                EventAction::Drop
            },
            None => EventAction::Drop,
        }
    }

    /// What the dispatcher does next with an event of a virtual machine.
    pub fn handle_event_of(id: u128, msg: &BusMessage, progress: EventProgress) -> (action:
        EventAction)
        ensures
            event_next_of(id, *msg, progress, action),
    {
        match progress {
            EventProgress::Received => match msg.process_id {
                Some(pid) => EventAction::StorePid { id, pid },
                None => Self::handle_vm_state_changed_event(id, msg),
            },
            EventProgress::PidStored => Self::handle_vm_state_changed_event(id, msg),
            EventProgress::StatusStored(stored) => match stored {
                Ok(updated) => if updated {
                    EventAction::Forward
                } else {
                    EventAction::Drop
                },
                Err(_) => EventAction::Drop,
            },
        }
    }

    /// What the dispatcher does next with an event: the process and the new state
    /// are stored, and the event is passed on only where there is a record.
    pub fn handle_vm_event(msg: &BusMessage, progress: EventProgress) -> (action: EventAction)
        ensures
            event_next(*msg, progress, action),
    {
        match ids::id_of(msg.vm_id.as_str()) {
            Ok(id) => Self::handle_event_of(id, msg, progress),
            Err(_) => EventAction::Drop,
        }
    }
}

} // verus!
