//! Streams of events: the states that a client is told first, and the events that
//! it is told as they happen.
use crate::ids;
use crate::rpc::{Code, RpcStatus};
use crate::text;
use crate::vm::handlers;
use crate::vm::persistence::VmRecord;
use crate::vm::vmm;
use crate::vm::{StreamVmEventsRequest, VmEvent, VmEventWrapper, VmStateChangedEvent};
use vstd::prelude::*;

verus! {

/// How far a request for events has come, and what the last step gave.
pub enum StreamProgress {
    Received(StreamVmEventsRequest),
    /// What looking the virtual machine up gave.
    LookedUp { vm_id: String, id: u128, found: Result<Option<VmRecord>, String> },
    /// What reading all virtual machines gave.
    Listed(Result<Vec<VmRecord>, String>),
    /// Whether the state of the one virtual machine reached the client.
    SentOne { vm_id: String, delivered: bool },
    /// Whether the last state reached the client, and the records still to be told.
    SentNext { rest: Vec<VmRecord>, delivered: bool },
}

/// What to do next for a request for events.
pub enum StreamStep {
    /// Look the virtual machine up in the database.
    LookUp { vm_id: String, id: u128 },
    /// Read all virtual machines from the database.
    ListAll,
    /// Tell the client the state of the one virtual machine.
    SendOne { event: VmEvent, vm_id: String },
    /// Tell the client the state of one of all virtual machines.
    SendNext { event: VmEvent, rest: Vec<VmRecord> },
    /// Go on with the events as they happen.
    Live(StreamVmEventsRequest),
    /// Tell the client an error; the stream is over.
    Fail(RpcStatus),
    /// The client is gone; the stream is over.
    End,
}

/// Whether the stream ends with this status.
pub open spec fn fails(step: StreamStep, code: Code, message: Seq<char>) -> bool {
    step matches StreamStep::Fail(s) && s.says(code, message)
}

/// The next state of all is told, or the events go on as they happen.
pub open spec fn tells_next(records: Seq<VmRecord>, step: StreamStep) -> bool {
    if records.len() == 0 {
        step == StreamStep::Live(StreamVmEventsRequest { vm_id: None })
    } else {
        let record = records[0];
        step matches StreamStep::SendNext { event, rest } && rest@ == records.drop_first()
            && vmm::tells(
            event,
            ids::hyphenated(record.vm_id),
            "vm-service-db"@,
            record.status.state,
            "Initial state from DB: "@ + record.status.last_msg@,
        )
    }
}

/// The next step of a request for events.
pub open spec fn stream_next(progress: StreamProgress, step: StreamStep) -> bool {
    match progress {
        StreamProgress::Received(req) => match req.vm_id {
            None => step == StreamStep::ListAll,
            Some(vm_id) => match ids::uuid_parsed(vm_id@) {
                Ok(id) => step == (StreamStep::LookUp { vm_id, id }),
                Err(_) => fails(step, Code::InvalidArgument, "Invalid VM ID format."@),
            },
        },
        StreamProgress::LookedUp { vm_id, id, found } => match found {
            Ok(Some(record)) => step matches StreamStep::SendOne { event, vm_id: v } && v == vm_id
                && vmm::tells(
                event,
                vm_id@,
                "vm-service-db"@,
                record.status.state,
                record.status.last_msg@,
            ),
            Ok(None) => fails(
                step,
                Code::NotFound,
                "VM with ID "@ + ids::hyphenated(id) + " not found"@,
            ),
            Err(_) => fails(
                step,
                Code::Internal,
                "Failed to retrieve VM information for event stream."@,
            ),
        },
        StreamProgress::SentOne { vm_id, delivered } => if delivered {
            step == StreamStep::Live(StreamVmEventsRequest { vm_id: Some(vm_id) })
        } else {
            step == StreamStep::End
        },
        StreamProgress::Listed(listed) => match listed {
            Ok(records) => tells_next(records@, step),
            Err(_) => fails(
                step,
                Code::Internal,
                "Failed to retrieve initial VM list for event stream."@,
            ),
        },
        StreamProgress::SentNext { rest, delivered } => if delivered {
            tells_next(rest@, step)
        } else {
            step == StreamStep::End
        },
    }
}

fn tell_next(records: Vec<VmRecord>) -> (step: StreamStep)
    ensures
        tells_next(records@, step),
{
    if records.len() == 0 {
        return StreamStep::Live(StreamVmEventsRequest { vm_id: None });
    }
    let ghost all = records@;
    let mut rest = records;
    let record = rest.remove(0);
    assert(rest@ =~= all.drop_first());
    let reason = text::cat2("Initial state from DB: ", record.status.last_msg.as_str());
    let event = vmm::state_change_event(
        ids::id_text(record.vm_id).as_str(),
        "vm-service-db",
        VmStateChangedEvent { new_state: record.status.state, reason },
    );
    StreamStep::SendNext { event, rest }
}

/// The next step of a request for events: the client is told the present state of
/// the virtual machine it asks for, or of all, and then the events as they happen.
pub fn handle_stream_vm_events_command(progress: StreamProgress) -> (step: StreamStep)
    ensures
        stream_next(progress, step),
{
    match progress {
        StreamProgress::Received(req) => match req.vm_id {
            None => StreamStep::ListAll,
            Some(vm_id) => match handlers::known_vm_id(ids::id_of(vm_id.as_str())) {
                Ok(id) => StreamStep::LookUp { vm_id, id },
                Err(status) => StreamStep::Fail(status),
            },
        },
        StreamProgress::LookedUp { vm_id, id, found } => match found {
            Ok(Some(record)) => {
                let event = vmm::state_change_event(
                    vm_id.as_str(),
                    "vm-service-db",
                    VmStateChangedEvent {
                        new_state: record.status.state,
                        reason: record.status.last_msg,
                    },
                );
                StreamStep::SendOne { event, vm_id }
            },
            Ok(None) => StreamStep::Fail(
                RpcStatus {
                    code: Code::NotFound,
                    message: text::cat3("VM with ID ", ids::id_text(id).as_str(), " not found"),
                },
            ),
            Err(_) => StreamStep::Fail(
                RpcStatus::new(
                    Code::Internal,
                    "Failed to retrieve VM information for event stream.",
                ),
            ),
        },
        StreamProgress::SentOne { vm_id, delivered } => if delivered {
            StreamStep::Live(StreamVmEventsRequest { vm_id: Some(vm_id) })
        } else {
            StreamStep::End
        },
        StreamProgress::Listed(listed) => match listed {
            Ok(records) => tell_next(records),
            Err(_) => StreamStep::Fail(
                RpcStatus::new(
                    Code::Internal,
                    "Failed to retrieve initial VM list for event stream.",
                ),
            ),
        },
        StreamProgress::SentNext { rest, delivered } => if delivered {
            tell_next(rest)
        } else {
            StreamStep::End
        },
    }
}

/// What comes out of the channel of events.
pub enum BusEvent {
    Event(VmEventWrapper),
    /// Events were missed.
    Lagged(u64),
    Closed,
}

/// What to do with what comes out of the channel of events.
pub enum LiveStep {
    /// Tell the client; the stream is over if it is gone.
    Forward(VmEvent),
    /// Wait for the next event.
    Skip,
    /// The stream is over.
    Stop,
}

/// Whether a client that watches one virtual machine, or all, is told of an event.
pub open spec fn watches(vm_id: Option<String>, event: VmEvent) -> bool {
    vm_id matches Some(id) ==> event.vm_id@ == id@
}

/// What to do with what comes out of the channel of events: those of the virtual
/// machine that the client watches are passed on unchanged, and missed ones do not
/// end the stream.
pub fn handle_stream_vm_events(req: &StreamVmEventsRequest, received: BusEvent) -> (step: LiveStep)
    ensures
        match received {
            BusEvent::Event(w) => if watches(req.vm_id, w.event) {
                step == LiveStep::Forward(w.event)
            } else {
                step == LiveStep::Skip
            },
            BusEvent::Lagged(_) => step == LiveStep::Skip,
            BusEvent::Closed => step == LiveStep::Stop,
        },
{
    match received {
        BusEvent::Event(w) => {
            let watched = match &req.vm_id {
                None => true,
                Some(id) => text::same(w.event.vm_id.as_str(), id.as_str()),
            };
            if watched {
                LiveStep::Forward(w.event)
            } else {
                LiveStep::Skip
            }
        },
        BusEvent::Lagged(_) => LiveStep::Skip,
        BusEvent::Closed => LiveStep::Stop,
    }
}

} // verus!
