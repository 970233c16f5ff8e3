//! What holds of the virtual machine service as a whole: how events change the
//! records of the database, and what clients are told.
use crate::ids;
use crate::text;
use crate::vm::create::{self, CreateStep, PullOutcome};
use crate::vm::dispatcher::{self, BusMessage, Decoded, EventAction, EventProgress};
use crate::vm::events::{self, StreamStep};
use crate::vm::guards::{self, Operation};
use crate::vm::handlers::{self, DeleteProgress, DeleteStep};
use crate::vm::persistence::{VmRecord, VmStatus};
use crate::vm::vmm::{self, VmmError, STATE_CHANGED_TYPE_URL};
use crate::vm::worker::{self, CreateAction, CreateProgress, Outcome};
use crate::vm::{StreamVmEventsRequest, VmConfig, VmEventWrapper, VmRequest, VmState};
use vstd::prelude::*;

verus! {

/// The records after the dispatcher has done what an event led to; nothing happens
/// without a record.
pub open spec fn after_event(db: Map<u128, VmRecord>, action: EventAction) -> Map<u128, VmRecord> {
    match action {
        EventAction::StorePid { id, pid } => if db.dom().contains(id) {
            db.insert(
                id,
                VmRecord {
                    status: VmStatus { process_id: Some(pid), ..db[id].status },
                    ..db[id]
                },
            )
        } else {
            db
        },
        EventAction::StoreStatus { id, state, reason } => if db.dom().contains(id) {
            db.insert(
                id,
                VmRecord {
                    status: VmStatus { state, last_msg: reason, ..db[id].status },
                    ..db[id]
                },
            )
        } else {
            db
        },
        _ => db,
    }
}

/// The records after the dispatcher is done with an event: one that names a process
/// leads to two changes.
pub open spec fn after_message(
    db: Map<u128, VmRecord>,
    msg: BusMessage,
    first: EventAction,
    second: EventAction,
) -> Map<u128, VmRecord> {
    match msg.process_id {
        Some(_) => after_event(after_event(db, first), second),
        None => after_event(db, first),
    }
}

/// What looking a virtual machine up gives.
pub open spec fn look_up(db: Map<u128, VmRecord>, id: u128) -> Result<Option<VmRecord>, String> {
    Ok(
        if db.dom().contains(id) {
            Some(db[id])
        } else {
            None
        },
    )
}

/// Whether the dispatcher sees what was broadcast.
pub open spec fn carries(msg: BusMessage, w: VmEventWrapper) -> bool {
    &&& msg.vm_id@ == w.event.vm_id@
    &&& msg.process_id == w.process_id
    &&& match w.event.data {
        None => msg.data is None,
        Some(data) => msg.data matches Some((type_url, decoded)) && type_url@ == data.type_url@
            && decoded == Decoded::Change(data.change),
    }
}

proof fn lemma_type_is_recognised()
    ensures
        text::occurs_in("VmStateChangedEvent"@, STATE_CHANGED_TYPE_URL@),
{
    reveal_strlit("VmStateChangedEvent");
    reveal_strlit("type.googleapis.com/feos.vm.vmm.api.v1.VmStateChangedEvent");
    let url = STATE_CHANGED_TYPE_URL@;
    let name = "VmStateChangedEvent"@;
    assert(url.len() == 58 && name.len() == 19);
    assert(url.subrange(39, 58) =~= name);
    assert(url.subrange(39int, 39int + name.len()) == name);
}

/// What is broadcast of a new state ends up in the record: once the dispatcher has
/// stored it, the record of the virtual machine has that state and that reason, its
/// process is the one that was broadcast where there was one, and nothing else has
/// changed.
pub proof fn broadcast_state_is_recorded(
    db: Map<u128, VmRecord>,
    id: u128,
    vm_id: Seq<char>,
    component: Seq<char>,
    state: VmState,
    reason: Seq<char>,
    w: VmEventWrapper,
    msg: BusMessage,
    first: EventAction,
    second: EventAction,
)
    requires
        db.dom().contains(id),
        ids::reads_as(vm_id, id),
        vmm::tells(w.event, vm_id, component, state, reason),
        carries(msg, w),
        dispatcher::event_next(msg, EventProgress::Received, first),
        dispatcher::event_next(msg, EventProgress::PidStored, second),
    ensures
        after_message(db, msg, first, second).dom() == db.dom(),
        after_message(db, msg, first, second)[id].status.state == state,
        after_message(db, msg, first, second)[id].status.last_msg@ == reason,
        after_message(db, msg, first, second)[id].status.process_id == (match w.process_id {
            Some(pid) => Some(pid),
            None => db[id].status.process_id,
        }),
        after_message(db, msg, first, second)[id].image_uuid == db[id].image_uuid,
        after_message(db, msg, first, second)[id].config == db[id].config,
        forall|other: u128|
            other != id && db.dom().contains(other) ==> #[trigger] after_message(
                db,
                msg,
                first,
                second,
            )[other] == db[other],
{
    lemma_type_is_recognised();
    let one = after_event(db, first);
    let two = after_event(one, second);
    assert(one.dom() =~= db.dom());
    assert(two.dom() =~= db.dom());
}

/// An event is passed on to those who watch if and only if the virtual machine that
/// it is about still has a record; one without a record gets none.
pub proof fn events_of_deleted_vms_are_dropped(
    db: Map<u128, VmRecord>,
    id: u128,
    msg: BusMessage,
    store: EventAction,
    then_step: EventAction,
)
    requires
        ids::reads_as(msg.vm_id@, id),
        dispatcher::event_next(msg, EventProgress::PidStored, store),
        dispatcher::event_next(
            msg,
            EventProgress::StatusStored(Ok(db.dom().contains(id))),
            then_step,
        ),
    ensures
        then_step == EventAction::Forward <==> db.dom().contains(id),
        !db.dom().contains(id) ==> after_event(db, store) == db,
{
}

/// A virtual machine is created only under an identifier that is free where it was
/// asked for, and its record starts as being created, without a process.
pub proof fn new_vm_is_creating(
    db: Map<u128, VmRecord>,
    id: u128,
    config: Option<VmConfig>,
    looked_up: CreateStep,
    outcome: PullOutcome,
    saved: CreateStep,
)
    requires
        create::step_after_lookup(id, config, look_up(db, id), looked_up),
        looked_up matches CreateStep::Pull { vm_id, config: c } && create::step_after_pull(
            vm_id,
            c,
            outcome,
            saved,
        ),
        saved is Save,
    ensures
        !db.dom().contains(id),
        saved matches CreateStep::Save { record, image_uuid: _ } && record.vm_id == id && config
            == Some(record.config) && record.status.state == VmState::Creating
            && record.status.process_id is None && record.config.image_ref@.len() > 0,
{
}

/// How a creation ends is told once, as created with its process, or as crashed
/// with the reason.
pub proof fn creation_ends_created_or_crashed(
    vm_id: Seq<char>,
    image_uuid: Seq<char>,
    image_ref: Seq<char>,
    progress: CreateProgress,
    action: CreateAction,
)
    requires
        worker::create_next(vm_id, image_uuid, image_ref, progress, action),
    ensures
        action is Conclude <==> (progress matches CreateProgress::ImageWaited(Err(_))) || progress
            is HypervisorDone,
        action matches CreateAction::Conclude(w) ==> match progress {
            CreateProgress::HypervisorDone(Ok(pid)) => worker::announces(
                w,
                vm_id,
                VmState::Created,
                "Hypervisor process started and VM configured"@,
                pid,
            ),
            CreateProgress::HypervisorDone(Err(e)) => worker::announces(
                w,
                vm_id,
                VmState::Crashed,
                e.text(),
                None,
            ),
            CreateProgress::ImageWaited(Err(e)) => worker::announces(
                w,
                vm_id,
                VmState::Crashed,
                e.text(),
                None,
            ),
            _ => false,
        },
{
}

/// A virtual machine that crashed or is still being created takes no command of its
/// life, and can still be deleted.
pub proof fn crashed_vm_takes_no_command(
    db: Map<u128, VmRecord>,
    id: u128,
    op: Operation,
    request: VmRequest,
    step: DeleteStep,
)
    requires
        db.dom().contains(id),
        db[id].status.state == VmState::Crashed || db[id].status.state == VmState::Creating,
        handlers::delete_next(
            DeleteProgress::LookedUp { id, request, found: look_up(db, id) },
            step,
        ),
    ensures
        !guards::allowed(op, db[id].status.state),
        step is DeleteRecord,
{
}

/// The commands of a virtual machine's life lead from state to state: one that was
/// started can be paused and shut down but not started again; one that was paused
/// can only be resumed; one that was shut down can only be started; and a
/// resumption undoes a pause.
pub proof fn commands_lead_from_state_to_state(
    vm_id: Seq<char>,
    started: Outcome,
    paused: Outcome,
    resumed: Outcome,
    stopped: Outcome,
    op: Operation,
)
    requires
        worker::follows(
            started,
            vm_id,
            Ok(()),
            VmState::Running,
            "Start command successful"@,
            true,
        ),
        worker::follows(
            paused,
            vm_id,
            Ok(()),
            VmState::Paused,
            "Pause command successful"@,
            false,
        ),
        worker::follows(
            resumed,
            vm_id,
            Ok(()),
            VmState::Running,
            "Resume command successful"@,
            false,
        ),
        worker::follows(
            stopped,
            vm_id,
            Ok(()),
            VmState::Stopped,
            "Shutdown command successful"@,
            false,
        ),
    ensures
        guards::allowed(op, started.event->Some_0.event.data->Some_0.change.new_state) <==> op
            == Operation::Pause || op == Operation::Shutdown || op == Operation::Console,
        guards::allowed(op, paused.event->Some_0.event.data->Some_0.change.new_state) <==> op
            == Operation::Resume,
        guards::allowed(op, stopped.event->Some_0.event.data->Some_0.change.new_state) <==> op
            == Operation::Start,
        resumed.event->Some_0.event.data->Some_0.change.new_state
            == started.event->Some_0.event.data->Some_0.change.new_state,
{
}

/// A command that the hypervisor fails changes no state: nothing is broadcast, and
/// the client is told the hypervisor's error.
pub proof fn failed_command_changes_nothing(
    vm_id: Seq<char>,
    e: VmmError,
    state: VmState,
    reason: Seq<char>,
    monitor: bool,
    o: Outcome,
)
    requires
        worker::follows(o, vm_id, Err(e), state, reason, monitor),
    ensures
        o.event is None,
        !o.monitor,
        o.answer matches Err(s) && s.says(e.code(), e.detail()),
{
}

/// Whether the step after a state was told goes on with those that are left.
pub open spec fn goes_on(steps: Seq<StreamStep>, i: int) -> bool {
    steps[i] matches StreamStep::SendNext { event: _, rest } ==> events::tells_next(
        rest@,
        steps[i + 1],
    )
}

/// A client who asks for the events of all virtual machines is told the present
/// state of each of them, once and in order, before the events go on as they happen.
pub proof fn every_state_is_told_first(records: Seq<VmRecord>, steps: Seq<StreamStep>, k: int)
    requires
        steps.len() == records.len() + 1,
        events::tells_next(records, steps[0]),
        forall|i: int| 0 <= i < records.len() ==> #[trigger] goes_on(steps, i),
        0 <= k <= records.len(),
    ensures
        k < records.len() ==> (steps[k] matches StreamStep::SendNext { event, rest } && rest@
            == records.skip(k + 1) && vmm::tells(
            event,
            ids::hyphenated(records[k].vm_id),
            "vm-service-db"@,
            records[k].status.state,
            "Initial state from DB: "@ + records[k].status.last_msg@,
        )),
        k == records.len() ==> steps[k] == StreamStep::Live(
            StreamVmEventsRequest { vm_id: None },
        ),
    decreases k,
{
    if k > 0 {
        every_state_is_told_first(records, steps, k - 1);
        let left = records.skip(k);
        assert(goes_on(steps, k - 1));
        assert(steps[k - 1] is SendNext);
        if k < records.len() {
            assert(left[0] == records[k]);
            assert(left.drop_first() =~= records.skip(k + 1));
        }
    } else if records.len() > 0 {
        assert(records.drop_first() =~= records.skip(1));
    }
}

/// A deletion takes the record away before anything else is removed, and a virtual
/// machine that has no record is cleaned up all the same: no deletion that names a
/// virtual machine is refused but for a database that fails.
pub proof fn deletion_is_refused_only_by_the_database(
    id: u128,
    request: VmRequest,
    found: Result<Option<VmRecord>, String>,
    step: DeleteStep,
)
    requires
        handlers::delete_next(DeleteProgress::LookedUp { id, request, found }, step),
    ensures
        step is Refuse <==> found is Err,
        step is DeleteRecord <==> (found matches Ok(Some(_))),
        step is CancelMonitor <==> (found matches Ok(None)),
{
}

} // verus!
