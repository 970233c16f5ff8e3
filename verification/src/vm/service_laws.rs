//! What clients of the virtual machine service can rely on: what they are told of a
//! virtual machine, and what becomes of their requests.
use crate::ids;
use crate::image::ImageState;
use crate::rpc::{Code, RpcStatus};
use crate::vm::console::{
    bridge_console_streams, get_attach_message, handle_stream_vm_console, Bridge, BridgeAction,
    BridgeEvent, ConsoleMessage, ConsoleProgress, ConsoleStep,
};
use crate::vm::create::{handle_create_vm_command, CreateProgress, CreateStep, PullOutcome};
use crate::vm::dispatcher::{
    BusMessage, Command, Decoded, EventAction, EventProgress, FirstStep, VmServiceDispatcher,
};
use crate::vm::error::VmServiceError;
use crate::vm::events::{
    handle_stream_vm_events, handle_stream_vm_events_command, BusEvent, LiveStep, StreamProgress,
    StreamStep,
};
use crate::vm::guards::{check_state, Operation};
use crate::vm::handlers::{
    check_and_cleanup_vms, handle_delete_vm_command, handle_get_vm_command,
    handle_list_vms_command, perform_startup_sanity_check, process_to_probe, DeleteProgress,
    DeleteStep, SanityAction,
};
use crate::vm::persistence::{DbVmRow, VmRecord, VmRepository};
use crate::vm::vmm::VmmError;
use crate::vm::worker::{self, DeleteOutcome, Outcome, WatchEvent};
use crate::vm::{
    CreateVmRequest, ListVmsResponse, StreamVmEventsRequest, VmConfig, VmEvent, VmEventWrapper,
    VmInfo, VmRequest, VmState,
};
use vstd::prelude::*;

verus! {

/// Whether an event says that a virtual machine has a state, and why.
pub open spec fn reports(event: VmEvent, vm_id: Seq<char>, state: VmState, reason: Seq<char>) -> bool {
    &&& event.vm_id@ == vm_id
    &&& event.data is Some
    &&& event.data->Some_0.change.new_state == state
    &&& event.data->Some_0.change.reason@ == reason
}

/// A client who asks for the events of one virtual machine is told the state that the
/// database holds, and why it came about, and then the events of that same virtual machine
/// as they happen. One that has no record is not watched.
pub proof fn stored_state_is_told_first(
    vm_id: String,
    id: u128,
    record: VmRecord,
    first: StreamStep,
    then_step: StreamStep,
    missing: StreamStep,
)
    requires
        call_ensures(
            handle_stream_vm_events_command,
            (StreamProgress::LookedUp { vm_id, id, found: Ok(Some(record)) },),
            first,
        ),
        first matches StreamStep::SendOne { event: _, vm_id: v } && call_ensures(
            handle_stream_vm_events_command,
            (StreamProgress::SentOne { vm_id: v, delivered: true },),
            then_step,
        ),
        call_ensures(
            handle_stream_vm_events_command,
            (StreamProgress::LookedUp { vm_id, id, found: Ok(None) },),
            missing,
        ),
    ensures
        first matches StreamStep::SendOne { event, vm_id: _ } && reports(
            event,
            vm_id@,
            record.status.state,
            record.status.last_msg@,
        ) && event.component_id@ == "vm-service-db"@,
        then_step matches StreamStep::Live(request) && (request.vm_id matches Some(v) && v@
            == vm_id@),
        missing matches StreamStep::Fail(status) && status.code == Code::NotFound,
{
}

/// A client who asks for the events of all virtual machines is told of the first record
/// that is left, and then of the others, each with the state that the database holds; once
/// none is left, the events of all go on as they happen.
pub proof fn stored_states_are_told_in_turn(records: Vec<VmRecord>, step: StreamStep)
    requires
        call_ensures(handle_stream_vm_events_command, (StreamProgress::Listed(Ok(records)),), step)
            || call_ensures(
            handle_stream_vm_events_command,
            (StreamProgress::SentNext { rest: records, delivered: true },),
            step,
        ),
    ensures
        records@.len() > 0 ==> (step matches StreamStep::SendNext { event, rest } && rest@
            == records@.subrange(1, records@.len() as int) && reports(
            event,
            ids::hyphenated(records@[0].vm_id),
            records@[0].status.state,
            "Initial state from DB: "@ + records@[0].status.last_msg@,
        )),
        records@.len() == 0 ==> (step matches StreamStep::Live(request) && request.vm_id is None),
{
    if records@.len() > 0 {
        assert(records@.drop_first() =~= records@.subrange(1, records@.len() as int));
    }
}

/// A request for events names one virtual machine, which is then looked up, or none, and
/// then all are read.
pub proof fn requests_for_events_name_one_or_all(req: StreamVmEventsRequest, step: StreamStep)
    requires
        call_ensures(handle_stream_vm_events_command, (StreamProgress::Received(req),), step),
    ensures
        req.vm_id is None <==> step == StreamStep::ListAll,
        step matches StreamStep::LookUp { vm_id, id } ==> req.vm_id == Some(vm_id)
            && ids::reads_as(vm_id@, id),
        req.vm_id matches Some(name) ==> (ids::uuid_parsed(name@) is Ok <==> step is LookUp) && (
        ids::uuid_parsed(name@) is Err <==> (step matches StreamStep::Fail(status) && status.code
            == Code::InvalidArgument)),
{
}

/// A client is told of an event if and only if it watches the virtual machine that the
/// event is about, or all; it is told the event as it is. Missed events do not end the
/// stream, and nothing but the end of all events does.
pub proof fn watchers_are_told_their_events(
    req: &StreamVmEventsRequest,
    w: VmEventWrapper,
    told: LiveStep,
    missed: u64,
    lagged: LiveStep,
    closed: LiveStep,
)
    requires
        call_ensures(handle_stream_vm_events, (req, BusEvent::Event(w)), told),
        call_ensures(handle_stream_vm_events, (req, BusEvent::Lagged(missed)), lagged),
        call_ensures(handle_stream_vm_events, (req, BusEvent::Closed), closed),
    ensures
        req.vm_id is None ==> told == LiveStep::Forward(w.event),
        req.vm_id matches Some(watched) ==> (watched@ == w.event.vm_id@ <==> told
            == LiveStep::Forward(w.event)) && (watched@ != w.event.vm_id@ <==> told
            == LiveStep::Skip),
        lagged == LiveStep::Skip,
        closed == LiveStep::Stop,
{
}

/// What is broadcast of a command that the hypervisor carried out: a start and a resumption
/// leave a virtual machine running, a pause leaves it paused and a shutdown stopped. Only a
/// start has it watched from then on, and the client is told of the success.
pub proof fn carried_out_commands_are_broadcast(
    vm_id: &str,
    started: Outcome,
    stopped: Outcome,
    paused: Outcome,
    resumed: Outcome,
)
    requires
        call_ensures(worker::handle_start_vm, (vm_id, Ok(())), started),
        call_ensures(worker::handle_shutdown_vm, (vm_id, Ok(())), stopped),
        call_ensures(worker::handle_pause_vm, (vm_id, Ok(())), paused),
        call_ensures(worker::handle_resume_vm, (vm_id, Ok(())), resumed),
    ensures
        started.event matches Some(w) && w.event.vm_id@ == vm_id@ && w.process_id is None
            && w.event.data->Some_0.change.new_state == VmState::Running && w.event.data is Some,
        stopped.event matches Some(w) && w.event.vm_id@ == vm_id@ && w.process_id is None
            && w.event.data->Some_0.change.new_state == VmState::Stopped && w.event.data is Some,
        paused.event matches Some(w) && w.event.vm_id@ == vm_id@ && w.process_id is None
            && w.event.data->Some_0.change.new_state == VmState::Paused && w.event.data is Some,
        resumed.event matches Some(w) && w.event.vm_id@ == vm_id@ && w.process_id is None
            && w.event.data->Some_0.change.new_state == VmState::Running && w.event.data is Some,
        started.monitor && !stopped.monitor && !paused.monitor && !resumed.monitor,
        started.answer is Ok && stopped.answer is Ok && paused.answer is Ok && resumed.answer is Ok,
{
}

/// A command that the hypervisor failed is only answered: its state stays, nobody else is
/// told, and the client gets the reason.
pub proof fn failed_commands_are_only_answered(
    vm_id: &str,
    e: VmmError,
    started: Outcome,
    stopped: Outcome,
    paused: Outcome,
    resumed: Outcome,
)
    requires
        call_ensures(worker::handle_start_vm, (vm_id, Err(e)), started),
        call_ensures(worker::handle_shutdown_vm, (vm_id, Err(e)), stopped),
        call_ensures(worker::handle_pause_vm, (vm_id, Err(e)), paused),
        call_ensures(worker::handle_resume_vm, (vm_id, Err(e)), resumed),
    ensures
        started.event is None && stopped.event is None && paused.event is None && resumed.event
            is None,
        !started.monitor && !stopped.monitor && !paused.monitor && !resumed.monitor,
        started.answer is Err && stopped.answer is Err && paused.answer is Err && resumed.answer
            is Err,
        e matches VmmError::VmNotFound(id) ==> started.answer->Err_0.code == Code::NotFound
            && started.answer->Err_0.message@ == id@,
{
}

/// What a client is answered of the hypervisor's errors: what does not exist is not found,
/// a wrong configuration is the client's fault, what could not be reached may be tried
/// again, and all else is the service's own fault. The message is the reason alone.
pub proof fn hypervisor_errors_are_told_apart(e: VmmError, status: RpcStatus)
    requires
        call_ensures(VmmError::into_status, (e,), status),
    ensures
        status.code == Code::NotFound <==> e is VmNotFound,
        status.code == Code::InvalidArgument <==> e is InvalidConfig,
        status.code == Code::Unavailable <==> e is ApiConnectionFailed || e is ImageServiceFailed,
        status.code == Code::Internal <==> e is ProcessSpawnFailed || e is ApiOperationFailed || e
            is Internal,
        e matches VmmError::VmNotFound(m) ==> status.message@ == m@,
        e matches VmmError::InvalidConfig(m) ==> status.message@ == m@,
        e matches VmmError::ApiConnectionFailed(m) ==> status.message@ == m@,
        e matches VmmError::ImageServiceFailed(m) ==> status.message@ == m@,
        e matches VmmError::ProcessSpawnFailed(m) ==> status.message@ == m@,
        e matches VmmError::ApiOperationFailed(m) ==> status.message@ == m@,
        e matches VmmError::Internal(m) ==> status.message@ == m@,
{
}

/// What a client is answered of the service's own errors.
pub proof fn service_errors_are_told_apart(e: VmServiceError, status: RpcStatus)
    requires
        call_ensures(VmServiceError::into_status, (e,), status),
        !(e is Vmm),
        !(e is Persistence),
    ensures
        status.code == Code::Unavailable <==> e is ImageService,
        status.code == Code::InvalidArgument <==> e is InvalidArgument,
        status.code == Code::AlreadyExists <==> e is AlreadyExists,
        status.code == Code::FailedPrecondition <==> e is InvalidState,
        e matches VmServiceError::InvalidState(m) ==> status.message@ == m@,
        e matches VmServiceError::AlreadyExists(m) ==> status.message@ == m@,
        e matches VmServiceError::InvalidArgument(m) ==> status.message@ == m@,
{
}

/// A creation runs from the answer to its end: the client is answered under the name of the
/// virtual machine, its beginning is broadcast, its own image is awaited, and only then the
/// hypervisor is asked. A client who is gone ends it at once.
pub proof fn creation_runs_in_order(
    vm_id: &str,
    image_uuid: &str,
    image_ref: &str,
    accepted: worker::CreateAction,
    lost: worker::CreateAction,
    answered: worker::CreateAction,
    announced: worker::CreateAction,
    ready: worker::CreateAction,
    finished: worker::CreateAction,
)
    requires
        call_ensures(
            worker::handle_create_vm,
            (vm_id, image_uuid, image_ref, worker::CreateProgress::Accepted),
            accepted,
        ),
        call_ensures(
            worker::handle_create_vm,
            (vm_id, image_uuid, image_ref, worker::CreateProgress::Answered(false)),
            lost,
        ),
        call_ensures(
            worker::handle_create_vm,
            (vm_id, image_uuid, image_ref, worker::CreateProgress::Answered(true)),
            answered,
        ),
        call_ensures(
            worker::handle_create_vm,
            (vm_id, image_uuid, image_ref, worker::CreateProgress::Announced),
            announced,
        ),
        call_ensures(
            worker::handle_create_vm,
            (vm_id, image_uuid, image_ref, worker::CreateProgress::ImageWaited(Ok(()))),
            ready,
        ),
        call_ensures(
            worker::handle_create_vm,
            (vm_id, image_uuid, image_ref, worker::CreateProgress::Finished),
            finished,
        ),
    ensures
        accepted matches worker::CreateAction::Answer(response) && response.vm_id@ == vm_id@,
        lost == worker::CreateAction::Done,
        answered matches worker::CreateAction::Announce(w) && w.event.vm_id@ == vm_id@
            && w.process_id is None && w.event.data is Some
            && w.event.data->Some_0.change.new_state == VmState::Creating,
        announced matches worker::CreateAction::WaitForImage { image_uuid: u, image_ref: r } && u@
            == image_uuid@ && r@ == image_ref@,
        ready == worker::CreateAction::CreateInHypervisor,
        finished == worker::CreateAction::Done,
{
}

/// How a creation ended is broadcast: as created, under the process that the hypervisor
/// gave it, or as crashed, for the reason that it failed for.
pub proof fn end_of_a_creation_is_broadcast(
    vm_id: &str,
    image_uuid: &str,
    image_ref: &str,
    pid: Option<i64>,
    created: worker::CreateAction,
    e: VmmError,
    failed: worker::CreateAction,
    no_image: worker::CreateAction,
)
    requires
        call_ensures(
            worker::handle_create_vm,
            (vm_id, image_uuid, image_ref, worker::CreateProgress::HypervisorDone(Ok(pid))),
            created,
        ),
        call_ensures(
            worker::handle_create_vm,
            (vm_id, image_uuid, image_ref, worker::CreateProgress::HypervisorDone(Err(e))),
            failed,
        ),
        call_ensures(
            worker::handle_create_vm,
            (vm_id, image_uuid, image_ref, worker::CreateProgress::ImageWaited(Err(e))),
            no_image,
        ),
    ensures
        created matches worker::CreateAction::Conclude(w) && w.event.vm_id@ == vm_id@
            && w.process_id == pid && w.event.data is Some
            && w.event.data->Some_0.change.new_state == VmState::Created,
        failed matches worker::CreateAction::Conclude(w) && w.process_id is None && reports(
            w.event,
            vm_id@,
            VmState::Crashed,
            e.text(),
        ),
        no_image matches worker::CreateAction::Conclude(w) && w.process_id is None && reports(
            w.event,
            vm_id@,
            VmState::Crashed,
            e.text(),
        ),
{
}

/// An image is waited for until it is ready or cannot come any more: only a ready image
/// ends the wait well, and an image on its way does not end it.
pub proof fn only_a_ready_image_is_used(
    image_uuid: &str,
    image_ref: &str,
    event: WatchEvent,
    r: Option<Result<(), VmmError>>,
)
    requires
        call_ensures(worker::wait_for_image_ready, (image_uuid, image_ref, event), r),
    ensures
        r == Some(Ok::<(), VmmError>(())) <==> (event matches WatchEvent::Status(
            ImageState::Ready,
            _,
        )),
        r is None <==> (event matches WatchEvent::Status(ImageState::Downloading, _)) || (
        event matches WatchEvent::Status(ImageState::Unspecified, _)),
        r matches Some(Err(e)) ==> e is ImageServiceFailed,
{
}

/// A request for a virtual machine becomes its record: the record has the identifier that
/// was asked for and the configuration of the request, is of the image that is being
/// pulled, and begins as being created. The worker gets the same name, configuration and
/// image.
pub proof fn request_becomes_the_record(
    req: CreateVmRequest,
    name: String,
    looked: CreateStep,
    free: CreateStep,
    image: String,
    pulled: CreateStep,
    worked: CreateStep,
)
    requires
        req.vm_id == Some(name),
        call_ensures(handle_create_vm_command, (CreateProgress::Received(req),), looked),
        looked matches CreateStep::LookUp { vm_id, wanted } && call_ensures(
            handle_create_vm_command,
            (CreateProgress::LookedUp { vm_id, wanted, found: Ok(None) },),
            free,
        ),
        free matches CreateStep::Pull { vm_id, config } && call_ensures(
            handle_create_vm_command,
            (CreateProgress::Pulled { vm_id, config, outcome: PullOutcome::Started(image) },),
            pulled,
        ),
        pulled matches CreateStep::Save { record, image_uuid } && call_ensures(
            handle_create_vm_command,
            (CreateProgress::Saved { record, image_uuid, stored: Ok(()) },),
            worked,
        ),
    ensures
        looked matches CreateStep::LookUp { vm_id, wanted } && ids::reads_as(name@, vm_id)
            && vm_id != 0 && wanted == req.config,
        pulled matches CreateStep::Save { record, image_uuid } && ids::reads_as(
            name@,
            record.vm_id,
        ) && ids::reads_as(image@, record.image_uuid) && req.config == Some(record.config)
            && record.config.image_ref@.len() > 0 && record.status.state == VmState::Creating
            && record.status.process_id is None && image_uuid == image,
        worked matches CreateStep::Work { name: n, config, image_uuid } && req.config == Some(
            config,
        ) && image_uuid == image && n@ == ids::hyphenated(pulled->record.vm_id),
{
}

/// A request is refused for the reason that there is: a name that is taken, a name that is
/// none, a configuration without an image, an image service that does not answer, or a
/// database that does not.
pub proof fn refusals_of_a_creation_have_their_reasons(
    vm_id: u128,
    wanted: Option<VmConfig>,
    record: VmRecord,
    taken: CreateStep,
    db: String,
    unread: CreateStep,
    free: CreateStep,
    image: String,
    unsaved: CreateStep,
)
    requires
        call_ensures(
            handle_create_vm_command,
            (CreateProgress::LookedUp { vm_id, wanted, found: Ok(Some(record)) },),
            taken,
        ),
        call_ensures(
            handle_create_vm_command,
            (CreateProgress::LookedUp { vm_id, wanted, found: Err(db) },),
            unread,
        ),
        call_ensures(
            handle_create_vm_command,
            (CreateProgress::LookedUp { vm_id, wanted, found: Ok(None) },),
            free,
        ),
        call_ensures(
            handle_create_vm_command,
            (CreateProgress::Saved { record, image_uuid: image, stored: Err(db) },),
            unsaved,
        ),
    ensures
        taken matches CreateStep::Refuse(s) && s.code == Code::AlreadyExists,
        unread matches CreateStep::Refuse(s) && s.code == Code::Internal,
        unsaved matches CreateStep::Refuse(s) && s.code == Code::Internal,
        free is Pull <==> (wanted matches Some(config) && config.image_ref@.len() > 0),
        free matches CreateStep::Pull { vm_id: v, config } ==> v == vm_id && wanted == Some(config),
        free is Pull || (free matches CreateStep::Refuse(s) && s.code == Code::InvalidArgument),
{
}

/// What is known of a virtual machine is what its record holds.
pub proof fn known_is_what_is_recorded(
    vm_id: u128,
    record: VmRecord,
    got: Result<VmInfo, RpcStatus>,
    missing: Result<VmInfo, RpcStatus>,
    records: Vec<VmRecord>,
    listed: Result<ListVmsResponse, RpcStatus>,
)
    requires
        call_ensures(handle_get_vm_command, (vm_id, Ok(Some(record))), got),
        call_ensures(handle_get_vm_command, (vm_id, Ok(None)), missing),
        call_ensures(handle_list_vms_command, (Ok(records),), listed),
    ensures
        got matches Ok(info) && info.vm_id@ == ids::hyphenated(record.vm_id) && info.state
            == record.status.state && info.config == Some(record.config),
        missing matches Err(s) && s.code == Code::NotFound,
        listed is Ok,
        listed->Ok_0.vms@.len() == records@.len(),
        forall|i: int|
            #![trigger records@[i]]
            0 <= i < records@.len() ==> {
                let info = listed->Ok_0.vms@[i];
                &&& info.vm_id@ == ids::hyphenated(records@[i].vm_id)
                &&& info.state == records@[i].status.state
                &&& info.config == Some(records@[i].config)
            },
{
    assert forall|i: int| 0 <= i < records@.len() implies ({
        let info = listed->Ok_0.vms@[i];
        &&& info.vm_id@ == ids::hyphenated(#[trigger] records@[i].vm_id)
        &&& info.state == records@[i].status.state
        &&& info.config == Some(records@[i].config)
    }) by {
        assert(listed->Ok_0.vms@[i] == listed->Ok_0.vms@[i]);
    }
}

/// A deletion removes what the record names: once the record is gone and the watch over the
/// virtual machine has ended, the worker gets the request, the process and the image of the
/// record, and the image is then removed too.
pub proof fn deletion_removes_what_the_record_names(
    id: u128,
    request: VmRequest,
    record: VmRecord,
    found: DeleteStep,
    removed: DeleteStep,
    cancelled: DeleteStep,
    outcome: DeleteOutcome,
)
    requires
        call_ensures(
            handle_delete_vm_command,
            (DeleteProgress::LookedUp { id, request, found: Ok(Some(record)) },),
            found,
        ),
        found matches DeleteStep::DeleteRecord { id: i, request: r, image_uuid, process_id }
            && call_ensures(
            handle_delete_vm_command,
            (
                DeleteProgress::RecordDeleted {
                    id: i,
                    request: r,
                    image_uuid,
                    process_id,
                    removed: Ok(()),
                },
            ),
            removed,
        ),
        removed matches DeleteStep::CancelMonitor { id: _, request: r, image_uuid, process_id }
            && call_ensures(
            handle_delete_vm_command,
            (DeleteProgress::Cancelled { request: r, image_uuid, process_id },),
            cancelled,
        ),
        cancelled matches DeleteStep::Work { request: _, image_uuid, process_id: _ }
            && call_ensures(worker::handle_delete_vm, (image_uuid, Ok(())), outcome),
    ensures
        found matches DeleteStep::DeleteRecord { id: i, request: r, .. } && i == id && r == request,
        removed matches DeleteStep::CancelMonitor { id: i, .. } && i == id,
        cancelled matches DeleteStep::Work { request: r, image_uuid, process_id } && r == request
            && image_uuid@ == ids::hyphenated(record.image_uuid) && process_id
            == record.status.process_id,
        outcome.delete_image matches Some(image) && image@ == ids::hyphenated(record.image_uuid),
        outcome.answer is Ok,
{
}

/// A virtual machine of which nothing is known has no image and no process to remove.
pub proof fn unknown_machines_have_nothing_to_remove(
    id: u128,
    request: VmRequest,
    found: DeleteStep,
    result: Result<(), VmmError>,
    outcome: DeleteOutcome,
)
    requires
        call_ensures(
            handle_delete_vm_command,
            (DeleteProgress::LookedUp { id, request, found: Ok(None) },),
            found,
        ),
        found matches DeleteStep::CancelMonitor { id: _, request: _, image_uuid, process_id: _ }
            && call_ensures(worker::handle_delete_vm, (image_uuid, result), outcome),
    ensures
        found matches DeleteStep::CancelMonitor { id: i, request: r, image_uuid: _, process_id }
            && i == id && r == request && process_id is None,
        outcome.delete_image is None,
        outcome.answer is Ok <==> result is Ok,
{
}

/// The virtual machines of an earlier run are taken up: all that could be read are looked
/// at; one whose process still runs is watched again, one whose process is gone is deleted,
/// and one that never had a process is left alone.
pub proof fn earlier_machines_are_taken_up(
    records: Vec<VmRecord>,
    checked: Vec<VmRecord>,
    record: &VmRecord,
    probed: Option<i32>,
    exists_now: bool,
    action: SanityAction,
)
    requires
        call_ensures(perform_startup_sanity_check, (Ok(records),), checked),
        call_ensures(process_to_probe, (record,), probed),
        call_ensures(check_and_cleanup_vms, (record, exists_now), action),
    ensures
        checked@ == records@,
        probed is Some <==> record.status.process_id is Some,
        record.status.process_id matches Some(pid) ==> (i32::MIN <= pid <= i32::MAX ==> probed
            == Some(pid as i32)),
        action == SanityAction::Leave <==> record.status.process_id is None,
        action is Monitor <==> record.status.process_id is Some && exists_now,
        action is Delete <==> record.status.process_id is Some && !exists_now,
        action matches SanityAction::Monitor { vm_id } ==> vm_id@ == ids::hyphenated(record.vm_id),
        action matches SanityAction::Delete(request) ==> ids::reads_as(
            request.vm_id@,
            record.vm_id,
        ),
{
}

/// In each state a virtual machine takes exactly these commands: one that was created or
/// stopped can be started; one that runs can be paused, shut down and looked at; one that
/// is paused can be resumed. In any other state it takes none.
pub proof fn each_state_takes_its_commands(
    op: Operation,
    state: VmState,
    r: Result<(), VmServiceError>,
)
    requires
        call_ensures(check_state, (op, state), r),
    ensures
        state == VmState::Created || state == VmState::Stopped ==> (r is Ok <==> op
            == Operation::Start),
        state == VmState::Running ==> (r is Ok <==> op == Operation::Pause || op
            == Operation::Shutdown || op == Operation::Console),
        state == VmState::Paused ==> (r is Ok <==> op == Operation::Resume),
        state == VmState::Creating || state == VmState::Crashed || state == VmState::Unspecified
            ==> r is Err,
        r matches Err(e) ==> e is InvalidState,
{
}

/// Each command is taken for what it is: a command of a virtual machine's life is checked as
/// that command against the virtual machine that the request names, and the others go their
/// own ways.
pub proof fn each_command_goes_its_way(req: VmRequest, id: u128, op: Operation, step: FirstStep)
    requires
        ids::reads_as(req.vm_id@, id),
        call_ensures(
            VmServiceDispatcher::run,
            (
                match op {
                    Operation::Start => Command::StartVm(req),
                    Operation::Shutdown => Command::ShutdownVm(req),
                    Operation::Pause => Command::PauseVm(req),
                    Operation::Resume => Command::ResumeVm(req),
                    Operation::Console => Command::PingVm(req),
                },
            ),
            step,
        ),
    ensures
        op != Operation::Console ==> (step matches FirstStep::Check { id: i, op: o, request } && i
            == id && o == op && request == req),
        op == Operation::Console ==> step == FirstStep::Ping(req),
{
}

/// Requests for what is known, for deletions and for network devices reach the virtual
/// machine that they name.
pub proof fn other_commands_reach_their_machine(
    req: VmRequest,
    id: u128,
    got: FirstStep,
    deleted: FirstStep,
    nic: crate::vm::AttachNicRequest,
    attached: FirstStep,
    off: crate::vm::RemoveNicRequest,
    removed: FirstStep,
    listed: FirstStep,
    watched: FirstStep,
)
    requires
        ids::reads_as(req.vm_id@, id),
        call_ensures(VmServiceDispatcher::run, (Command::GetVm(req),), got),
        call_ensures(VmServiceDispatcher::run, (Command::DeleteVm(req),), deleted),
        call_ensures(VmServiceDispatcher::run, (Command::AttachNic(nic),), attached),
        call_ensures(VmServiceDispatcher::run, (Command::RemoveNic(off),), removed),
        call_ensures(VmServiceDispatcher::run, (Command::ListVms,), listed),
        call_ensures(VmServiceDispatcher::run, (Command::StreamVmConsole,), watched),
    ensures
        got matches FirstStep::Get { id: i } && i == id,
        deleted matches FirstStep::Delete(DeleteStep::LookUp { id: i, request }) && i == id
            && request == req,
        attached == FirstStep::AttachNic(nic),
        removed == FirstStep::RemoveNic(off),
        listed == FirstStep::ListAll,
        watched == FirstStep::Console,
{
}

/// A command goes on if and only if there is a record and its state allows the command.
pub proof fn commands_need_a_record_that_allows_them(
    id: u128,
    op: Operation,
    record: VmRecord,
    found: Result<(), RpcStatus>,
    allowed: Result<(), VmServiceError>,
    missing: Result<(), RpcStatus>,
)
    requires
        call_ensures(VmServiceDispatcher::state_checked, (id, op, Ok(Some(record))), found),
        call_ensures(check_state, (op, record.status.state), allowed),
        call_ensures(VmServiceDispatcher::state_checked, (id, op, Ok(None)), missing),
    ensures
        found is Ok <==> allowed is Ok,
        found matches Err(s) ==> s.code == Code::FailedPrecondition,
        missing matches Err(s) && s.code == Code::NotFound,
{
}

/// An event changes a record only by the process that it names and by the change that it
/// carries; one that carries no change that can be read changes no state.
pub proof fn events_store_what_they_carry(
    id: u128,
    msg: &BusMessage,
    first: EventAction,
    second: EventAction,
    kept: EventAction,
    lost: EventAction,
)
    requires
        call_ensures(VmServiceDispatcher::handle_event_of, (id, msg, EventProgress::Received), first),
        call_ensures(
            VmServiceDispatcher::handle_event_of,
            (id, msg, EventProgress::PidStored),
            second,
        ),
        call_ensures(
            VmServiceDispatcher::handle_event_of,
            (id, msg, EventProgress::StatusStored(Ok(true))),
            kept,
        ),
        call_ensures(
            VmServiceDispatcher::handle_event_of,
            (id, msg, EventProgress::StatusStored(Ok(false))),
            lost,
        ),
    ensures
        msg.process_id matches Some(pid) ==> first == (EventAction::StorePid { id, pid }),
        msg.process_id is None ==> !(first is StorePid),
        !(second is StorePid),
        second is StoreStatus ==> (msg.data matches Some((_, Decoded::Change(_)))),
        second matches EventAction::StoreStatus { id: i, state, reason } ==> i == id && (
        msg.data->Some_0.1 matches Decoded::Change(change) && change.new_state == state
            && change.reason@ == reason@),
        kept == EventAction::Forward,
        lost == EventAction::Drop,
{
}

/// Every record is read back from the database as it was stored, alone and among others,
/// and in the same order.
pub proof fn stored_records_are_read_back(
    record: VmRecord,
    row: DbVmRow,
    got: Result<Option<VmRecord>, String>,
    records: Seq<VmRecord>,
    rows: Vec<(DbVmRow, Result<VmConfig, String>)>,
    listed: Result<Vec<VmRecord>, String>,
)
    requires
        call_ensures(VmRepository::save_vm, (&record,), row),
        call_ensures(VmRepository::get_vm, (Some((row, Ok(record.config))),), got),
        rows@.len() == records.len(),
        forall|i: int|
            #![trigger rows@[i]]
            0 <= i < rows@.len() ==> call_ensures(
                VmRepository::save_vm,
                (&records[i],),
                rows@[i].0,
            ) && rows@[i].1 == Ok::<VmConfig, String>(records[i].config),
        call_ensures(VmRepository::list_all_vms, (rows,), listed),
    ensures
        got matches Ok(Some(r)) && r == record,
        listed matches Ok(list) && list@ =~= records,
{
    crate::vm::persistence::written_state_reads_back(record.status.state);
    assert forall|i: int| 0 <= i < rows@.len() implies crate::vm::persistence::row_readable(
        (#[trigger] rows@[i]).0,
        rows@[i].1,
    ) && crate::vm::persistence::row_record(rows@[i].0, rows@[i].1->Ok_0) == records[i] by {
        crate::vm::persistence::written_state_reads_back(records[i].status.state);
    }
    match listed {
        Ok(list) => {
            assert forall|i: int| 0 <= i < records.len() implies list@[i] == records[i] by {
                assert(rows@[i] == rows@[i]);
            }
        },
        Err(e) => {
            let k = choose|k: int|
                0 <= k < rows@.len() && crate::vm::persistence::row_spoils(
                    (#[trigger] rows@[k]).0,
                    rows@[k].1,
                    e,
                );
            assert(crate::vm::persistence::row_readable(rows@[k].0, rows@[k].1));
        },
    }
}

/// No record is found where there is no row, and none where the configuration of the row
/// cannot be read.
pub proof fn missing_rows_are_no_records(
    none: Result<Option<VmRecord>, String>,
    row: DbVmRow,
    e: String,
    broken: Result<Option<VmRecord>, String>,
)
    requires
        call_ensures(VmRepository::get_vm, (None,), none),
        call_ensures(VmRepository::get_vm, (Some((row, Err(e))),), broken),
    ensures
        none == Ok::<Option<VmRecord>, String>(None),
        broken is Err,
{
}

/// A console begins with the name of a virtual machine, and with nothing else; what is then
/// bridged is the socket that was found for it.
pub proof fn console_begins_with_a_name(
    first: Option<Result<ConsoleMessage, RpcStatus>>,
    named: Result<String, RpcStatus>,
    opened: ConsoleStep,
    path: String,
    located: ConsoleStep,
    e: VmmError,
    lost: ConsoleStep,
)
    requires
        call_ensures(get_attach_message, (first,), named),
        call_ensures(handle_stream_vm_console, (ConsoleProgress::Opened(first),), opened),
        call_ensures(handle_stream_vm_console, (ConsoleProgress::Located(Ok(path)),), located),
        call_ensures(handle_stream_vm_console, (ConsoleProgress::Located(Err(e)),), lost),
    ensures
        named is Ok <==> (first matches Some(Ok(ConsoleMessage::Attach { .. }))),
        first matches Some(Ok(ConsoleMessage::Attach { vm_id })) ==> named == Ok::<
            String,
            RpcStatus,
        >(vm_id) && opened == (ConsoleStep::Locate { vm_id }),
        opened is Locate <==> named is Ok,
        opened is Locate || opened is Fail,
        located == (ConsoleStep::Bridge { socket_path: path }),
        lost is Fail,
{
}

/// What ends the directions of a bridge: what the client types passes until it stops
/// sending, sends what is no input, or the console takes nothing more; what the console
/// writes passes until it is closed or cannot be read, or the client is gone. Everything
/// else leaves the bridge as it is, and bytes are handed on as they are.
pub proof fn bridge_ends_as_its_sides_do(
    bridge: &mut Bridge,
    path: &str,
    event: BridgeEvent,
    action: BridgeAction,
)
    requires
        call_ensures(bridge_console_streams, (bridge, path, event), action),
    ensures
        (event is ClientEnded || event is ClientFailed || event == BridgeEvent::ConsoleWritten(
            false,
        )) ==> !final(bridge).to_console && final(bridge).to_client == old(bridge).to_client,
        (event matches BridgeEvent::ClientSent(ConsoleMessage::Attach { .. })) || (
        event matches BridgeEvent::ClientSent(ConsoleMessage::Empty)) ==> !final(bridge).to_console
            && final(bridge).to_client == old(bridge).to_client && (old(bridge).to_console ==> (
        action matches BridgeAction::Fail(s) && s.code == Code::InvalidArgument)),
        event is ClientGone ==> !final(bridge).to_client && final(bridge).to_console == old(bridge).to_console,
        event matches BridgeEvent::ConsoleFailed(_) ==> !final(bridge).to_client && final(bridge).to_console
            == old(bridge).to_console && (old(bridge).to_client ==> (action matches BridgeAction::Fail(s)
            && s.code == Code::Internal)),
        event matches BridgeEvent::ConsoleRead(bytes) ==> {
            &&& final(bridge).to_console == old(bridge).to_console
            &&& bytes@.len() == 0 ==> !final(bridge).to_client
            &&& bytes@.len() > 0 ==> final(bridge).to_client == old(bridge).to_client
            &&& bytes@.len() > 0 && old(bridge).to_client ==> (action matches BridgeAction::ToClient(
                handed,
            ) && handed@ == bytes@)
        },
        event matches BridgeEvent::ClientSent(ConsoleMessage::Data(bytes)) ==> *final(bridge) == *old(bridge) && (
        old(bridge).to_console ==> (action matches BridgeAction::ToConsole(handed) && handed@
            == bytes@)),
        event == BridgeEvent::ConsoleWritten(true) ==> *final(bridge) == *old(bridge),
        event is NotConnected ==> !final(bridge).to_client && !final(bridge).to_console && (old(bridge).to_client
            || old(bridge).to_console ==> (action matches BridgeAction::Fail(s) && s.code
            == Code::Unavailable)),
        action is Wait || action is Close || action is ToClient || action is ToConsole || action is Fail,
        action is Fail ==> old(bridge).to_client || old(bridge).to_console,
        action == BridgeAction::Wait ==> final(bridge).to_client || final(bridge).to_console,
        action == BridgeAction::Close ==> !final(bridge).to_client && !final(bridge).to_console,
        action is ToClient ==> old(bridge).to_client && event is ConsoleRead,
        action is ToConsole ==> old(bridge).to_console && event is ClientSent,
{
}

/// A bridge begins open in both directions.
pub proof fn bridge_begins_open(bridge: Bridge)
    requires
        call_ensures(Bridge::new, (), bridge),
    ensures
        bridge.to_client && bridge.to_console,
{
}

} // verus!
