//! What clients of the virtual machine service are told when something goes wrong, word by word.
use crate::ids;
use crate::image::ImageState;
use crate::rpc::{Code, RpcStatus};
use crate::vm::ch_adapter::{
    convert_net_config_to_ch, ApiReply, CloudHypervisorAdapter, CreationProgress,
    CreationStep, HealthAction, HealthEvent, NicStep, ProcessOutcome, VmDirs,
};
use crate::vm::console::{
    bridge_console_streams, get_attach_message, Bridge, BridgeAction, BridgeEvent, ConsoleMessage,
};
use crate::vm::create::{
    accept_vm_id, begin_record, handle_create_vm_command, CreateProgress, CreateStep,
};
use crate::vm::dispatcher::VmServiceDispatcher;
use crate::vm::error::VmServiceError;
use crate::vm::events::{handle_stream_vm_events_command, StreamProgress, StreamStep};
use crate::vm::guards::{check_state, Operation};
use crate::vm::handlers::{
    handle_delete_vm_command, handle_get_vm_command, handle_list_vms_command, DeleteProgress,
    DeleteStep,
};
use crate::vm::persistence::{
    string_to_vm_state, DatabaseError, DbVmRow, PersistenceError, VmRecord, VmRepository,
};
use crate::vm::vmm::VmmError;
use crate::vm::worker::{self, handle_create_vm, wait_for_image_ready, CreateAction, WatchEvent};
use crate::vm::{
    AttachNicRequest, CreateVmRequest, ListVmsResponse, NetConfig, RemoveNicRequest, VmConfig,
    VmInfo, VmRequest, VmState,
};
use vstd::prelude::*;

verus! {

/// Whether a status has this code and reads so.
pub open spec fn reads(s: RpcStatus, code: Code, message: Seq<char>) -> bool {
    s.code == code && s.message@ == message
}

/// What the errors of the hypervisor read as: each begins with what failed and ends with why.
pub proof fn hypervisor_errors_say_what_failed(e: VmmError, m: String)
    requires
        call_ensures(VmmError::message, (&e,), m),
    ensures
        e matches VmmError::ProcessSpawnFailed(why) ==> m@
            == "Hypervisor process failed to start: "@ + why@,
        e matches VmmError::InvalidConfig(why) ==> m@
            == "The provided configuration is invalid for this hypervisor: "@ + why@,
        e matches VmmError::ApiConnectionFailed(why) ==> m@
            == "Could not connect to the hypervisor's API socket: "@ + why@,
        e matches VmmError::ApiOperationFailed(why) ==> m@
            == "The hypervisor's API returned an error: "@ + why@,
        e matches VmmError::VmNotFound(id) ==> m@ == "The requested VM (id: "@ + id@
            + ") could not be found"@,
        e matches VmmError::ImageServiceFailed(why) ==> m@
            == "The image service returned an error: "@ + why@,
        e matches VmmError::Internal(why) ==> m@ == "An internal or unexpected error occurred: "@
            + why@,
{
}

/// What the errors of the service and of its database read as, and what a client is answered of
/// those of the database.
pub proof fn service_errors_say_what_failed(
    e: VmServiceError,
    m: String,
    inner: VmmError,
    told: String,
    p: PersistenceError,
    stored: String,
    status: RpcStatus,
)
    requires
        call_ensures(VmServiceError::message, (&e,), m),
        call_ensures(VmmError::message, (&inner,), told),
        call_ensures(PersistenceError::message, (&p,), stored),
        call_ensures(VmServiceError::into_status, (VmServiceError::Persistence(p),), status),
    ensures
        e == VmServiceError::Vmm(inner) ==> m@ == "VMM Error: "@ + told@,
        e == VmServiceError::Persistence(p) ==> m@ == "Persistence Error: "@ + stored@,
        e matches VmServiceError::ImageService(why) ==> m@ == "Image Service Error: "@ + why@,
        e matches VmServiceError::InvalidArgument(why) ==> m@ == "Invalid argument: "@ + why@,
        e matches VmServiceError::AlreadyExists(id) ==> m@ == "VM with ID "@ + id@
            + " already exists"@,
        e matches VmServiceError::InvalidState(why) ==> m@ == "Invalid VM state for operation: "@
            + why@,
        p is Database ==> stored@ == "A database error occurred"@,
        p is Migration ==> stored@ == "Database migration failed"@,
        p is Decode ==> stored@ == "Failed to decode VmConfig blob"@,
        p is Encode ==> stored@ == "Failed to encode VmConfig blob"@,
        p matches PersistenceError::InvalidStateString(s) ==> stored@ == "Invalid state string '"@
            + s@ + "' in database"@,
        p == PersistenceError::Database(DatabaseError::RowNotFound) ==> status.message@
            == "Record not found in database"@,
        p != PersistenceError::Database(DatabaseError::RowNotFound) ==> status.message@
            == "A database error occurred"@,
{
}

/// A command that the state of a virtual machine does not allow is refused by the name of the
/// command and of the state.
pub proof fn refusals_name_command_and_state(
    op: Operation,
    state: VmState,
    name: &'static str,
    e: VmServiceError,
)
    requires
        call_ensures(VmState::name, (state,), name),
        call_ensures(check_state, (op, state), Err(e)),
    ensures
        e matches VmServiceError::InvalidState(m) && (op is Start ==> m@
            == "Cannot start VM in state "@ + name@) && (op is Shutdown ==> m@
            == "Cannot shut down VM in state "@ + name@) && (op is Pause ==> m@
            == "Cannot pause VM in state "@ + name@) && (op is Resume ==> m@
            == "Cannot resume VM in state "@ + name@) && (op is Console ==> m@
            == "Cannot open console of VM in state "@ + name@),
{
}

/// A virtual machine without a record is told to be missing by its name, and a database that fails
/// is told as that, whatever was asked for.
pub proof fn missing_machines_are_told_by_name(
    id: u128,
    why: String,
    vm_id: String,
    op: Operation,
    got: Result<VmInfo, RpcStatus>,
    unread: Result<VmInfo, RpcStatus>,
    checked: Result<(), RpcStatus>,
    unchecked: Result<(), RpcStatus>,
    streamed: StreamStep,
    unstreamed: StreamStep,
    listed: StreamStep,
    list: Result<ListVmsResponse, RpcStatus>,
)
    requires
        call_ensures(handle_get_vm_command, (id, Ok(None)), got),
        call_ensures(handle_get_vm_command, (id, Err(why)), unread),
        call_ensures(VmServiceDispatcher::state_checked, (id, op, Ok(None)), checked),
        call_ensures(VmServiceDispatcher::state_checked, (id, op, Err(why)), unchecked),
        call_ensures(
            handle_stream_vm_events_command,
            (StreamProgress::LookedUp { vm_id, id, found: Ok(None) },),
            streamed,
        ),
        call_ensures(
            handle_stream_vm_events_command,
            (StreamProgress::LookedUp { vm_id, id, found: Err(why) },),
            unstreamed,
        ),
        call_ensures(
            handle_stream_vm_events_command,
            (StreamProgress::Listed(Err(why)),),
            listed,
        ),
        call_ensures(handle_list_vms_command, (Err(why),), list),
    ensures
        ({
            let missing = "VM with ID "@ + ids::hyphenated(id) + " not found"@;
            &&& got matches Err(s) && reads(s, Code::NotFound, missing)
            &&& checked matches Err(s) && reads(s, Code::NotFound, missing)
            &&& streamed matches StreamStep::Fail(s) && reads(s, Code::NotFound, missing)
        }),
        unread matches Err(s) && reads(s, Code::Internal, "Failed to retrieve VM information."@),
        unchecked matches Err(s) && reads(s, Code::Internal, "Failed to retrieve VM information."@),
        unstreamed matches StreamStep::Fail(s) && reads(
            s,
            Code::Internal,
            "Failed to retrieve VM information for event stream."@,
        ),
        listed matches StreamStep::Fail(s) && reads(
            s,
            Code::Internal,
            "Failed to retrieve initial VM list for event stream."@,
        ),
        list matches Err(s) && reads(s, Code::Internal, "Failed to retrieve VM list."@),
{
}

/// A creation that is refused is told why: a name that is taken, that is none or that is the one of
/// nothing, no image, or a database that fails.
pub proof fn refused_creations_are_told_why(
    vm_id: u128,
    wanted: Option<VmConfig>,
    record: VmRecord,
    why: String,
    taken: CreateStep,
    unchecked: CreateStep,
    bare: CreateStep,
    config: VmConfig,
    image: String,
    unnamed: CreateStep,
    unsaved: CreateStep,
    nil: Result<u128, RpcStatus>,
    none: Result<u128, RpcStatus>,
)
    requires
        call_ensures(
            handle_create_vm_command,
            (CreateProgress::LookedUp { vm_id, wanted, found: Ok(Some(record)) },),
            taken,
        ),
        call_ensures(
            handle_create_vm_command,
            (CreateProgress::LookedUp { vm_id, wanted, found: Err(why) },),
            unchecked,
        ),
        call_ensures(
            handle_create_vm_command,
            (CreateProgress::LookedUp { vm_id, wanted: None, found: Ok(None) },),
            bare,
        ),
        call_ensures(begin_record, (vm_id, config, image, Err(why)), unnamed),
        call_ensures(
            handle_create_vm_command,
            (CreateProgress::Saved { record, image_uuid: image, stored: Err(why) },),
            unsaved,
        ),
        call_ensures(accept_vm_id, (Ok(0),), nil),
        call_ensures(accept_vm_id, (Err(why),), none),
    ensures
        taken matches CreateStep::Refuse(s) && reads(
            s,
            Code::AlreadyExists,
            "VM with ID "@ + ids::hyphenated(vm_id) + " already exists."@,
        ),
        unchecked matches CreateStep::Refuse(s) && reads(
            s,
            Code::Internal,
            "Failed to check DB for existing VM: "@ + why@,
        ),
        bare matches CreateStep::Refuse(s) && reads(
            s,
            Code::InvalidArgument,
            "VmConfig with a non-empty image_ref is required"@,
        ),
        unnamed matches CreateStep::Refuse(s) && reads(
            s,
            Code::Internal,
            "Failed to parse image UUID: "@ + why@,
        ),
        unsaved matches CreateStep::Refuse(s) && reads(
            s,
            Code::Internal,
            "Failed to save VM to database: "@ + why@,
        ),
        nil matches Err(s) && reads(
            s,
            Code::InvalidArgument,
            "Provided vm_id cannot be the nil UUID."@,
        ),
        none matches Err(s) && reads(
            s,
            Code::InvalidArgument,
            "Provided vm_id is not a valid UUID format."@,
        ),
{
}

/// A deletion that fails in the database is told at which step.
pub proof fn failed_deletions_are_told(
    id: u128,
    request: VmRequest,
    why: String,
    image_uuid: String,
    process_id: Option<i64>,
    unread: DeleteStep,
    unremoved: DeleteStep,
)
    requires
        call_ensures(
            handle_delete_vm_command,
            (DeleteProgress::LookedUp { id, request, found: Err(why) },),
            unread,
        ),
        call_ensures(
            handle_delete_vm_command,
            (
                DeleteProgress::RecordDeleted {
                    id,
                    request,
                    image_uuid,
                    process_id,
                    removed: Err(why),
                },
            ),
            unremoved,
        ),
    ensures
        unread matches DeleteStep::Refuse(s) && reads(
            s,
            Code::Internal,
            "Failed to retrieve VM for deletion."@,
        ),
        unremoved matches DeleteStep::Refuse(s) && reads(
            s,
            Code::Internal,
            "Failed to delete VM from database."@,
        ),
{
}

/// A wait for an image that fails says at which step, for which image and why.
pub proof fn failed_waits_name_the_image(
    image_uuid: &str,
    image_ref: &str,
    event: WatchEvent,
    r: Option<Result<(), VmmError>>,
)
    requires
        call_ensures(wait_for_image_ready, (image_uuid, image_ref, event), r),
    ensures
        event matches WatchEvent::NotConnected(why) ==> (r matches Some(
            Err(VmmError::ImageServiceFailed(m)),
        ) && m@ == "Failed to connect to ImageService: "@ + why@),
        event matches WatchEvent::NotWatched(why) ==> (r matches Some(
            Err(VmmError::ImageServiceFailed(m)),
        ) && m@ == "WatchImageStatus RPC failed for "@ + image_uuid@ + ": "@ + why@),
        event matches WatchEvent::Broken(why) ==> (r matches Some(
            Err(VmmError::ImageServiceFailed(m)),
        ) && m@ == "Image stream error for "@ + image_uuid@ + ": "@ + why@),
        event matches WatchEvent::Status(ImageState::PullFailed, why) ==> (r matches Some(
            Err(VmmError::ImageServiceFailed(m)),
        ) && m@ == "Image pull failed for "@ + image_ref@ + " (uuid: "@ + image_uuid@ + "): "@
            + why@),
        event is Ended ==> (r matches Some(Err(VmmError::ImageServiceFailed(m))) && m@
            == "Image watch stream for "@ + image_uuid@
            + " ended before reaching a terminal state."@),
{
}

/// A creation that begins is broadcast as that by the service, and so is how it ended; a crash that
/// the monitor finds is broadcast by the monitor, with what failed.
pub proof fn broadcasts_name_who_sends_them(
    vm_id: &str,
    image_uuid: &str,
    image_ref: &str,
    begun: CreateAction,
    pid: Option<i64>,
    ended: CreateAction,
    id: u128,
    e: VmmError,
    m: String,
    report: HealthAction,
)
    requires
        call_ensures(
            handle_create_vm,
            (vm_id, image_uuid, image_ref, worker::CreateProgress::Answered(true)),
            begun,
        ),
        call_ensures(
            handle_create_vm,
            (vm_id, image_uuid, image_ref, worker::CreateProgress::HypervisorDone(Ok(pid))),
            ended,
        ),
        call_ensures(VmmError::message, (&e,), m),
        call_ensures(
            CloudHypervisorAdapter::healthcheck_vm,
            (vm_id, id, HealthEvent::Pinged(Err(e))),
            report,
        ),
    ensures
        begun matches CreateAction::Announce(w) && w.event.component_id@ == "vm-service"@
            && w.event.data->Some_0.change.reason@ == "VM creation process started"@
            && w.event.data->Some_0.change.new_state == VmState::Creating,
        ended matches CreateAction::Conclude(w) && w.event.component_id@ == "vm-service"@
            && w.event.data->Some_0.change.reason@
            == "Hypervisor process started and VM configured"@,
        report matches HealthAction::Report(w) && w.event.component_id@ == "vm-health-monitor"@
            && w.event.data->Some_0.change.reason@ == "Healthcheck failed: "@ + m@
            && w.event.data->Some_0.change.new_state == VmState::Crashed,
{
}

/// What a creation in the hypervisor that fails says.
pub proof fn failed_hypervisors_say_why(
    vm_id: &str,
    image_uuid: &str,
    dirs: &VmDirs,
    config: VmConfig,
    why: String,
    late: CreationStep,
    unmade: CreationStep,
    unconfigured: CreationStep,
    exited: (Result<Option<i64>, VmmError>, bool),
    unawaited: (Result<Option<i64>, VmmError>, bool),
    unstarted: (Result<Option<i64>, VmmError>, bool),
)
    requires
        call_ensures(
            CloudHypervisorAdapter::perform_vm_creation,
            (
                vm_id,
                image_uuid,
                dirs,
                CreationProgress::SocketWaited { config, appeared: false },
            ),
            late,
        ),
        call_ensures(
            CloudHypervisorAdapter::perform_vm_creation,
            (
                vm_id,
                image_uuid,
                dirs,
                CreationProgress::ConsoleDirMade { config, made: Err(why) },
            ),
            unmade,
        ),
        call_ensures(
            CloudHypervisorAdapter::perform_vm_creation,
            (vm_id, image_uuid, dirs, CreationProgress::Configured(Err(why))),
            unconfigured,
        ),
        call_ensures(CloudHypervisorAdapter::create_vm, (ProcessOutcome::Exited(why),), exited),
        call_ensures(
            CloudHypervisorAdapter::create_vm,
            (ProcessOutcome::NotAwaited(why),),
            unawaited,
        ),
        call_ensures(
            CloudHypervisorAdapter::create_vm,
            (ProcessOutcome::NotStarted(why),),
            unstarted,
        ),
    ensures
        late matches CreationStep::Finish(Err(VmmError::ApiConnectionFailed(m))) && m@
            == "Timed out waiting for API socket"@,
        unmade matches CreationStep::Finish(Err(VmmError::Internal(m))) && m@
            == "Failed to create console dir: "@ + why@,
        unconfigured matches CreationStep::Finish(Err(VmmError::ApiOperationFailed(m))) && m@
            == "vm.create API call failed: "@ + why@,
        exited.0 matches Err(VmmError::ProcessSpawnFailed(m)) && m@
            == "Process exited prematurely with status: "@ + why@,
        unawaited.0 matches Err(VmmError::ProcessSpawnFailed(m)) && m@
            == "Failed to wait for child process: "@ + why@,
        unstarted.0 matches Err(VmmError::ProcessSpawnFailed(m)) && m@ == why@,
        !exited.1 && !unawaited.1 && !unstarted.1,
{
}

/// What a device that cannot be dealt with is told.
pub proof fn refused_devices_are_told_why(
    nic: &NetConfig,
    e: VmmError,
    vm_id: String,
    bare: NicStep,
    gone: NicStep,
    req: AttachNicRequest,
    removal: &RemoveNicRequest,
    why: String,
    unremoved: Result<(), VmmError>,
    attached: Result<(), VmmError>,
    removed: Result<(), VmmError>,
    creation: CreateVmRequest,
    required: Result<VmConfig, VmmError>,
)
    requires
        nic.backend is None,
        call_ensures(convert_net_config_to_ch, (nic,), Err(e)),
        req.nic is None,
        call_ensures(CloudHypervisorAdapter::attach_nic, (req, true), bare),
        call_ensures(CloudHypervisorAdapter::attach_nic, (req, false), gone),
        call_ensures(
            CloudHypervisorAdapter::remove_nic,
            (removal, ApiReply::Failed(why)),
            unremoved,
        ),
        call_ensures(CloudHypervisorAdapter::attach_disk, (), attached),
        call_ensures(CloudHypervisorAdapter::remove_disk, (), removed),
        creation.config is None,
        call_ensures(CloudHypervisorAdapter::required_config, (creation,), required),
    ensures
        e matches VmmError::InvalidConfig(m) && m@
            == "NetConfig backend (tap or vfio_pci) is required"@,
        bare matches NicStep::Fail(VmmError::InvalidConfig(m)) && m@ == "NetConfig is required"@,
        gone matches NicStep::Fail(VmmError::VmNotFound(m)) && m@ == req.vm_id@,
        unremoved matches Err(VmmError::ApiOperationFailed(m)) && m@ == "vm.remove-device failed: "@
            + why@,
        attached matches Err(VmmError::Internal(m)) && m@
            == "AttachDisk not implemented for CloudHypervisorAdapter"@,
        removed matches Err(VmmError::Internal(m)) && m@
            == "RemoveDisk not implemented for CloudHypervisorAdapter"@,
        required matches Err(VmmError::InvalidConfig(m)) && m@ == "VmConfig is required"@,
{
}

/// What a client of a console is told that does not begin or go on as it should.
pub proof fn consoles_tell_what_is_wrong(
    ended: Result<String, RpcStatus>,
    message: ConsoleMessage,
    other: Result<String, RpcStatus>,
)
    requires
        call_ensures(get_attach_message, (None,), ended),
        !(message is Attach),
        call_ensures(get_attach_message, (Some(Ok(message)),), other),
    ensures
        ended matches Err(s) && reads(
            s,
            Code::InvalidArgument,
            "Client disconnected before sending Attach message."@,
        ),
        other matches Err(s) && reads(
            s,
            Code::InvalidArgument,
            "First message must be an Attach message."@,
        ),
{
}

/// What a bridge tells a client of what is wrong, while the direction is open.
pub proof fn bridges_tell_what_is_wrong(
    bridge: &mut Bridge,
    path: &str,
    event: BridgeEvent,
    action: BridgeAction,
)
    requires
        old(bridge).to_client && old(bridge).to_console,
        call_ensures(bridge_console_streams, (bridge, path, event), action),
    ensures
        event matches BridgeEvent::ConsoleFailed(why) ==> (action matches BridgeAction::Fail(s)
            && reads(s, Code::Internal, "Error reading from console socket: "@ + why@)),
        event matches BridgeEvent::ClientSent(ConsoleMessage::Attach { .. }) ==> (
        action matches BridgeAction::Fail(s) && reads(
            s,
            Code::InvalidArgument,
            "Cannot send Attach message more than once."@,
        )),
        event matches BridgeEvent::ClientSent(ConsoleMessage::Empty) ==> (
        action matches BridgeAction::Fail(s) && reads(
            s,
            Code::InvalidArgument,
            "Empty ConsoleInput payload."@,
        )),
{
}

/// What is said of rows of the database that cannot be read.
pub proof fn unreadable_rows_say_why(
    row: DbVmRow,
    why: String,
    undecoded: Result<Option<VmRecord>, String>,
    rows: Vec<(DbVmRow, Result<VmConfig, String>)>,
    listed: Result<Vec<VmRecord>, String>,
    s: &str,
    m: String,
)
    requires
        call_ensures(VmRepository::get_vm, (Some((row, Err(why))),), undecoded),
        rows@.len() == 1 && rows@[0].0 == row && rows@[0].1 == Err::<VmConfig, String>(why),
        call_ensures(VmRepository::list_all_vms, (rows,), listed),
        call_ensures(string_to_vm_state, (s,), Err(m)),
    ensures
        undecoded matches Err(e) && e@ == "Failed to decode VmConfig blob: "@ + why@,
        listed matches Err(e) && e@ == "Failed to decode VmConfig blob for vm_id "@
            + ids::hyphenated(row.vm_id) + ": "@ + why@,
        m@ == "Invalid state string '"@ + s@ + "' in database"@,
{
    match listed {
        Ok(_) => {
            assert(crate::vm::persistence::row_readable(rows@[0].0, rows@[0].1));
        },
        Err(_) => {},
    }
}

} // verus!
