//! The decisions of the dispatcher on requests for existing virtual machines, and
//! the check of what is left of an earlier run.
use crate::ids;
use crate::numbers;
use crate::rpc::{Code, RpcStatus};
use crate::text;
use crate::vm::persistence::VmRecord;
use crate::vm::{ListVmsResponse, VmInfo, VmRequest};
use vstd::prelude::*;

verus! {

/// What is known of a virtual machine.
pub open spec fn describes(info: VmInfo, record: VmRecord) -> bool {
    &&& info.vm_id@ == ids::hyphenated(record.vm_id)
    &&& info.state == record.status.state
    &&& info.config == Some(record.config)
}

/// What is known of a virtual machine, from its record.
pub fn vm_info(record: VmRecord) -> (info: VmInfo)
    ensures
        describes(info, record),
{
    VmInfo {
        vm_id: ids::id_text(record.vm_id),
        state: record.status.state,
        config: Some(record.config),
    }
}

/// The identifier that a request names, or the status that it is refused with, given
/// what the name was read as.
pub fn known_vm_id(parsed: Result<u128, String>) -> (r: Result<u128, RpcStatus>)
    ensures
        match parsed {
            Ok(id) => r == Ok::<u128, RpcStatus>(id),
            Err(_) => r matches Err(s) && s.says(Code::InvalidArgument, "Invalid VM ID format."@),
        },
{
    match parsed {
        Ok(id) => Ok(id),
        Err(_) => Err(RpcStatus::new(Code::InvalidArgument, "Invalid VM ID format.")),
    }
}

/// The identifier that a request names, or the status that it is refused with.
pub fn requested_vm(req: &VmRequest) -> (r: Result<u128, RpcStatus>)
    ensures
        match ids::uuid_parsed(req.vm_id@) {
            Ok(id) => r == Ok::<u128, RpcStatus>(id),
            Err(_) => r matches Err(s) && s.says(Code::InvalidArgument, "Invalid VM ID format."@),
        },
{
    known_vm_id(ids::id_of(req.vm_id.as_str()))
}

/// The answer to a request for what is known of a virtual machine, once it was
/// looked up.
pub fn handle_get_vm_command(vm_id: u128, found: Result<Option<VmRecord>, String>) -> (r: Result<
    VmInfo,
    RpcStatus,
>)
    ensures
        match found {
            Ok(Some(record)) => r matches Ok(info) && describes(info, record),
            Ok(None) => r matches Err(s) && s.says(
                Code::NotFound,
                "VM with ID "@ + ids::hyphenated(vm_id) + " not found"@,
            ),
            Err(_) => r matches Err(s) && s.says(
                Code::Internal,
                "Failed to retrieve VM information."@,
            ),
        },
{
    match found {
        Ok(Some(record)) => Ok(vm_info(record)),
        Ok(None) => Err(
            RpcStatus {
                code: Code::NotFound,
                message: text::cat3("VM with ID ", ids::id_text(vm_id).as_str(), " not found"),
            },
        ),
        Err(_) => Err(RpcStatus::new(Code::Internal, "Failed to retrieve VM information.")),
    }
}

/// The answer to a request for all virtual machines, once they were read.
pub fn handle_list_vms_command(listed: Result<Vec<VmRecord>, String>) -> (r: Result<
    ListVmsResponse,
    RpcStatus,
>)
    ensures
        match listed {
            Ok(records) => r matches Ok(list) && list.vms@.len() == records@.len() && forall|i: int|
                0 <= i < records@.len() ==> describes(#[trigger] list.vms@[i], records@[i]),
            Err(_) => r matches Err(s) && s.says(Code::Internal, "Failed to retrieve VM list."@),
        },
{
    let records = match listed {
        Ok(records) => records,
        Err(_) => {
            return Err(RpcStatus::new(Code::Internal, "Failed to retrieve VM list."));
        },
    };
    let ghost all = records@;
    let mut rest = records;
    let mut vms: Vec<VmInfo> = Vec::new();
    while rest.len() > 0
        invariant
            vms@.len() + rest@.len() == all.len(),
            rest@ == all.skip(vms@.len() as int),
            forall|i: int| 0 <= i < vms@.len() ==> describes(#[trigger] vms@[i], all[i]),
        decreases rest@.len(),
    {
        let ghost k = vms@.len() as int;
        assert(rest@[0] == all[k]);
        let record = rest.remove(0);
        vms.push(vm_info(record));
        assert(rest@ =~= all.skip(k + 1));
    }
    Ok(ListVmsResponse { vms })
}

/// How far a deletion has come, and what the last step gave.
pub enum DeleteProgress {
    Received(VmRequest),
    /// What looking the virtual machine up gave.
    LookedUp { id: u128, request: VmRequest, found: Result<Option<VmRecord>, String> },
    /// Whether the record was removed; the image and the process that it named.
    RecordDeleted {
        id: u128,
        request: VmRequest,
        image_uuid: String,
        process_id: Option<i64>,
        removed: Result<(), String>,
    },
    /// The monitor of the virtual machine's health was told to stop.
    Cancelled { request: VmRequest, image_uuid: String, process_id: Option<i64> },
}

/// What to do next for a deletion.
pub enum DeleteStep {
    /// Look the virtual machine up in the database.
    LookUp { id: u128, request: VmRequest },
    /// Remove the record.
    DeleteRecord { id: u128, request: VmRequest, image_uuid: String, process_id: Option<i64> },
    /// Tell the monitor of the virtual machine's health to stop.
    CancelMonitor { id: u128, request: VmRequest, image_uuid: String, process_id: Option<i64> },
    /// Hand the deletion to a worker.
    Work { request: VmRequest, image_uuid: String, process_id: Option<i64> },
    /// Answer with an error.
    Refuse(RpcStatus),
}

/// Whether the deletion is refused with this status.
pub open spec fn refuses(step: DeleteStep, code: Code, message: Seq<char>) -> bool {
    step matches DeleteStep::Refuse(s) && s.says(code, message)
}

/// The next step of a deletion.
pub open spec fn delete_next(progress: DeleteProgress, step: DeleteStep) -> bool {
    match progress {
        DeleteProgress::Received(request) => match ids::uuid_parsed(request.vm_id@) {
            Ok(id) => step == (DeleteStep::LookUp { id, request }),
            Err(_) => refuses(step, Code::InvalidArgument, "Invalid VM ID format."@),
        },
        DeleteProgress::LookedUp { id, request, found } => match found {
            Ok(Some(record)) => step matches DeleteStep::DeleteRecord {
                id: i,
                request: r,
                image_uuid,
                process_id,
            } && i == id && r == request && image_uuid@ == ids::hyphenated(record.image_uuid)
                && process_id == record.status.process_id,
            Ok(None) => step matches DeleteStep::CancelMonitor {
                id: i,
                request: r,
                image_uuid,
                process_id,
            } && i == id && r == request && image_uuid@ == Seq::<char>::empty() && process_id
                is None,
            Err(_) => refuses(step, Code::Internal, "Failed to retrieve VM for deletion."@),
        },
        DeleteProgress::RecordDeleted { id, request, image_uuid, process_id, removed } =>
            match removed {
            Ok(_) => step == (DeleteStep::CancelMonitor { id, request, image_uuid, process_id }),
            Err(_) => refuses(step, Code::Internal, "Failed to delete VM from database."@),
        },
        DeleteProgress::Cancelled { request, image_uuid, process_id } => step == (
        DeleteStep::Work { request, image_uuid, process_id }),
    }
}

/// The next step of a deletion: the record goes first, then the monitor is told to
/// stop, and a worker removes what is left. A virtual machine without a record is
/// cleaned up all the same.
pub fn handle_delete_vm_command(progress: DeleteProgress) -> (step: DeleteStep)
    ensures
        delete_next(progress, step),
{
    match progress {
        DeleteProgress::Received(request) => match requested_vm(&request) {
            Ok(id) => DeleteStep::LookUp { id, request },
            Err(s) => DeleteStep::Refuse(s),
        },
        DeleteProgress::LookedUp { id, request, found } => match found {
            Ok(Some(record)) => DeleteStep::DeleteRecord {
                id,
                request,
                image_uuid: ids::id_text(record.image_uuid),
                process_id: record.status.process_id,
            },
            Ok(None) => DeleteStep::CancelMonitor {
                id,
                request,
                image_uuid: String::new(),
                process_id: None,
            },
            Err(_) => DeleteStep::Refuse(
                RpcStatus::new(Code::Internal, "Failed to retrieve VM for deletion."),
            ),
        },
        DeleteProgress::RecordDeleted { id, request, image_uuid, process_id, removed } =>
            match removed {
            Ok(_) => DeleteStep::CancelMonitor { id, request, image_uuid, process_id },
            Err(_) => DeleteStep::Refuse(
                RpcStatus::new(Code::Internal, "Failed to delete VM from database."),
            ),
        },
        DeleteProgress::Cancelled { request, image_uuid, process_id } => DeleteStep::Work {
            request,
            image_uuid,
            process_id,
        },
    }
}

/// The process to ask after for a virtual machine of an earlier run: none where the
/// record names none.
pub fn process_to_probe(record: &VmRecord) -> (r: Option<i32>)
    ensures
        match record.status.process_id {
            None => r is None,
            Some(pid) => r == Some(numbers::low_i32(pid as int)),
        },
{
    match record.status.process_id {
        None => None,
        Some(pid) => Some(numbers::truncate_i64(pid)),
    }
}

/// What to do with a virtual machine of an earlier run.
pub enum SanityAction {
    /// Nothing is known to run for it.
    Leave,
    /// Its process runs: monitor its health.
    Monitor { vm_id: String },
    /// Its process is gone: delete it.
    Delete(VmRequest),
}

/// What to do with a virtual machine of an earlier run, given whether its process
/// exists.
pub fn check_and_cleanup_vms(record: &VmRecord, process_exists: bool) -> (action: SanityAction)
    ensures
        match record.status.process_id {
            None => action == SanityAction::Leave,
            Some(_) => if process_exists {
                action matches SanityAction::Monitor { vm_id } && vm_id@ == ids::hyphenated(
                    record.vm_id,
                )
            } else {
                action matches SanityAction::Delete(req) && req.vm_id@ == ids::hyphenated(
                    record.vm_id,
                ) && ids::reads_as(req.vm_id@, record.vm_id)
            },
        },
{
    match record.status.process_id {
        None => SanityAction::Leave,
        Some(_) => if process_exists {
            SanityAction::Monitor { vm_id: ids::id_text(record.vm_id) }
        } else {
            SanityAction::Delete(VmRequest { vm_id: ids::id_text(record.vm_id) })
        },
    }
}

/// The virtual machines of an earlier run that are checked at the start: all that
/// could be read, and none where they could not.
pub fn perform_startup_sanity_check(listed: Result<Vec<VmRecord>, String>) -> (r: Vec<VmRecord>)
    ensures
        match listed {
            Ok(vms) => r == vms,
            Err(_) => r@.len() == 0,
        },
{
    match listed {
        Ok(vms) => vms,
        Err(_) => Vec::new(),
    }
}

} // verus!
