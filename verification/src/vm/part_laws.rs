//! What holds of the single parts of the virtual machine service: names, states, events, answers
//! and the paths that hypervisors are reached by.
use crate::ids;
use crate::rpc::{Code, RpcStatus};
use crate::text;
use crate::vm::ch_adapter::{
    factory, ApiReply, ChNetworkDevice, CloudHypervisorAdapter, VmDirs,
};
use crate::vm::console::{refuse_connection, BridgeAction};
use crate::vm::create::{
    accept_vm_id, begin_record, choose_vm_id, initiate_image_pull_for_vm, CreateStep, PullOutcome,
};
use crate::vm::dispatcher::{BusMessage, Decoded, EventAction, EventProgress, VmServiceDispatcher};
use crate::vm::guards::record_attached_nic;
use crate::vm::handlers::{known_vm_id, requested_vm, vm_info};
use crate::vm::persistence::{string_to_vm_state, vm_state_to_string, VmRecord};
use crate::vm::vmm::{broadcast_state_change_event, state_change_event, VmmError, VmmType};
use crate::vm::worker::{
    handle_attach_disk, handle_get_vm, handle_ping_vm, handle_remove_disk, image_of,
};
use crate::vm::{
    CreateVmRequest, NetConfig, PingVmResponse, VmConfig, VmEvent, VmEventWrapper, VmInfo,
    VmRequest, VmState, VmStateChangedEvent,
};
use vstd::prelude::*;

verus! {

/// An event carries the virtual machine, the part of the service and the change that it was made
/// of, under the name of that kind of change; what is broadcast carries the process as well.
pub proof fn events_carry_what_they_were_made_of(
    vm_id: &str,
    component: &str,
    change: VmStateChangedEvent,
    event: VmEvent,
    process_id: Option<i64>,
    w: VmEventWrapper,
)
    requires
        call_ensures(state_change_event, (vm_id, component, change), event),
        call_ensures(broadcast_state_change_event, (vm_id, component, change, process_id), w),
    ensures
        carries(event, vm_id@, component@, change),
        carries(w.event, vm_id@, component@, change),
        w.process_id == process_id,
{
}

/// Whether an event carries a change of a virtual machine's state, from a part of the service.
pub open spec fn carries(
    event: VmEvent,
    vm_id: Seq<char>,
    component: Seq<char>,
    change: VmStateChangedEvent,
) -> bool {
    &&& event.vm_id@ == vm_id
    &&& event.component_id@ == component
    &&& event.id@.len() == 36
    &&& event.data is Some
    &&& event.data->Some_0.type_url@
        == "type.googleapis.com/feos.vm.vmm.api.v1.VmStateChangedEvent"@
    &&& event.data->Some_0.change.new_state == change.new_state
    &&& event.data->Some_0.change.reason@ == change.reason@
}

/// An event of a change stores the state and the reason that it carries for the virtual machine
/// that it names, wherever its type has the name of such a change; any other event stores nothing.
/// An event of an unknown name is dropped.
pub proof fn changes_are_stored(
    id: u128,
    msg: &BusMessage,
    before: Seq<char>,
    after: Seq<char>,
    action: EventAction,
    stored: EventAction,
    whole: EventAction,
)
    requires
        call_ensures(VmServiceDispatcher::handle_vm_state_changed_event, (id, msg), action),
        call_ensures(
            VmServiceDispatcher::handle_event_of,
            (id, msg, EventProgress::PidStored),
            stored,
        ),
        call_ensures(VmServiceDispatcher::handle_vm_event, (msg, EventProgress::PidStored), whole),
    ensures
        msg.data matches Some((type_url, Decoded::Change(change))) ==> type_url@ == before
            + "VmStateChangedEvent"@ + after ==> stores(action, id, change) && stores(
            stored,
            id,
            change,
        ) && (ids::uuid_parsed(msg.vm_id@) == Ok::<u128, Seq<char>>(id) ==> stores(
            whole,
            id,
            change,
        )),
        !(msg.data matches Some((_, Decoded::Change(_)))) ==> action is Drop && stored is Drop
            && whole is Drop,
        ids::uuid_parsed(msg.vm_id@) is Err ==> whole is Drop,
{
    match msg.data {
        Some((type_url, Decoded::Change(change))) => {
            if type_url@ == before + "VmStateChangedEvent"@ + after {
                let part = "VmStateChangedEvent"@;
                let i = before.len() as int;
                assert(type_url@.subrange(i, i + part.len()) =~= part);
                assert(text::occurs_in(part, type_url@));
            }
        },
        _ => {},
    }
}

/// Whether an action stores a change of a virtual machine.
pub open spec fn stores(action: EventAction, id: u128, change: VmStateChangedEvent) -> bool {
    &&& action is StoreStatus
    &&& action->StoreStatus_id == id
    &&& action->state == change.new_state
    &&& action->reason@ == change.reason@
}

/// A virtual machine gets the identifier that was asked for, and a fresh one where none was; what
/// is no identifier, or is the one of nothing, is refused as the client's fault.
pub proof fn machine_gets_the_name_asked_for(
    asked: &Option<String>,
    fresh: u128,
    r: Result<(u128, bool), RpcStatus>,
    parsed: Result<u128, String>,
    accepted: Result<u128, RpcStatus>,
)
    requires
        call_ensures(choose_vm_id, (asked, fresh), r),
        call_ensures(accept_vm_id, (parsed,), accepted),
    ensures
        asked is None ==> r == Ok::<(u128, bool), RpcStatus>((fresh, false)),
        asked matches Some(s) ==> s@.len() == 0 ==> r == Ok::<(u128, bool), RpcStatus>(
            (fresh, false),
        ),
        asked matches Some(s) ==> s@.len() > 0 ==> match ids::uuid_parsed(s@) {
            Ok(id) => if id == 0 {
                r matches Err(e) && e.code == Code::InvalidArgument
            } else {
                r == Ok::<(u128, bool), RpcStatus>((id, true))
            },
            Err(_) => r matches Err(e) && e.code == Code::InvalidArgument,
        },
        parsed matches Ok(id) ==> id != 0 ==> accepted == Ok::<u128, RpcStatus>(id),
        parsed == Ok::<u128, String>(0) || parsed is Err ==> (accepted matches Err(e) && e.code
            == Code::InvalidArgument),
{
}

/// The image of a virtual machine is the one that the image service named; where it named none,
/// the service is told to be unavailable, and why.
pub proof fn machine_gets_the_image_named(
    image_ref: &str,
    outcome: PullOutcome,
    r: Result<String, RpcStatus>,
    vm_id: u128,
    config: VmConfig,
    image: String,
    parsed: Result<u128, String>,
    step: CreateStep,
)
    requires
        call_ensures(initiate_image_pull_for_vm, (image_ref, outcome), r),
        call_ensures(begin_record, (vm_id, config, image, parsed), step),
    ensures
        outcome matches PullOutcome::Started(id) ==> (r matches Ok(named) && named@ == id@),
        outcome matches PullOutcome::NotConnected(why) ==> (r matches Err(s) && s.code
            == Code::Unavailable && s.message@ == "Could not connect to ImageService: "@ + why@),
        outcome matches PullOutcome::Failed(why) ==> (r matches Err(s) && s.code
            == Code::Unavailable && s.message@ == "PullImage RPC failed for "@ + image_ref@ + ": "@
            + why@),
        parsed matches Ok(id) ==> (step matches CreateStep::Save { record, image_uuid }
            && record.vm_id == vm_id && record.image_uuid == id && record.config == config
            && record.status.state == VmState::Creating && record.status.process_id is None
            && record.status.last_msg@ == "VM creation initiated"@ && image_uuid@ == image@),
        parsed is Err ==> !(step is Save),
{
}

/// A request names the virtual machine that its identifier stands for, and what is no identifier
/// is the client's fault.
pub proof fn requests_name_a_machine(
    req: &VmRequest,
    r: Result<u128, RpcStatus>,
    parsed: Result<u128, String>,
    known: Result<u128, RpcStatus>,
)
    requires
        call_ensures(requested_vm, (req,), r),
        call_ensures(known_vm_id, (parsed,), known),
    ensures
        match ids::uuid_parsed(req.vm_id@) {
            Ok(id) => r == Ok::<u128, RpcStatus>(id),
            Err(_) => r matches Err(s) && s.code == Code::InvalidArgument && s.message@
                == "Invalid VM ID format."@,
        },
        parsed matches Ok(id) ==> known == Ok::<u128, RpcStatus>(id),
        parsed is Err ==> (known matches Err(s) && s.code == Code::InvalidArgument),
{
}

/// What is told of a virtual machine is what is recorded of it.
pub proof fn machine_is_told_as_recorded(record: VmRecord, info: VmInfo)
    requires
        call_ensures(vm_info, (record,), info),
    ensures
        info.vm_id@ == ids::hyphenated(record.vm_id),
        info.state == record.status.state,
        info.config == Some(record.config),
{
}

/// Every state has its own text in the database, which is read back as the state; any other text
/// is an error that names it.
pub proof fn states_have_their_own_texts(
    state: VmState,
    s: &'static str,
    name: &'static str,
    read: Result<VmState, String>,
)
    requires
        call_ensures(vm_state_to_string, (state,), s),
        call_ensures(VmState::name, (state,), name),
        call_ensures(string_to_vm_state, (s,), read),
    ensures
        read == Ok::<VmState, String>(state),
        state is Creating ==> s@ == "VM_STATE_CREATING"@ && name@ == "Creating"@,
        state is Created ==> s@ == "VM_STATE_CREATED"@ && name@ == "Created"@,
        state is Running ==> s@ == "VM_STATE_RUNNING"@ && name@ == "Running"@,
        state is Paused ==> s@ == "VM_STATE_PAUSED"@ && name@ == "Paused"@,
        state is Stopped ==> s@ == "VM_STATE_STOPPED"@ && name@ == "Stopped"@,
        state is Crashed ==> s@ == "VM_STATE_CRASHED"@ && name@ == "Crashed"@,
        state is Unspecified ==> s@ == "VM_STATE_UNSPECIFIED"@ && name@ == "Unspecified"@,
{
    crate::vm::persistence::written_state_reads_back(state);
}

/// A client is answered success exactly where the hypervisor had it, with what the hypervisor told;
/// an error is answered with its code and what it says.
pub proof fn answers_follow_the_hypervisor(
    result: Result<(), VmmError>,
    attached: Result<(), RpcStatus>,
    removed: Result<(), RpcStatus>,
    info: Result<VmInfo, VmmError>,
    got: Result<VmInfo, RpcStatus>,
    ping: Result<PingVmResponse, VmmError>,
    pinged: Result<PingVmResponse, RpcStatus>,
    e: VmmError,
    status: RpcStatus,
)
    requires
        call_ensures(handle_attach_disk, (result,), attached),
        call_ensures(handle_remove_disk, (result,), removed),
        call_ensures(handle_get_vm, (info,), got),
        call_ensures(handle_ping_vm, (ping,), pinged),
        call_ensures(VmmError::into_status, (e,), status),
    ensures
        attached is Ok <==> result is Ok,
        removed is Ok <==> result is Ok,
        info matches Ok(i) ==> got == Ok::<VmInfo, RpcStatus>(i),
        info is Err ==> got is Err,
        ping matches Ok(p) ==> pinged == Ok::<PingVmResponse, RpcStatus>(p),
        ping is Err ==> pinged is Err,
        result == Err::<(), VmmError>(e) ==> (attached matches Err(s) && s.code == status.code
            && s.message@ == status.message@) && (removed matches Err(s) && s.code == status.code
            && s.message@ == status.message@),
        info == Err::<VmInfo, VmmError>(e) ==> (got matches Err(s) && s.code == status.code
            && s.message@ == status.message@),
        ping == Err::<PingVmResponse, VmmError>(e) ==> (pinged matches Err(s) && s.code
            == status.code && s.message@ == status.message@),
{
}

/// The image of a configuration is the one that it names.
pub proof fn image_is_that_of_the_configuration(
    config: VmConfig,
    named: String,
    none: String,
    req: CreateVmRequest,
    required: Result<VmConfig, VmmError>,
)
    requires
        call_ensures(image_of, (&Some(config),), named),
        call_ensures(image_of, (&None,), none),
        call_ensures(CloudHypervisorAdapter::required_config, (req,), required),
    ensures
        named@ == config.image_ref@,
        none@.len() == 0,
        req.config matches Some(c) ==> required == Ok::<VmConfig, VmmError>(c),
        req.config is None ==> (required matches Err(e) && e is InvalidConfig),
{
}

/// The sockets of a virtual machine lie in the directories for them, under its name.
pub proof fn sockets_lie_under_the_name(
    dirs: &VmDirs,
    vm_id: &str,
    api: String,
    console: String,
)
    requires
        dirs.api_sockets@.len() > 0 && dirs.api_sockets@.last() != '/',
        dirs.consoles@.len() > 0 && dirs.consoles@.last() != '/',
        vm_id@.len() > 0 && vm_id@[0] != '/',
        call_ensures(VmDirs::api_socket_path, (dirs, vm_id), api),
        call_ensures(VmDirs::console_socket_path, (dirs, vm_id), console),
    ensures
        api@ == dirs.api_sockets@ + seq!['/'] + vm_id@,
        console@ == dirs.consoles@ + seq!['/'] + vm_id@ + ".console"@,
{
    assert((vm_id@ + ".console"@)[0] == vm_id@[0]);
    assert(console@ =~= dirs.consoles@ + seq!['/'] + vm_id@ + ".console"@);
}

/// A call to a hypervisor gives what it answered; without its socket there is no such virtual
/// machine, and a call that failed says what failed and why.
pub proof fn hypervisor_calls_give_the_answer(
    vm_id: &str,
    what: &str,
    value: u64,
    done: Result<u64, VmmError>,
    gone: Result<u64, VmmError>,
    why: String,
    failed: Result<u64, VmmError>,
)
    requires
        call_ensures(
            CloudHypervisorAdapter::api_call::<u64>,
            (vm_id, what, ApiReply::Done(value)),
            done,
        ),
        call_ensures(
            CloudHypervisorAdapter::api_call::<u64>,
            (vm_id, what, ApiReply::NoSocket),
            gone,
        ),
        call_ensures(
            CloudHypervisorAdapter::api_call::<u64>,
            (vm_id, what, ApiReply::Failed(why)),
            failed,
        ),
    ensures
        done == Ok::<u64, VmmError>(value),
        gone matches Err(VmmError::VmNotFound(m)) && m@ == vm_id@,
        failed matches Err(VmmError::ApiOperationFailed(m)) && m@ == what@ + why@,
{
}

/// A device that was added has the name that it was added under, which is its own; one that was not
/// is an error. Disks can be neither added nor removed, and the adapter runs the binary that it
/// was made for.
pub proof fn devices_have_their_own_names(
    device: &ChNetworkDevice,
    id: Option<String>,
    device_id: String,
    added: Result<String, VmmError>,
    why: String,
    failed: Result<String, VmmError>,
    attached: Result<(), VmmError>,
    removed: Result<(), VmmError>,
    kind: VmmType,
    path: String,
    adapter: CloudHypervisorAdapter,
)
    requires
        call_ensures(ChNetworkDevice::id, (device,), id),
        call_ensures(CloudHypervisorAdapter::nic_attached, (device, device_id, Ok(())), added),
        call_ensures(CloudHypervisorAdapter::nic_attached, (device, device_id, Err(why)), failed),
        call_ensures(CloudHypervisorAdapter::attach_disk, (), attached),
        call_ensures(CloudHypervisorAdapter::remove_disk, (), removed),
        call_ensures(factory, (kind, path), adapter),
    ensures
        *device matches ChNetworkDevice::Net(config) ==> id == config.id,
        *device matches ChNetworkDevice::Device(config) ==> id == config.id,
        added matches Ok(name) && name@ == device_id@,
        failed matches Err(VmmError::ApiOperationFailed(m)) && (*device is Net ==> m@
            == "vm.add-net failed: "@ + why@) && (*device is Device ==> m@
            == "vm.add-device failed: "@ + why@),
        attached matches Err(VmmError::Internal(_)),
        removed matches Err(VmmError::Internal(_)),
        adapter.ch_binary_path@ == path@,
{
}

/// A device that was added is the last of the configuration, under the name that it was given and
/// otherwise as it was; the others stay.
pub proof fn added_device_is_recorded(
    nics: &mut Vec<NetConfig>,
    nic: NetConfig,
    device_id: String,
)
    requires
        call_ensures(record_attached_nic, (nics, nic, device_id), ()),
    ensures
        final(nics)@.len() == old(nics)@.len() + 1,
        final(nics)@.last().device_id@ == device_id@,
        final(nics)@.last().mac_address == nic.mac_address,
        final(nics)@.last().backend == nic.backend,
        forall|i: int| 0 <= i < old(nics)@.len() ==> #[trigger] final(nics)@[i] == old(nics)@[i],
{
}

/// A console that cannot be connected to is told to be unavailable, and why.
pub proof fn consoles_are_unavailable_without_a_socket(path: &str, why: &str, action: BridgeAction)
    requires
        call_ensures(refuse_connection, (path, why), action),
    ensures
        action matches BridgeAction::Fail(s) && s.code == Code::Unavailable && s.message@
            == "Failed to connect to console socket at "@ + path@ + ": "@ + why@,
{
}

} // verus!
