//! The workers of the virtual machine service. A worker goes in steps: each step
//! names the next thing to do outside, and its result leads to the next step.
use crate::image::ImageState;
use crate::rpc::RpcStatus;
use crate::text;
use crate::vm::vmm::{self, VmmError};
use crate::vm::{
    CreateVmResponse, PingVmResponse, VmConfig, VmEventWrapper, VmInfo, VmState,
    VmStateChangedEvent,
};
use vstd::prelude::*;

verus! {

/// What a wait for an image has come to.
pub enum WatchEvent {
    /// The image service could not be reached, and why.
    NotConnected(String),
    /// The image service refused to have the image watched.
    NotWatched(String),
    /// The image has this state, with this message.
    Status(ImageState, String),
    /// The watch failed.
    Broken(String),
    /// The watch ended.
    Ended,
}

/// What a wait for an image comes to after an event: nothing while the image is
/// still on its way.
pub open spec fn image_waited(
    image_uuid: Seq<char>,
    image_ref: Seq<char>,
    event: WatchEvent,
    r: Option<Result<(), VmmError>>,
) -> bool {
    match event {
        WatchEvent::NotConnected(e) => r matches Some(Err(VmmError::ImageServiceFailed(m))) && m@
            == "Failed to connect to ImageService: "@ + e@,
        WatchEvent::NotWatched(e) => r matches Some(Err(VmmError::ImageServiceFailed(m))) && m@
            == "WatchImageStatus RPC failed for "@ + image_uuid + ": "@ + e@,
        WatchEvent::Broken(e) => r matches Some(Err(VmmError::ImageServiceFailed(m))) && m@
            == "Image stream error for "@ + image_uuid + ": "@ + e@,
        WatchEvent::Status(ImageState::Ready, _) => r == Some(Ok::<(), VmmError>(())),
        WatchEvent::Status(ImageState::PullFailed, why) => r matches Some(
            Err(VmmError::ImageServiceFailed(m)),
        ) && m@ == "Image pull failed for "@ + image_ref + " (uuid: "@ + image_uuid + "): "@
            + why@,
        WatchEvent::Status(_, _) => r is None,
        WatchEvent::Ended => r matches Some(Err(VmmError::ImageServiceFailed(m))) && m@
            == "Image watch stream for "@ + image_uuid
            + " ended before reaching a terminal state."@,
    }
}

/// What a wait for an image comes to after an event.
pub fn wait_for_image_ready(image_uuid: &str, image_ref: &str, event: WatchEvent) -> (r: Option<
    Result<(), VmmError>,
>)
    ensures
        image_waited(image_uuid@, image_ref@, event, r),
{
    let message = match event {
        WatchEvent::NotConnected(e) => text::cat2(
            "Failed to connect to ImageService: ",
            e.as_str(),
        ),
        WatchEvent::NotWatched(e) => text::cat4(
            "WatchImageStatus RPC failed for ",
            image_uuid,
            ": ",
            e.as_str(),
        ),
        WatchEvent::Broken(e) => text::cat4(
            "Image stream error for ",
            image_uuid,
            ": ",
            e.as_str(),
        ),
        WatchEvent::Status(state, why) => match state {
            ImageState::Ready => {
                return Some(Ok(()));
            },
            ImageState::PullFailed => text::cat2(
                text::cat5(
                    "Image pull failed for ",
                    image_ref,
                    " (uuid: ",
                    image_uuid,
                    "): ",
                ).as_str(),
                why.as_str(),
            ),
            ImageState::Unspecified => {
                return None;
            },
            ImageState::Downloading => {
                return None;
            },
        },
        WatchEvent::Ended => text::cat3(
            "Image watch stream for ",
            image_uuid,
            " ended before reaching a terminal state.",
        ),
    };
    Some(Err(VmmError::ImageServiceFailed(message)))
}

/// How far the creation of a virtual machine has come.
pub enum CreateProgress {
    Accepted,
    /// Whether the answer reached the client.
    Answered(bool),
    /// It was broadcast that the creation began.
    Announced,
    /// What the wait for the image came to.
    ImageWaited(Result<(), VmmError>),
    /// What the hypervisor made of it, with the process of the virtual machine.
    HypervisorDone(Result<Option<i64>, VmmError>),
    /// The last step was taken.
    Finished,
}

/// What to do next to create a virtual machine.
pub enum CreateAction {
    /// Answer the client.
    Answer(CreateVmResponse),
    /// Broadcast that the creation began.
    Announce(VmEventWrapper),
    /// Wait until the image of this identifier is ready.
    WaitForImage { image_uuid: String, image_ref: String },
    /// Have the hypervisor create the virtual machine.
    CreateInHypervisor,
    /// Broadcast how the creation ended.
    Conclude(VmEventWrapper),
    /// Nothing is left to do.
    Done,
}

/// Whether this is broadcast by the service, with this process.
pub open spec fn announces(
    w: VmEventWrapper,
    vm_id: Seq<char>,
    state: VmState,
    reason: Seq<char>,
    process_id: Option<i64>,
) -> bool {
    vmm::tells(w.event, vm_id, "vm-service"@, state, reason) && w.process_id == process_id
}

/// The next step of a virtual machine's creation.
pub open spec fn create_next(
    vm_id: Seq<char>,
    image_uuid: Seq<char>,
    image_ref: Seq<char>,
    progress: CreateProgress,
    action: CreateAction,
) -> bool {
    match progress {
        CreateProgress::Accepted => action matches CreateAction::Answer(response)
            && response.vm_id@ == vm_id,
        CreateProgress::Answered(false) => action == CreateAction::Done,
        CreateProgress::Answered(true) => action matches CreateAction::Announce(w) && announces(
            w,
            vm_id,
            VmState::Creating,
            "VM creation process started"@,
            None,
        ),
        CreateProgress::Announced => action matches CreateAction::WaitForImage {
            image_uuid: u,
            image_ref: r,
        } && u@ == image_uuid && r@ == image_ref,
        CreateProgress::ImageWaited(Ok(_)) => action == CreateAction::CreateInHypervisor,
        CreateProgress::ImageWaited(Err(e)) => action matches CreateAction::Conclude(w)
            && announces(w, vm_id, VmState::Crashed, e.text(), None),
        CreateProgress::HypervisorDone(Ok(pid)) => action matches CreateAction::Conclude(w)
            && announces(
            w,
            vm_id,
            VmState::Created,
            "Hypervisor process started and VM configured"@,
            pid,
        ),
        CreateProgress::HypervisorDone(Err(e)) => action matches CreateAction::Conclude(w)
            && announces(w, vm_id, VmState::Crashed, e.text(), None),
        CreateProgress::Finished => action == CreateAction::Done,
    }
}

fn announce(vm_id: &str, state: VmState, reason: String, process_id: Option<i64>) -> (w:
    VmEventWrapper)
    ensures
        announces(w, vm_id@, state, reason@, process_id),
{
    vmm::broadcast_state_change_event(
        vm_id,
        "vm-service",
        VmStateChangedEvent { new_state: state, reason },
        process_id,
    )
}

/// The next step of a virtual machine's creation: the client is answered first,
/// then the beginning is broadcast, the image is awaited, the hypervisor creates
/// the virtual machine, and it is broadcast how that ended.
pub fn handle_create_vm(
    vm_id: &str,
    image_uuid: &str,
    image_ref: &str,
    progress: CreateProgress,
) -> (action: CreateAction)
    ensures
        create_next(vm_id@, image_uuid@, image_ref@, progress, action),
{
    match progress {
        CreateProgress::Accepted => CreateAction::Answer(
            CreateVmResponse { vm_id: vm_id.to_owned() },
        ),
        CreateProgress::Answered(delivered) => if delivered {
            CreateAction::Announce(
                announce(
                    vm_id,
                    VmState::Creating,
                    "VM creation process started".to_owned(),
                    None,
                ),
            )
        } else {
            CreateAction::Done
        },
        CreateProgress::Announced => CreateAction::WaitForImage {
            image_uuid: image_uuid.to_owned(),
            image_ref: image_ref.to_owned(),
        },
        CreateProgress::ImageWaited(waited) => match waited {
            Ok(_) => CreateAction::CreateInHypervisor,
            Err(e) => CreateAction::Conclude(
                announce(vm_id, VmState::Crashed, e.message(), None),
            ),
        },
        CreateProgress::HypervisorDone(done) => match done {
            Ok(pid) => CreateAction::Conclude(
                announce(
                    vm_id,
                    VmState::Created,
                    "Hypervisor process started and VM configured".to_owned(),
                    pid,
                ),
            ),
            Err(e) => CreateAction::Conclude(
                announce(vm_id, VmState::Crashed, e.message(), None),
            ),
        },
        CreateProgress::Finished => CreateAction::Done,
    }
}

/// The image that a configuration names; none is named by no configuration.
pub fn image_of(config: &Option<VmConfig>) -> (r: String)
    ensures
        match *config {
            Some(c) => r@ == c.image_ref@,
            None => r@ == Seq::<char>::empty(),
        },
{
    match config {
        Some(c) => c.image_ref.clone(),
        None => String::new(),
    }
}

/// What follows from a command that the hypervisor has dealt with.
pub struct Outcome {
    /// What is broadcast, if anything.
    pub event: Option<VmEventWrapper>,
    /// Whether the health of the virtual machine is monitored from now on.
    pub monitor: bool,
    /// What the client is answered.
    pub answer: Result<(), RpcStatus>,
}

/// Whether an outcome follows: success is broadcast as a new state, and an error is
/// only answered.
pub open spec fn follows(
    o: Outcome,
    vm_id: Seq<char>,
    result: Result<(), VmmError>,
    state: VmState,
    reason: Seq<char>,
    monitor: bool,
) -> bool {
    match result {
        Ok(_) => {
            &&& o.event matches Some(w) && announces(w, vm_id, state, reason, None)
            &&& o.monitor == monitor
            &&& o.answer == Ok::<(), RpcStatus>(())
        },
        Err(e) => {
            &&& o.event is None
            &&& !o.monitor
            &&& o.answer matches Err(s) && s.says(e.code(), e.detail())
        },
    }
}

fn outcome(
    vm_id: &str,
    result: Result<(), VmmError>,
    state: VmState,
    reason: &str,
    monitor: bool,
) -> (o: Outcome)
    ensures
        follows(o, vm_id@, result, state, reason@, monitor),
{
    match result {
        Ok(_) => Outcome {
            event: Some(announce(vm_id, state, reason.to_owned(), None)),
            monitor,
            answer: Ok(()),
        },
        Err(e) => Outcome { event: None, monitor: false, answer: Err(e.into_status()) },
    }
}

/// What follows from a start: a started virtual machine runs, and its health is
/// monitored.
pub fn handle_start_vm(vm_id: &str, result: Result<(), VmmError>) -> (o: Outcome)
    ensures
        follows(o, vm_id@, result, VmState::Running, "Start command successful"@, true),
{
    outcome(vm_id, result, VmState::Running, "Start command successful", true)
}

/// What follows from a shutdown.
pub fn handle_shutdown_vm(vm_id: &str, result: Result<(), VmmError>) -> (o: Outcome)
    ensures
        follows(o, vm_id@, result, VmState::Stopped, "Shutdown command successful"@, false),
{
    outcome(vm_id, result, VmState::Stopped, "Shutdown command successful", false)
}

/// What follows from a pause.
pub fn handle_pause_vm(vm_id: &str, result: Result<(), VmmError>) -> (o: Outcome)
    ensures
        follows(o, vm_id@, result, VmState::Paused, "Pause command successful"@, false),
{
    outcome(vm_id, result, VmState::Paused, "Pause command successful", false)
}

/// What follows from a resumption.
pub fn handle_resume_vm(vm_id: &str, result: Result<(), VmmError>) -> (o: Outcome)
    ensures
        follows(o, vm_id@, result, VmState::Running, "Resume command successful"@, false),
{
    outcome(vm_id, result, VmState::Running, "Resume command successful", false)
}

/// What the client is answered from what the hypervisor said.
pub open spec fn answered<T>(result: Result<T, VmmError>, r: Result<T, RpcStatus>) -> bool {
    match result {
        Ok(t) => r == Ok::<T, RpcStatus>(t),
        Err(e) => r matches Err(s) && s.says(e.code(), e.detail()),
    }
}

fn answer<T>(result: Result<T, VmmError>) -> (r: Result<T, RpcStatus>)
    ensures
        answered(result, r),
{
    match result {
        Ok(t) => Ok(t),
        Err(e) => Err(e.into_status()),
    }
}

/// What the client is answered who asks the hypervisor for a virtual machine.
pub fn handle_get_vm(result: Result<VmInfo, VmmError>) -> (r: Result<VmInfo, RpcStatus>)
    ensures
        answered(result, r),
{
    answer(result)
}

/// What the client is answered who pings a hypervisor.
pub fn handle_ping_vm(result: Result<PingVmResponse, VmmError>) -> (r: Result<
    PingVmResponse,
    RpcStatus,
>)
    ensures
        answered(result, r),
{
    answer(result)
}

/// What the client is answered who adds a disk.
pub fn handle_attach_disk(result: Result<(), VmmError>) -> (r: Result<(), RpcStatus>)
    ensures
        answered(result, r),
{
    answer(result)
}

/// What the client is answered who removes a disk.
pub fn handle_remove_disk(result: Result<(), VmmError>) -> (r: Result<(), RpcStatus>)
    ensures
        answered(result, r),
{
    answer(result)
}

/// What is left of a deletion once the hypervisor has dealt with it.
pub struct DeleteOutcome {
    /// The image that the image service is asked to delete, if any.
    pub delete_image: Option<String>,
    /// What the client is answered, whatever comes of the image.
    pub answer: Result<(), RpcStatus>,
}

/// What is left of a deletion once the hypervisor has dealt with it: the image of
/// the virtual machine goes too, where one is known.
pub fn handle_delete_vm(image_uuid: String, result: Result<(), VmmError>) -> (o: DeleteOutcome)
    ensures
        o.delete_image == (if image_uuid@.len() > 0 {
            Some(image_uuid)
        } else {
            None
        }),
        answered(result, o.answer),
{
    DeleteOutcome {
        delete_image: if image_uuid.as_str().is_empty() {
            None
        } else {
            Some(image_uuid)
        },
        answer: answer(result),
    }
}

} // verus!
