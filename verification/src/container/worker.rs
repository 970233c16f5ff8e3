//! The workers of the container service. A worker goes in steps: each step names
//! the next thing to do outside, and its result leads to the next step.
use crate::container::error::ContainerServiceError;
use crate::container::persistence::PersistenceError;
use crate::container::runtime::AdapterError;
use crate::container::{
    ContainerConfig, ContainerState, CreateContainerResponse, DeleteContainerRequest, StartContainerRequest,
    StopContainerRequest,
};
use crate::ids;
use crate::image::{ImageState, IMAGE_DIR};
use crate::text;
use vstd::prelude::*;

verus! {

/// What a wait for an image has come to.
pub enum WatchEvent {
    /// The image service could not be reached, and why.
    NotConnected(ContainerServiceError),
    /// The image service refused to have the image watched.
    NotWatched(String),
    /// The image has this state, with this message.
    Status(ImageState, String),
    /// The watch failed.
    Broken(String),
    /// The watch ended.
    Ended,
}

/// What a wait for an image comes to after an event: nothing while the image is
/// still on its way.
pub open spec fn image_waited(
    image_uuid: Seq<char>,
    image_ref: Seq<char>,
    event: WatchEvent,
    r: Option<Result<(), ContainerServiceError>>,
) -> bool {
    match event {
        WatchEvent::NotConnected(e) => r matches Some(Err(ContainerServiceError::ImageService(m)))
            && m@ == "Failed to connect: "@ + e.text(),
        WatchEvent::NotWatched(e) => r matches Some(Err(ContainerServiceError::ImageService(m)))
            && m@ == "WatchImageStatus RPC failed for "@ + image_uuid + ": "@ + e@,
        WatchEvent::Broken(e) => r matches Some(Err(ContainerServiceError::ImageService(m))) && m@
            == "Image stream error for "@ + image_uuid + ": "@ + e@,
        WatchEvent::Status(ImageState::Ready, _) => r == Some(Ok::<(), ContainerServiceError>(())),
        WatchEvent::Status(ImageState::PullFailed, why) => r matches Some(
            Err(ContainerServiceError::ImageService(m)),
        ) && m@ == "Image pull failed for "@ + image_ref + " (uuid: "@ + image_uuid + "): "@
            + why@,
        WatchEvent::Status(_, _) => r is None,
        WatchEvent::Ended => r matches Some(Err(ContainerServiceError::ImageService(m))) && m@
            == "Image watch stream for "@ + image_uuid
            + " ended before reaching a terminal state."@,
    }
}

/// What a wait for an image comes to after an event.
pub fn wait_for_image_ready(image_uuid: &str, image_ref: &str, event: WatchEvent) -> (r: Option<
    Result<(), ContainerServiceError>,
>)
    ensures
        image_waited(image_uuid@, image_ref@, event, r),
{
    let message = match event {
        WatchEvent::NotConnected(e) => text::cat2("Failed to connect: ", e.message().as_str()),
        WatchEvent::NotWatched(e) => text::cat4(
            "WatchImageStatus RPC failed for ",
            image_uuid,
            ": ",
            e.as_str(),
        ),
        WatchEvent::Broken(e) => text::cat4(
            "Image stream error for ",
            image_uuid,
            ": ",
            e.as_str(),
        ),
        WatchEvent::Status(state, why) => match state {
            ImageState::Ready => {
                return Some(Ok(()));
            },
            ImageState::PullFailed => text::cat2(
                text::cat5(
                    "Image pull failed for ",
                    image_ref,
                    " (uuid: ",
                    image_uuid,
                    "): ",
                ).as_str(),
                why.as_str(),
            ),
            ImageState::Unspecified => {
                return None;
            },
            ImageState::Downloading => {
                return None;
            },
        },
        WatchEvent::Ended => text::cat3(
            "Image watch stream for ",
            image_uuid,
            " ended before reaching a terminal state.",
        ),
    };
    Some(Err(ContainerServiceError::ImageService(message)))
}

/// How far the creation of a container has come.
pub enum CreateProgress {
    Accepted,
    /// Whether the answer reached the client.
    Answered(bool),
    /// What the wait for the image came to.
    ImageWaited(Result<(), ContainerServiceError>),
    /// The process of the created container, or why there is none.
    RuntimeCreated(Result<i64, AdapterError>),
    /// The process was stored, or could not be stored.
    PidStored,
    /// The last step was taken.
    Finished,
}

/// What to do next to create a container.
pub enum CreateAction {
    /// Answer the client.
    Answer(CreateContainerResponse),
    /// Wait until the image of this identifier is ready.
    WaitForImage { image_uuid: String, image_ref: String },
    /// Have the runtime create the container from a bundle, as it was asked for.
    CreateInRuntime { container_id: String, bundle_path: String, config: ContainerConfig },
    /// Store the process of the container.
    StorePid { id: u128, pid: i64 },
    /// Store the state of the container.
    StoreState { id: u128, state: ContainerState },
    /// Remove the record of the container.
    DeleteRecord { id: u128 },
    /// Nothing is left to do.
    Done,
}

/// The next step of a container's creation; `config` is the configuration that is
/// stored for it.
pub open spec fn create_next(
    container_id: u128,
    image_uuid: u128,
    config: ContainerConfig,
    progress: CreateProgress,
    action: CreateAction,
) -> bool {
    match progress {
        CreateProgress::Accepted => action matches CreateAction::Answer(response)
            && response.container_id@ == ids::hyphenated(container_id),
        CreateProgress::Answered(false) => action == (CreateAction::DeleteRecord {
            id: container_id,
        }),
        CreateProgress::Answered(true) => action matches CreateAction::WaitForImage {
            image_uuid: u,
            image_ref: r,
        } && u@ == ids::hyphenated(image_uuid) && r@ == config.image_ref@,
        CreateProgress::ImageWaited(Err(_)) => action == (CreateAction::DeleteRecord {
            id: container_id,
        }),
        CreateProgress::ImageWaited(Ok(_)) => action matches CreateAction::CreateInRuntime {
            container_id: c,
            bundle_path: b,
            config: handed,
        } && handed.same(config) && c@ == ids::hyphenated(container_id) && b@ == text::joined(
            IMAGE_DIR@,
            ids::hyphenated(image_uuid),
        ),
        CreateProgress::RuntimeCreated(Ok(pid)) => action == (CreateAction::StorePid {
            id: container_id,
            pid,
        }),
        CreateProgress::RuntimeCreated(Err(_)) => action == (CreateAction::DeleteRecord {
            id: container_id,
        }),
        CreateProgress::PidStored => action == (CreateAction::StoreState {
            id: container_id,
            state: ContainerState::Created,
        }),
        CreateProgress::Finished => action == CreateAction::Done,
    }
}

/// The next step of a container's creation: the client is answered first, then the
/// image is awaited, the runtime creates the container as it was asked for, and its
/// process and state are stored. Where one of these fails, the record is removed.
pub fn handle_create_container(
    container_id: u128,
    image_uuid: u128,
    config: &ContainerConfig,
    progress: CreateProgress,
) -> (action: CreateAction)
    ensures
        create_next(container_id, image_uuid, *config, progress, action),
{
    match progress {
        CreateProgress::Accepted => CreateAction::Answer(
            CreateContainerResponse { container_id: ids::id_text(container_id) },
        ),
        CreateProgress::Answered(delivered) => if delivered {
            CreateAction::WaitForImage {
                image_uuid: ids::id_text(image_uuid),
                image_ref: config.image_ref.clone(),
            }
        } else {
            CreateAction::DeleteRecord { id: container_id }
        },
        CreateProgress::ImageWaited(waited) => match waited {
            Err(_) => CreateAction::DeleteRecord { id: container_id },
            Ok(_) => CreateAction::CreateInRuntime {
                container_id: ids::id_text(container_id),
                bundle_path: text::path_join(IMAGE_DIR, ids::id_text(image_uuid).as_str()),
                config: config.copy(),
            },
        },
        CreateProgress::RuntimeCreated(created) => match created {
            Ok(pid) => CreateAction::StorePid { id: container_id, pid },
            Err(_) => CreateAction::DeleteRecord { id: container_id },
        },
        CreateProgress::PidStored => CreateAction::StoreState {
            id: container_id,
            state: ContainerState::Created,
        },
        CreateProgress::Finished => CreateAction::Done,
    }
}

/// How far a command on an existing container has come.
pub enum TaskProgress {
    Accepted,
    /// What the runtime made of it.
    RuntimeDone(Result<(), AdapterError>),
    /// What the database made of it.
    Stored(Result<(), PersistenceError>),
}

/// What to do next for a command on an existing container.
pub enum TaskAction {
    /// Have the runtime start the container.
    Start { container_id: String },
    /// Have the runtime send a signal to the container.
    Kill { container_id: String, signal: u32 },
    /// Have the runtime delete the container.
    Delete { container_id: String },
    /// Store the state of the container.
    StoreState { id: u128, state: ContainerState },
    /// Remove the record of the container.
    DeleteRecord { id: u128 },
    /// Answer the client.
    Answer(Result<(), ContainerServiceError>),
}

/// The answer once the runtime has failed.
pub open spec fn runtime_failed(e: AdapterError, action: TaskAction) -> bool {
    action matches TaskAction::Answer(Err(ContainerServiceError::Adapter(m))) && m@ == e.text()
}

/// The answer once the database was asked.
pub open spec fn stored_answer(stored: Result<(), PersistenceError>, action: TaskAction) -> bool {
    match stored {
        Ok(_) => action == TaskAction::Answer(Ok(())),
        Err(e) => action == TaskAction::Answer(Err(ContainerServiceError::Persistence(e))),
    }
}

fn answer_stored(stored: Result<(), PersistenceError>) -> (action: TaskAction)
    ensures
        stored_answer(stored, action),
{
    match stored {
        Ok(_) => TaskAction::Answer(Ok(())),
        Err(e) => TaskAction::Answer(Err(ContainerServiceError::Persistence(e))),
    }
}

/// The next step of a start.
pub open spec fn start_next(
    id: u128,
    req: StartContainerRequest,
    progress: TaskProgress,
    action: TaskAction,
) -> bool {
    match progress {
        TaskProgress::Accepted => action matches TaskAction::Start { container_id } && container_id@
            == req.container_id@,
        TaskProgress::RuntimeDone(Ok(_)) => action == (TaskAction::StoreState {
            id,
            state: ContainerState::Running,
        }),
        TaskProgress::RuntimeDone(Err(e)) => runtime_failed(e, action),
        TaskProgress::Stored(stored) => stored_answer(stored, action),
    }
}

/// The next step of a stop.
pub open spec fn stop_next(
    id: u128,
    req: StopContainerRequest,
    progress: TaskProgress,
    action: TaskAction,
) -> bool {
    match progress {
        TaskProgress::Accepted => action matches TaskAction::Kill { container_id, signal }
            && container_id@ == req.container_id@ && signal == (match req.signal {
            Some(n) => n,
            None => 9,
        }),
        TaskProgress::RuntimeDone(Ok(_)) => action == (TaskAction::StoreState {
            id,
            state: ContainerState::Stopped,
        }),
        TaskProgress::RuntimeDone(Err(e)) => runtime_failed(e, action),
        TaskProgress::Stored(stored) => stored_answer(stored, action),
    }
}

/// The next step of a deletion.
pub open spec fn delete_next(
    id: u128,
    req: DeleteContainerRequest,
    progress: TaskProgress,
    action: TaskAction,
) -> bool {
    match progress {
        TaskProgress::Accepted => action matches TaskAction::Delete { container_id }
            && container_id@ == req.container_id@,
        TaskProgress::RuntimeDone(Ok(_)) => action == (TaskAction::DeleteRecord { id }),
        TaskProgress::RuntimeDone(Err(e)) => runtime_failed(e, action),
        TaskProgress::Stored(stored) => stored_answer(stored, action),
    }
}

/// The next step of a start: the runtime starts the container, which then counts
/// as running.
pub fn handle_start_container(
    id: u128,
    req: &StartContainerRequest,
    progress: TaskProgress,
) -> (action: TaskAction)
    ensures
        start_next(id, *req, progress, action),
{
    match progress {
        TaskProgress::Accepted => TaskAction::Start { container_id: req.container_id.clone() },
        TaskProgress::RuntimeDone(done) => match done {
            Ok(_) => TaskAction::StoreState { id, state: ContainerState::Running },
            Err(e) => TaskAction::Answer(Err(ContainerServiceError::Adapter(e.message()))),
        },
        TaskProgress::Stored(stored) => answer_stored(stored),
    }
}

/// The next step of a stop: the runtime sends the signal that was asked for, or
/// signal 9, and the container then counts as stopped.
pub fn handle_stop_container(
    id: u128,
    req: &StopContainerRequest,
    progress: TaskProgress,
) -> (action: TaskAction)
    ensures
        stop_next(id, *req, progress, action),
{
    match progress {
        TaskProgress::Accepted => TaskAction::Kill {
            container_id: req.container_id.clone(),
            signal: match req.signal {
                Some(n) => n,
                None => 9,
            },
        },
        TaskProgress::RuntimeDone(done) => match done {
            Ok(_) => TaskAction::StoreState { id, state: ContainerState::Stopped },
            Err(e) => TaskAction::Answer(Err(ContainerServiceError::Adapter(e.message()))),
        },
        TaskProgress::Stored(stored) => answer_stored(stored),
    }
}

/// The next step of a deletion: the runtime deletes the container, and then its
/// record is removed.
pub fn handle_delete_container(
    id: u128,
    req: &DeleteContainerRequest,
    progress: TaskProgress,
) -> (action: TaskAction)
    ensures
        delete_next(id, *req, progress, action),
{
    match progress {
        TaskProgress::Accepted => TaskAction::Delete { container_id: req.container_id.clone() },
        TaskProgress::RuntimeDone(done) => match done {
            Ok(_) => TaskAction::DeleteRecord { id },
            Err(e) => TaskAction::Answer(Err(ContainerServiceError::Adapter(e.message()))),
        },
        TaskProgress::Stored(stored) => answer_stored(stored),
    }
}

} // verus!
