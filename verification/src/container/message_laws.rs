//! What clients of the container service are told when something goes wrong, word by word.
use crate::container::dispatcher::{accept_container_id, Dispatcher, Pending, Progress, Step};
use crate::container::error::ContainerServiceError;
use crate::container::persistence::{ContainerRecord, DatabaseError, PersistenceError};
use crate::container::worker::{wait_for_image_ready, WatchEvent};
use crate::container::{
    stream_container_events, stream_container_logs, ContainerConfig, ContainerState,
    DeleteContainerRequest, StartContainerRequest, StopContainerRequest,
};
use crate::ids;
use crate::image::ImageState;
use crate::rpc::{Code, RpcStatus};
use vstd::prelude::*;

verus! {

/// What the errors of the service and of its database read as.
pub proof fn errors_say_what_failed(
    e: ContainerServiceError,
    m: String,
    p: PersistenceError,
    stored: String,
)
    requires
        call_ensures(ContainerServiceError::message, (&e,), m),
        call_ensures(PersistenceError::message, (&p,), stored),
    ensures
        e == ContainerServiceError::Persistence(p) ==> m@ == "Persistence Error: "@ + stored@,
        e matches ContainerServiceError::ImageService(why) ==> m@ == "Image Service Error: "@
            + why@,
        e matches ContainerServiceError::TaskService(why) ==> m@ == "Task Service Error: "@ + why@,
        e matches ContainerServiceError::Adapter(why) ==> m@ == "Runtime adapter error: "@ + why@,
        e matches ContainerServiceError::InvalidArgument(why) ==> m@ == "Invalid argument: "@
            + why@,
        e matches ContainerServiceError::AlreadyExists(id) ==> m@ == "Container with ID "@ + id@
            + " already exists"@,
        e matches ContainerServiceError::InvalidState(why) ==> m@
            == "Invalid container state for operation: "@ + why@,
        p is Database ==> stored@ == "A database error occurred"@,
        p is Migration ==> stored@ == "Database migration failed"@,
        p is Decode ==> stored@ == "Failed to decode ContainerConfig blob"@,
        p is Encode ==> stored@ == "Failed to encode ContainerConfig blob"@,
        p matches PersistenceError::InvalidStateString(s) ==> stored@ == "Invalid state string '"@
            + s@ + "' in database"@,
{
}

/// What a client is answered of each error: of the database only whether the record is missing, of
/// the other services what they said, and of its own mistakes the bare reason.
pub proof fn answers_tell_what_clients_may_know(e: ContainerServiceError, s: RpcStatus)
    requires
        call_ensures(ContainerServiceError::into_status, (e,), s),
    ensures
        e == ContainerServiceError::Persistence(
            PersistenceError::Database(DatabaseError::RowNotFound),
        ) ==> s.code == Code::NotFound && s.message@ == "Record not found in database"@,
        e is Persistence && e != ContainerServiceError::Persistence(
            PersistenceError::Database(DatabaseError::RowNotFound),
        ) ==> s.code == Code::Internal && s.message@ == "A database error occurred"@,
        e matches ContainerServiceError::ImageService(m) ==> s.code == Code::Unavailable
            && s.message@ == "Image service unavailable: "@ + m@,
        e matches ContainerServiceError::TaskService(m) ==> s.code == Code::Unavailable
            && s.message@ == "Task service unavailable: "@ + m@,
        e matches ContainerServiceError::Adapter(m) ==> s.code == Code::Internal && s.message@
            == "Runtime adapter error: "@ + m@,
        e matches ContainerServiceError::InvalidArgument(m) ==> s.code == Code::InvalidArgument
            && s.message@ == m@,
        e matches ContainerServiceError::AlreadyExists(m) ==> s.code == Code::AlreadyExists
            && s.message@ == m@,
        e matches ContainerServiceError::InvalidState(m) ==> s.code == Code::FailedPrecondition
            && s.message@ == m@,
{
}

/// A command that the state of a container does not allow is refused by the name of the command
/// and of the state.
pub proof fn refusals_name_command_and_state(
    id: u128,
    record: ContainerRecord,
    name: &'static str,
    start: StartContainerRequest,
    started: Step,
    stop: StopContainerRequest,
    stopped: Step,
    delete: DeleteContainerRequest,
    deleted: Step,
)
    requires
        call_ensures(ContainerState::name, (record.status.state,), name),
        call_ensures(
            Dispatcher::handle_command,
            (
                Progress::LookedUp { id, pending: Pending::Start(start), found: Ok(Some(record)) },
            ),
            started,
        ),
        call_ensures(
            Dispatcher::handle_command,
            (Progress::LookedUp { id, pending: Pending::Stop(stop), found: Ok(Some(record)) },),
            stopped,
        ),
        call_ensures(
            Dispatcher::handle_command,
            (
                Progress::LookedUp {
                    id,
                    pending: Pending::Delete(delete),
                    found: Ok(Some(record)),
                },
            ),
            deleted,
        ),
    ensures
        record.status.state != ContainerState::Created ==> (started matches Step::Refuse(
            ContainerServiceError::InvalidState(m),
        ) && m@ == "Cannot start container in state "@ + name@),
        record.status.state != ContainerState::Running ==> (stopped matches Step::Refuse(
            ContainerServiceError::InvalidState(m),
        ) && m@ == "Cannot stop container in state "@ + name@),
        record.status.state == ContainerState::Running ==> (deleted matches Step::Refuse(
            ContainerServiceError::InvalidState(m),
        ) && m@ == "Cannot delete container in state "@ + name@ + ". Stop it first."@),
{
}

/// A command with a name that is none, a creation without a configuration, of a container that
/// exists already, or whose image has no name, is refused with these words.
pub proof fn refused_arguments_are_told_why(
    why: String,
    pending: Pending,
    unnamed: Step,
    id: u128,
    unread: Result<u128, ContainerServiceError>,
    config: ContainerConfig,
    unpulled: Step,
    wanted: Option<ContainerConfig>,
    record: ContainerRecord,
    taken: Step,
    bare: Step,
)
    requires
        call_ensures(Dispatcher::look_up_parsed, (Err(why), pending), unnamed),
        call_ensures(accept_container_id, (Err(why),), unread),
        call_ensures(Dispatcher::begin_record, (id, config, Err(why)), unpulled),
        call_ensures(
            Dispatcher::handle_command,
            (
                Progress::LookedUp {
                    id,
                    pending: Pending::Create(wanted),
                    found: Ok(Some(record)),
                },
            ),
            taken,
        ),
        call_ensures(
            Dispatcher::handle_command,
            (Progress::LookedUp { id, pending: Pending::Create(None), found: Ok(None) },),
            bare,
        ),
    ensures
        unnamed matches Step::Refuse(ContainerServiceError::InvalidArgument(m)) && m@
            == "Invalid UUID format"@,
        unread matches Err(ContainerServiceError::InvalidArgument(m)) && m@
            == "Invalid container_id UUID format."@,
        unpulled matches Step::Abandon(ContainerServiceError::ImageService(m)) && m@
            == "Invalid image UUID: "@ + why@,
        taken matches Step::Refuse(ContainerServiceError::AlreadyExists(m)) && m@
            == ids::hyphenated(id),
        bare matches Step::Abandon(ContainerServiceError::InvalidArgument(m)) && m@
            == "ContainerConfig is required"@,
{
}

/// A wait for an image that fails says at which step, for which image and why.
pub proof fn failed_waits_name_the_image(
    image_uuid: &str,
    image_ref: &str,
    event: WatchEvent,
    r: Option<Result<(), ContainerServiceError>>,
    e: ContainerServiceError,
    told: String,
)
    requires
        call_ensures(wait_for_image_ready, (image_uuid, image_ref, event), r),
        call_ensures(ContainerServiceError::message, (&e,), told),
    ensures
        event == WatchEvent::NotConnected(e) ==> (r matches Some(
            Err(ContainerServiceError::ImageService(m)),
        ) && m@ == "Failed to connect: "@ + told@),
        event matches WatchEvent::NotWatched(why) ==> (r matches Some(
            Err(ContainerServiceError::ImageService(m)),
        ) && m@ == "WatchImageStatus RPC failed for "@ + image_uuid@ + ": "@ + why@),
        event matches WatchEvent::Broken(why) ==> (r matches Some(
            Err(ContainerServiceError::ImageService(m)),
        ) && m@ == "Image stream error for "@ + image_uuid@ + ": "@ + why@),
        event matches WatchEvent::Status(ImageState::PullFailed, why) ==> (r matches Some(
            Err(ContainerServiceError::ImageService(m)),
        ) && m@ == "Image pull failed for "@ + image_ref@ + " (uuid: "@ + image_uuid@ + "): "@
            + why@),
        event is Ended ==> (r matches Some(Err(ContainerServiceError::ImageService(m))) && m@
            == "Image watch stream for "@ + image_uuid@
            + " ended before reaching a terminal state."@),
{
}

/// Logs and events of containers are not streamed, and this is said.
pub proof fn streams_are_not_offered(logs: RpcStatus, events: RpcStatus)
    requires
        call_ensures(stream_container_logs, (), logs),
        call_ensures(stream_container_events, (), events),
    ensures
        logs.code == Code::Unimplemented && logs.message@ == "Not yet implemented"@,
        events.code == Code::Unimplemented && events.message@ == "Not yet implemented"@,
{
}

} // verus!
