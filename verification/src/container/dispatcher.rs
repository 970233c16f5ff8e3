//! The decisions of the container dispatcher. A command is handled in steps: each
//! step names the next thing to do outside, and its result leads to the next step.
use crate::container::error::ContainerServiceError;
use crate::container::persistence::{ContainerRecord, ContainerStatus, PersistenceError};
use crate::container::{
    Command, ContainerConfig, ContainerInfo, ContainerState, DeleteContainerRequest,
    GetContainerRequest, ListContainersResponse, StartContainerRequest, StopContainerRequest,
};
use crate::ids;
use crate::text;
use vstd::prelude::*;

verus! {

/// A command whose container is being looked up.
pub enum Pending {
    Create(Option<ContainerConfig>),
    Start(StartContainerRequest),
    Stop(StopContainerRequest),
    Delete(DeleteContainerRequest),
    Get(GetContainerRequest),
}

/// How far a command has come, and what the last step gave.
pub enum Progress {
    Received(Command),
    LookedUp { id: u128, pending: Pending, found: Result<Option<ContainerRecord>, PersistenceError> },
    Listed(Result<Vec<ContainerRecord>, PersistenceError>),
    Pulled { id: u128, config: ContainerConfig, image: Result<String, ContainerServiceError> },
    Saved { record: ContainerRecord, stored: Result<(), PersistenceError> },
}

/// Work that goes on after the dispatcher is done with a command.
pub enum Job {
    /// Create a container of the configuration that is stored for it.
    Create { container_id: u128, image_uuid: u128, config: ContainerConfig },
    Start(u128, StartContainerRequest),
    Stop(u128, StopContainerRequest),
    Delete(u128, DeleteContainerRequest),
}

/// What to do next for a command.
pub enum Step {
    /// Look the container up in the database.
    LookUp { id: u128, pending: Pending },
    /// Read all containers from the database.
    ListAll,
    /// Ask the image service to pull the image of the configuration.
    Pull { id: u128, config: ContainerConfig },
    /// Store the record.
    Save(ContainerRecord),
    /// Hand the command to a worker.
    Work(Job),
    /// Answer with what is known of one container.
    Info(ContainerInfo),
    /// Answer with what is known of all containers.
    Containers(ListContainersResponse),
    /// Answer with an error.
    Refuse(ContainerServiceError),
    /// Give the command up without an answer.
    Abandon(ContainerServiceError),
}

/// What came of asking the image service for an image.
pub enum PullOutcome {
    /// The image service could not be reached.
    NotConnected(String),
    /// The image service refused; what its status reads as.
    Failed(String),
    /// The identifier of the image being pulled.
    Started(String),
}

/// The identifier of the image being pulled, or why there is none.
pub fn initiate_image_pull(image_ref: &str, outcome: PullOutcome) -> (r: Result<
    String,
    ContainerServiceError,
>)
    ensures
        match outcome {
            PullOutcome::NotConnected(e) => r == Err::<String, ContainerServiceError>(
                ContainerServiceError::ImageService(e),
            ),
            PullOutcome::Failed(status) => r matches Err(ContainerServiceError::ImageService(m))
                && m@ == "PullImage RPC failed for "@ + image_ref@ + ": "@ + status@,
            PullOutcome::Started(id) => r == Ok::<String, ContainerServiceError>(id),
        },
{
    match outcome {
        PullOutcome::NotConnected(e) => Err(ContainerServiceError::ImageService(e)),
        PullOutcome::Failed(status) => Err(
            ContainerServiceError::ImageService(
                text::cat4("PullImage RPC failed for ", image_ref, ": ", status.as_str()),
            ),
        ),
        PullOutcome::Started(id) => Ok(id),
    }
}

/// Whether an error says that an argument is wrong, and how.
pub open spec fn is_bad_argument(e: ContainerServiceError, message: Seq<char>) -> bool {
    e matches ContainerServiceError::InvalidArgument(m) && m@ == message
}

/// Whether an error says that the container's state does not allow a command.
pub open spec fn is_bad_state(e: ContainerServiceError, message: Seq<char>) -> bool {
    e matches ContainerServiceError::InvalidState(m) && m@ == message
}

/// Whether the request for a container names it.
pub open spec fn names_container(container_id: Option<String>) -> bool {
    container_id matches Some(s) && s@.len() > 0
}

/// The identifier that was asked for, given what it was read as.
pub fn accept_container_id(parsed: Result<u128, String>) -> (r: Result<u128, ContainerServiceError>)
    ensures
        match parsed {
            Ok(id) => r == Ok::<u128, ContainerServiceError>(id),
            Err(_) => r matches Err(e) && is_bad_argument(e, "Invalid container_id UUID format."@),
        },
{
    match parsed {
        Ok(id) => Ok(id),
        Err(_) => Err(
            ContainerServiceError::InvalidArgument("Invalid container_id UUID format.".to_owned()),
        ),
    }
}

/// The identifier of a container to be created: the one asked for, or a fresh one.
pub fn choose_container_id(container_id: &Option<String>, fresh: u128) -> (r: Result<
    u128,
    ContainerServiceError,
>)
    ensures
        if names_container(*container_id) {
            match ids::uuid_parsed(container_id->Some_0@) {
                Ok(id) => r == Ok::<u128, ContainerServiceError>(id),
                Err(_) => r matches Err(e) && is_bad_argument(
                    e,
                    "Invalid container_id UUID format."@,
                ),
            }
        } else {
            r == Ok::<u128, ContainerServiceError>(fresh)
        },
{
    match container_id {
        Some(s) => if s.as_str().is_empty() {
            Ok(fresh)
        } else {
            accept_container_id(ids::id_of(s.as_str()))
        },
        None => Ok(fresh),
    }
}

/// Why a named container could not be looked up.
pub open spec fn lookup_refused(
    id_str: Seq<char>,
    found: Result<Option<ContainerRecord>, PersistenceError>,
    e: ContainerServiceError,
) -> bool {
    match found {
        Err(p) => e == ContainerServiceError::Persistence(p),
        Ok(None) => is_bad_argument(e, "Container '"@ + id_str + "' not found"@),
        Ok(Some(_)) => false,
    }
}

/// What is known of a container.
pub open spec fn describes(info: ContainerInfo, record: ContainerRecord) -> bool {
    &&& info.container_id@ == ids::hyphenated(record.container_id)
    &&& info.state == record.status.state
    &&& info.config == Some(record.config)
    &&& info.pid == record.status.process_id
    &&& info.exit_code is None
}

/// Only a created container can be started.
pub open spec fn can_start(state: ContainerState) -> bool {
    state == ContainerState::Created
}

/// Only a running container can be stopped.
pub open spec fn can_stop(state: ContainerState) -> bool {
    state == ContainerState::Running
}

/// Any container that does not run can be deleted.
pub open spec fn can_delete(state: ContainerState) -> bool {
    state != ContainerState::Running
}

/// The first step of a command.
pub open spec fn first_step(cmd: Command, step: Step) -> bool {
    match cmd {
        Command::CreateContainer(req) => if names_container(req.container_id) {
            match ids::uuid_parsed(req.container_id->Some_0@) {
                Ok(id) => step == (Step::LookUp { id, pending: Pending::Create(req.config) }),
                Err(_) => step matches Step::Abandon(e) && is_bad_argument(
                    e,
                    "Invalid container_id UUID format."@,
                ),
            }
        } else {
            step matches Step::LookUp { id, pending } && ids::is_random_form(id) && pending
                == Pending::Create(req.config)
        },
        Command::StartContainer(req) => looks_up(req.container_id@, Pending::Start(req), step),
        Command::StopContainer(req) => looks_up(req.container_id@, Pending::Stop(req), step),
        Command::DeleteContainer(req) => looks_up(req.container_id@, Pending::Delete(req), step),
        Command::GetContainer(req) => looks_up(req.container_id@, Pending::Get(req), step),
        Command::ListContainers => step == Step::ListAll,
    }
}

/// A named container is looked up; a malformed name is refused.
pub open spec fn looks_up(id_str: Seq<char>, pending: Pending, step: Step) -> bool {
    match ids::uuid_parsed(id_str) {
        Ok(id) => step == (Step::LookUp { id, pending }),
        Err(_) => step matches Step::Refuse(e) && is_bad_argument(e, "Invalid UUID format"@),
    }
}

/// The step after a container was looked up.
pub open spec fn step_after_lookup(
    id: u128,
    pending: Pending,
    found: Result<Option<ContainerRecord>, PersistenceError>,
    step: Step,
) -> bool {
    match pending {
        Pending::Create(config) => match found {
            Err(e) => step == Step::Abandon(ContainerServiceError::Persistence(e)),
            Ok(Some(_)) => step matches Step::Refuse(ContainerServiceError::AlreadyExists(m))
                && m@ == ids::hyphenated(id),
            Ok(None) => match config {
                None => step matches Step::Abandon(e) && is_bad_argument(
                    e,
                    "ContainerConfig is required"@,
                ),
                Some(c) => step == (Step::Pull { id, config: c }),
            },
        },
        Pending::Start(req) => match found {
                Ok(Some(rec)) => if can_start(rec.status.state) {
                    step == Step::Work(Job::Start(id, req))
                } else {
                    step matches Step::Refuse(e) && is_bad_state(
                        e,
                        "Cannot start container in state "@ + rec.status.state.label(),
                    )
                },
                _ => step matches Step::Refuse(e) && lookup_refused(req.container_id@, found, e),
            },
        Pending::Stop(req) => match found {
                Ok(Some(rec)) => if can_stop(rec.status.state) {
                    step == Step::Work(Job::Stop(id, req))
                } else {
                    step matches Step::Refuse(e) && is_bad_state(
                        e,
                        "Cannot stop container in state "@ + rec.status.state.label(),
                    )
                },
                _ => step matches Step::Refuse(e) && lookup_refused(req.container_id@, found, e),
            },
        Pending::Delete(req) => match found {
                Ok(Some(rec)) => if can_delete(rec.status.state) {
                    step == Step::Work(Job::Delete(id, req))
                } else {
                    step matches Step::Refuse(e) && is_bad_state(
                        e,
                        "Cannot delete container in state "@ + rec.status.state.label()
                            + ". Stop it first."@,
                    )
                },
                _ => step matches Step::Refuse(e) && lookup_refused(req.container_id@, found, e),
            },
        Pending::Get(req) => match found {
                Ok(Some(rec)) => step matches Step::Info(info) && describes(info, rec),
                _ => step matches Step::Refuse(e) && lookup_refused(req.container_id@, found, e),
            },
    }
}

/// The step after all containers were read.
pub open spec fn step_after_list(
    listed: Result<Vec<ContainerRecord>, PersistenceError>,
    step: Step,
) -> bool {
    match listed {
        Err(e) => step == Step::Refuse(ContainerServiceError::Persistence(e)),
        Ok(records) => step matches Step::Containers(list) && list.containers@.len()
            == records@.len() && forall|i: int|
            0 <= i < records@.len() ==> describes(#[trigger] list.containers@[i], records@[i]),
    }
}

/// The step after the image service answered.
pub open spec fn step_after_pull(
    id: u128,
    config: ContainerConfig,
    image: Result<String, ContainerServiceError>,
    step: Step,
) -> bool {
    match image {
        Err(e) => step == Step::Abandon(e),
        Ok(s) => match ids::uuid_parsed(s@) {
            Err(why) => step matches Step::Abandon(ContainerServiceError::ImageService(m)) && m@
                == "Invalid image UUID: "@ + why,
            Ok(image_uuid) => step == Step::Save(
                ContainerRecord {
                    container_id: id,
                    image_uuid,
                    status: ContainerStatus {
                        state: ContainerState::PullingImage,
                        process_id: None,
                    },
                    config,
                },
            ),
        },
    }
}

/// The step after the record was stored.
pub open spec fn step_after_save(
    record: ContainerRecord,
    stored: Result<(), PersistenceError>,
    step: Step,
) -> bool {
    match stored {
        Err(e) => step == Step::Abandon(ContainerServiceError::Persistence(e)),
        Ok(_) => step == Step::Work(
            Job::Create {
                container_id: record.container_id,
                image_uuid: record.image_uuid,
                config: record.config,
            },
        ),
    }
}

/// The decisions of the container service.
pub struct Dispatcher;

impl Dispatcher {
    /// Begins with a command that names a container.
    fn look_up(id_str: &str, pending: Pending) -> (step: Step)
        ensures
            looks_up(id_str@, pending, step),
    {
        Self::look_up_parsed(ids::id_of(id_str), pending)
    }

    /// Begins with a command that names a container, given what the name was read as.
    pub fn look_up_parsed(parsed: Result<u128, String>, pending: Pending) -> (step: Step)
        ensures
            match parsed {
                Ok(id) => step == (Step::LookUp { id, pending }),
                Err(_) => step matches Step::Refuse(e) && is_bad_argument(
                    e,
                    "Invalid UUID format"@,
                ),
            },
    {
        match parsed {
            Ok(id) => Step::LookUp { id, pending },
            Err(_) => Step::Refuse(
                ContainerServiceError::InvalidArgument("Invalid UUID format".to_owned()),
            ),
        }
    }

    /// The record of a named container, or why there is none.
    pub fn get_container_record(
        id_str: &str,
        found: Result<Option<ContainerRecord>, PersistenceError>,
    ) -> (r: Result<ContainerRecord, ContainerServiceError>)
        ensures
            match r {
                Ok(record) => found == Ok::<Option<ContainerRecord>, PersistenceError>(
                    Some(record),
                ),
                Err(e) => lookup_refused(id_str@, found, e),
            },
    {
        match found {
            Err(e) => Err(ContainerServiceError::Persistence(e)),
            Ok(None) => Err(
                ContainerServiceError::InvalidArgument(
                    text::cat3("Container '", id_str, "' not found"),
                ),
            ),
            Ok(Some(record)) => Ok(record),
        }
    }

    /// What is known of a container, from its record.
    pub fn container_info(record: ContainerRecord) -> (info: ContainerInfo)
        ensures
            describes(info, record),
    {
        ContainerInfo {
            container_id: ids::id_text(record.container_id),
            state: record.status.state,
            config: Some(record.config),
            pid: record.status.process_id,
            exit_code: None,
        }
    }

    fn begin(cmd: Command) -> (step: Step)
        ensures
            first_step(cmd, step),
    {
        match cmd {
            Command::CreateContainer(req) => {
                let fresh: u128 = ids::fresh_id();
                match choose_container_id(&req.container_id, fresh) {
                    Ok(id) => Step::LookUp { id, pending: Pending::Create(req.config) },
                    Err(e) => Step::Abandon(e),
                }
            },
            Command::StartContainer(req) => {
                let id_str = req.container_id.clone();
                Self::look_up(id_str.as_str(), Pending::Start(req))
            },
            Command::StopContainer(req) => {
                let id_str = req.container_id.clone();
                Self::look_up(id_str.as_str(), Pending::Stop(req))
            },
            Command::DeleteContainer(req) => {
                let id_str = req.container_id.clone();
                Self::look_up(id_str.as_str(), Pending::Delete(req))
            },
            Command::GetContainer(req) => {
                let id_str = req.container_id.clone();
                Self::look_up(id_str.as_str(), Pending::Get(req))
            },
            Command::ListContainers => Step::ListAll,
        }
    }

    fn after_lookup(
        id: u128,
        pending: Pending,
        found: Result<Option<ContainerRecord>, PersistenceError>,
    ) -> (step: Step)
        ensures
            step_after_lookup(id, pending, found, step),
    {
        match pending {
            Pending::Create(config) => match found {
                Err(e) => Step::Abandon(ContainerServiceError::Persistence(e)),
                Ok(Some(_)) => Step::Refuse(
                    ContainerServiceError::AlreadyExists(ids::id_text(id)),
                ),
                Ok(None) => match config {
                    None => Step::Abandon(
                        ContainerServiceError::InvalidArgument(
                            "ContainerConfig is required".to_owned(),
                        ),
                    ),
                    Some(config) => Step::Pull { id, config },
                },
            },
            Pending::Start(req) => {
                let r = Self::get_container_record(req.container_id.as_str(), found);
                match r {
                    Ok(rec) => if rec.status.state == ContainerState::Created {
                        Step::Work(Job::Start(id, req))
                    } else {
                        Step::Refuse(
                            ContainerServiceError::InvalidState(
                                text::cat2(
                                    "Cannot start container in state ",
                                    rec.status.state.name(),
                                ),
                            ),
                        )
                    },
                    Err(e) => Step::Refuse(e),
                }
            },
            Pending::Stop(req) => {
                let r = Self::get_container_record(req.container_id.as_str(), found);
                match r {
                    Ok(rec) => if rec.status.state == ContainerState::Running {
                        Step::Work(Job::Stop(id, req))
                    } else {
                        Step::Refuse(
                            ContainerServiceError::InvalidState(
                                text::cat2(
                                    "Cannot stop container in state ",
                                    rec.status.state.name(),
                                ),
                            ),
                        )
                    },
                    Err(e) => Step::Refuse(e),
                }
            },
            Pending::Delete(req) => {
                let r = Self::get_container_record(req.container_id.as_str(), found);
                match r {
                    Ok(rec) => if rec.status.state != ContainerState::Running {
                        Step::Work(Job::Delete(id, req))
                    } else {
                        Step::Refuse(
                            ContainerServiceError::InvalidState(
                                text::cat3(
                                    "Cannot delete container in state ",
                                    rec.status.state.name(),
                                    ". Stop it first.",
                                ),
                            ),
                        )
                    },
                    Err(e) => Step::Refuse(e),
                }
            },
            Pending::Get(req) => {
                let r = Self::get_container_record(req.container_id.as_str(), found);
                match r {
                    Ok(rec) => Step::Info(Self::container_info(rec)),
                    Err(e) => Step::Refuse(e),
                }
            },
        }
    }

    fn after_list(listed: Result<Vec<ContainerRecord>, PersistenceError>) -> (step: Step)
        ensures
            step_after_list(listed, step),
    {
        let records = match listed {
            Ok(records) => records,
            Err(e) => {
                return Step::Refuse(ContainerServiceError::Persistence(e));
            },
        };
        let ghost all = records@;
        let mut rest = records;
        let mut containers: Vec<ContainerInfo> = Vec::new();
        while rest.len() > 0
            invariant
                containers@.len() + rest@.len() == all.len(),
                rest@ == all.skip(containers@.len() as int),
                forall|i: int|
                    0 <= i < containers@.len() ==> describes(#[trigger] containers@[i], all[i]),
            decreases rest@.len(),
        {
            let ghost k = containers@.len() as int;
            assert(rest@[0] == all[k]);
            let record = rest.remove(0);
            containers.push(Self::container_info(record));
            assert(rest@ =~= all.skip(k + 1));
        }
        Step::Containers(ListContainersResponse { containers })
    }

    /// The step after an image was named, given what its name was read as.
    pub fn begin_record(
        id: u128,
        config: ContainerConfig,
        parsed: Result<u128, String>,
    ) -> (step: Step)
        ensures
            match parsed {
                Err(why) => step matches Step::Abandon(ContainerServiceError::ImageService(m))
                    && m@ == "Invalid image UUID: "@ + why@,
                Ok(image_uuid) => step == Step::Save(
                    ContainerRecord {
                        container_id: id,
                        image_uuid,
                        status: ContainerStatus {
                            state: ContainerState::PullingImage,
                            process_id: None,
                        },
                        config,
                    },
                ),
            },
    {
        match parsed {
            Err(why) => Step::Abandon(
                ContainerServiceError::ImageService(
                    text::cat2("Invalid image UUID: ", why.as_str()),
                ),
            ),
            Ok(image_uuid) => Step::Save(
                ContainerRecord {
                    container_id: id,
                    image_uuid,
                    status: ContainerStatus {
                        state: ContainerState::PullingImage,
                        process_id: None,
                    },
                    config,
                },
            ),
        }
    }

    /// The next step of a command.
    pub fn handle_command(progress: Progress) -> (step: Step)
        ensures
            match progress {
                Progress::Received(cmd) => first_step(cmd, step),
                Progress::LookedUp { id, pending, found } => step_after_lookup(
                    id,
                    pending,
                    found,
                    step,
                ),
                Progress::Listed(listed) => step_after_list(listed, step),
                Progress::Pulled { id, config, image } => step_after_pull(id, config, image, step),
                Progress::Saved { record, stored } => step_after_save(record, stored, step),
            },
    {
        match progress {
            Progress::Received(cmd) => Self::begin(cmd),
            Progress::LookedUp { id, pending, found } => Self::after_lookup(id, pending, found),
            Progress::Listed(listed) => Self::after_list(listed),
            Progress::Pulled { id, config, image } => match image {
                Err(e) => Step::Abandon(e),
                Ok(s) => Self::begin_record(id, config, ids::id_of(s.as_str())),
            },
            Progress::Saved { record, stored } => match stored {
                Err(e) => Step::Abandon(ContainerServiceError::Persistence(e)),
                Ok(_) => Step::Work(
                    Job::Create {
                        container_id: record.container_id,
                        image_uuid: record.image_uuid,
                        config: record.config,
                    },
                ),
            },
        }
    }
}

} // verus!
