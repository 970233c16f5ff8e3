//! What holds of the container service as a whole: how its commands change the
//! records of the database, and which commands follow one another.
use crate::container::dispatcher::{self, Job, Pending, Step};
use crate::container::error::ContainerServiceError;
use crate::container::persistence::{ContainerRecord, ContainerStatus, PersistenceError};
use crate::container::runtime::{self, AdapterError, OciImageSpec, OciRuntimeSpec};
use crate::container::worker::{self, CreateAction, CreateProgress, TaskAction, TaskProgress};
use crate::container::{
    ContainerConfig, ContainerState, DeleteContainerRequest, GetContainerRequest,
    StartContainerRequest, StopContainerRequest,
};
use crate::text;
use vstd::prelude::*;

verus! {

/// The records after the status of one was updated; nothing happens without it.
pub open spec fn with_status(
    db: Map<u128, ContainerRecord>,
    id: u128,
    status: ContainerStatus,
) -> Map<u128, ContainerRecord> {
    if db.dom().contains(id) {
        db.insert(id, ContainerRecord { status, ..db[id] })
    } else {
        db
    }
}

/// The records after a step of a creation.
pub open spec fn after_create(
    db: Map<u128, ContainerRecord>,
    action: CreateAction,
) -> Map<u128, ContainerRecord> {
    match action {
        CreateAction::StorePid { id, pid } => with_status(
            db,
            id,
            ContainerStatus { process_id: Some(pid), ..db[id].status },
        ),
        CreateAction::StoreState { id, state } => with_status(
            db,
            id,
            ContainerStatus { state, ..db[id].status },
        ),
        CreateAction::DeleteRecord { id } => db.remove(id),
        _ => db,
    }
}

/// The records after a step of a command on an existing container.
pub open spec fn after_task(
    db: Map<u128, ContainerRecord>,
    action: TaskAction,
) -> Map<u128, ContainerRecord> {
    match action {
        TaskAction::StoreState { id, state } => with_status(
            db,
            id,
            ContainerStatus { state, ..db[id].status },
        ),
        TaskAction::DeleteRecord { id } => db.remove(id),
        _ => db,
    }
}

/// What looking a container up gives.
pub open spec fn look_up(db: Map<u128, ContainerRecord>, id: u128) -> Result<
    Option<ContainerRecord>,
    PersistenceError,
> {
    Ok(
        if db.dom().contains(id) {
            Some(db[id])
        } else {
            None
        },
    )
}

/// A container is created only under an identifier that no container has, and its
/// record starts as pulling its image, without a process.
pub proof fn new_container_is_pulling(
    db: Map<u128, ContainerRecord>,
    id: u128,
    config: Option<ContainerConfig>,
    looked_up: Step,
    image: String,
    record: ContainerRecord,
)
    requires
        dispatcher::step_after_lookup(id, Pending::Create(config), look_up(db, id), looked_up),
        looked_up matches Step::Pull { id: i, config: c } && dispatcher::step_after_pull(
            i,
            c,
            Ok(image),
            Step::Save(record),
        ),
    ensures
        !db.dom().contains(id),
        record.container_id == id,
        config == Some(record.config),
        record.status == (ContainerStatus {
            state: ContainerState::PullingImage,
            process_id: None,
        }),
{
}

/// A container runs what was asked for: the command of its stored configuration comes in
/// place of the default command of the image, and the variables of the configuration
/// come on top of the environment of the image.
pub proof fn created_container_runs_what_was_asked(
    record: ContainerRecord,
    container_id: u128,
    image_uuid: u128,
    config: ContainerConfig,
    action: CreateAction,
    image: OciImageSpec,
    spec_written: OciRuntimeSpec,
)
    requires
        dispatcher::step_after_save(
            record,
            Ok(()),
            Step::Work(Job::Create { container_id, image_uuid, config }),
        ),
        worker::create_next(
            container_id,
            image_uuid,
            config,
            CreateProgress::ImageWaited(Ok(())),
            action,
        ),
        action matches CreateAction::CreateInRuntime { container_id: _, bundle_path: _, config: c }
            && runtime::runs_image(spec_written, image, c),
    ensures
        text::views(spec_written.process.args@) == text::views(
            runtime::items(image.config.entrypoint),
        ) + (if record.config.command@.len() > 0 {
            text::views(record.config.command@)
        } else {
            text::views(runtime::items(image.config.cmd))
        }),
        text::views(spec_written.process.env@) == text::views(runtime::items(image.config.env))
            + runtime::assignments(record.config.env@),
{
}

/// A creation that succeeds leaves the container created, with the process that
/// the runtime gave it, and no other record changed.
pub proof fn finished_creation_is_recorded(
    db: Map<u128, ContainerRecord>,
    record: ContainerRecord,
    pid: i64,
    store_pid: CreateAction,
    store_state: CreateAction,
)
    requires
        worker::create_next(
            record.container_id,
            record.image_uuid,
            record.config,
            CreateProgress::RuntimeCreated(Ok(pid)),
            store_pid,
        ),
        worker::create_next(
            record.container_id,
            record.image_uuid,
            record.config,
            CreateProgress::PidStored,
            store_state,
        ),
    ensures
        after_create(
            after_create(db.insert(record.container_id, record), store_pid),
            store_state,
        ) == db.insert(
            record.container_id,
            (ContainerRecord {
                status: ContainerStatus { state: ContainerState::Created, process_id: Some(pid) },
                ..record
            }),
        ),
{
    let id = record.container_id;
    let a = db.insert(id, record);
    let b = after_create(a, store_pid);
    let c = after_create(b, store_state);
    assert(c =~= db.insert(
        id,
        ContainerRecord {
            status: ContainerStatus { state: ContainerState::Created, process_id: Some(pid) },
            ..record
        },
    ));
}

/// A creation that fails leaves no record: whether the client is gone, the image
/// does not come or the runtime fails, the database is as it was before.
pub proof fn failed_creation_leaves_no_record(
    db: Map<u128, ContainerRecord>,
    record: ContainerRecord,
    progress: CreateProgress,
    action: CreateAction,
)
    requires
        !db.dom().contains(record.container_id),
        worker::create_next(
            record.container_id,
            record.image_uuid,
            record.config,
            progress,
            action,
        ),
        progress == CreateProgress::Answered(false) || (progress matches CreateProgress::ImageWaited(
            Err(_),
        )) || (progress matches CreateProgress::RuntimeCreated(Err(_))),
    ensures
        after_create(db.insert(record.container_id, record), action) == db,
{
    assert(after_create(db.insert(record.container_id, record), action) =~= db);
}

/// A started container runs: a start is taken on only for a created container, and
/// once the runtime has started it the record says so; all else is unchanged.
pub proof fn started_container_runs(
    db: Map<u128, ContainerRecord>,
    id: u128,
    req: StartContainerRequest,
    action: TaskAction,
)
    requires
        dispatcher::step_after_lookup(
            id,
            Pending::Start(req),
            look_up(db, id),
            Step::Work(Job::Start(id, req)),
        ),
        worker::start_next(id, req, TaskProgress::RuntimeDone(Ok(())), action),
    ensures
        db.dom().contains(id),
        db[id].status.state == ContainerState::Created,
        after_task(db, action).dom() == db.dom(),
        after_task(db, action)[id] == (ContainerRecord {
            status: ContainerStatus { state: ContainerState::Running, ..db[id].status },
            ..db[id]
        }),
        forall|other: u128|
            other != id && db.dom().contains(other) ==> #[trigger] after_task(db, action)[other]
                == db[other],
{
    assert(after_task(db, action).dom() =~= db.dom());
}

/// A stopped container is stopped: a stop is taken on only for a running container,
/// and once the runtime has sent the signal the record says so; all else is
/// unchanged.
pub proof fn stopped_container_is_stopped(
    db: Map<u128, ContainerRecord>,
    id: u128,
    req: StopContainerRequest,
    action: TaskAction,
)
    requires
        dispatcher::step_after_lookup(
            id,
            Pending::Stop(req),
            look_up(db, id),
            Step::Work(Job::Stop(id, req)),
        ),
        worker::stop_next(id, req, TaskProgress::RuntimeDone(Ok(())), action),
    ensures
        db.dom().contains(id),
        db[id].status.state == ContainerState::Running,
        after_task(db, action).dom() == db.dom(),
        after_task(db, action)[id] == (ContainerRecord {
            status: ContainerStatus { state: ContainerState::Stopped, ..db[id].status },
            ..db[id]
        }),
        forall|other: u128|
            other != id && db.dom().contains(other) ==> #[trigger] after_task(db, action)[other]
                == db[other],
{
    assert(after_task(db, action).dom() =~= db.dom());
}

/// A deleted container is not found any more: a deletion is taken on only for a
/// container that does not run, and afterwards a request for the container is
/// refused as naming none; the other containers are still there.
pub proof fn deleted_container_is_not_found(
    db: Map<u128, ContainerRecord>,
    id: u128,
    req: DeleteContainerRequest,
    action: TaskAction,
    get: GetContainerRequest,
    answer: Step,
)
    requires
        dispatcher::step_after_lookup(
            id,
            Pending::Delete(req),
            look_up(db, id),
            Step::Work(Job::Delete(id, req)),
        ),
        worker::delete_next(id, req, TaskProgress::RuntimeDone(Ok(())), action),
        dispatcher::step_after_lookup(
            id,
            Pending::Get(get),
            look_up(after_task(db, action), id),
            answer,
        ),
    ensures
        db.dom().contains(id),
        db[id].status.state != ContainerState::Running,
        after_task(db, action) == db.remove(id),
        answer matches Step::Refuse(e) && dispatcher::is_bad_argument(
            e,
            "Container '"@ + get.container_id@ + "' not found"@,
        ),
{
}

/// Where the runtime fails, nothing is stored and the client is told.
pub proof fn failed_runtime_changes_nothing(
    db: Map<u128, ContainerRecord>,
    id: u128,
    e: AdapterError,
    start: StartContainerRequest,
    stop: StopContainerRequest,
    delete: DeleteContainerRequest,
    action: TaskAction,
)
    requires
        worker::start_next(id, start, TaskProgress::RuntimeDone(Err(e)), action)
            || worker::stop_next(id, stop, TaskProgress::RuntimeDone(Err(e)), action)
            || worker::delete_next(id, delete, TaskProgress::RuntimeDone(Err(e)), action),
    ensures
        after_task(db, action) == db,
        action matches TaskAction::Answer(Err(ContainerServiceError::Adapter(m))) && m@ == e.text(),
{
}

/// The order of a container's life: in each state exactly these commands are taken
/// on. A container is started once created, stopped while it runs, and deleted
/// while it does not run.
pub proof fn commands_follow_the_state(
    db: Map<u128, ContainerRecord>,
    id: u128,
    start: StartContainerRequest,
    started: Step,
    stop: StopContainerRequest,
    stopped: Step,
    delete: DeleteContainerRequest,
    deleted: Step,
)
    requires
        db.dom().contains(id),
        dispatcher::step_after_lookup(id, Pending::Start(start), look_up(db, id), started),
        dispatcher::step_after_lookup(id, Pending::Stop(stop), look_up(db, id), stopped),
        dispatcher::step_after_lookup(id, Pending::Delete(delete), look_up(db, id), deleted),
    ensures
        started is Work <==> db[id].status.state == ContainerState::Created,
        stopped is Work <==> db[id].status.state == ContainerState::Running,
        deleted is Work <==> db[id].status.state != ContainerState::Running,
        started is Work || started is Refuse,
        stopped is Work || stopped is Refuse,
        deleted is Work || deleted is Refuse,
{
}

} // verus!
