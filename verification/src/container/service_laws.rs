//! What holds of the container service between a request and what the runtime is given, and
//! between a record and what is told of it.
use crate::container::dispatcher::{
    accept_container_id, choose_container_id, initiate_image_pull, Dispatcher, Job, Pending,
    Progress, PullOutcome, Step,
};
use crate::container::error::ContainerServiceError;
use crate::container::persistence::{
    container_state_to_string, string_to_container_state, ContainerRecord, ContainerRepository,
    DatabaseError, DbContainerRow, PersistenceError,
};
use crate::container::runtime::{
    AdapterError, ContainerAdapter, OciImageSpec, OciMount, OciRuntimeSpec,
};
use crate::container::worker::{
    handle_create_container, handle_delete_container, handle_start_container,
    handle_stop_container, wait_for_image_ready, CreateAction, CreateProgress, TaskAction,
    TaskProgress, WatchEvent,
};
use crate::container::{
    stream_container_events, stream_container_logs, Command, ContainerConfig, ContainerInfo,
    ContainerState, CreateContainerRequest, DeleteContainerRequest, GetContainerRequest,
    StartContainerRequest, StopContainerRequest,
};
use crate::ids;
use crate::image::ImageState;
use crate::rpc::{Code, RpcStatus};
use crate::task::{CreateRequest, DeleteRequest, KillRequest, StartRequest};
use crate::text;
use vstd::prelude::*;

verus! {

/// The entries of a list that may be missing.
pub open spec fn listed(list: Option<Vec<String>>) -> Seq<String> {
    match list {
        Some(entries) => entries@,
        None => Seq::empty(),
    }
}

/// A container may write to its root file system, which lies in the directory `rootfs` of its
/// bundle, and its process is root's, without a terminal, in the root directory.
pub proof fn container_owns_its_root(
    image: OciImageSpec,
    config: &ContainerConfig,
    spec_written: OciRuntimeSpec,
)
    requires
        call_ensures(
            ContainerAdapter::generate_runtime_spec,
            (image, config),
            spec_written,
        ),
    ensures
        !spec_written.root.readonly,
        spec_written.root.path@ == "rootfs"@,
        spec_written.process.user.uid == 0,
        spec_written.process.user.gid == 0,
        spec_written.process.cwd@ == "/"@,
        !spec_written.process.terminal,
        spec_written.oci_version@ == "1.0.2"@,
{
}

/// The process of a container is the entry point of its image, with the command that was
/// asked for as its arguments; where no command was asked for, with the command of the image.
pub proof fn process_is_entry_point_and_command(
    image: OciImageSpec,
    config: &ContainerConfig,
    spec_written: OciRuntimeSpec,
)
    requires
        call_ensures(
            ContainerAdapter::generate_runtime_spec,
            (image, config),
            spec_written,
        ),
    ensures
        ({
            let entry_point = listed(image.config.entrypoint);
            let command = if config.command@.len() > 0 {
                config.command@
            } else {
                listed(image.config.cmd)
            };
            let args = spec_written.process.args@;
            &&& args.len() == entry_point.len() + command.len()
            &&& forall|i: int|
                0 <= i < entry_point.len() ==> (#[trigger] args[i])@ == entry_point[i]@
            &&& forall|i: int|
                entry_point.len() <= i < args.len() ==> (#[trigger] args[i])@ == command[i
                    - entry_point.len()]@
        }),
{
    let entry_point = listed(image.config.entrypoint);
    let args = spec_written.process.args@;
    let all = text::views(args);
    assert(all.len() == args.len());
    assert forall|i: int| 0 <= i < args.len() implies (#[trigger] args[i])@ == all[i] by {}
    assert(text::views(entry_point).len() == entry_point.len());
}

/// The environment of a container is that of its image, followed by each variable that was
/// asked for, in order, as its name, an equals sign and its value.
pub proof fn environment_is_that_of_image_and_request(
    image: OciImageSpec,
    config: &ContainerConfig,
    spec_written: OciRuntimeSpec,
)
    requires
        call_ensures(
            ContainerAdapter::generate_runtime_spec,
            (image, config),
            spec_written,
        ),
    ensures
        ({
            let given = listed(image.config.env);
            let env = spec_written.process.env@;
            &&& env.len() == given.len() + config.env@.len()
            &&& forall|i: int| 0 <= i < given.len() ==> (#[trigger] env[i])@ == given[i]@
            &&& forall|i: int|
                given.len() <= i < env.len() ==> (#[trigger] env[i])@ == config.env@[i
                    - given.len()].0@ + "="@ + config.env@[i - given.len()].1@
        }),
{
    let given = listed(image.config.env);
    let env = spec_written.process.env@;
    let all = text::views(env);
    assert(all.len() == env.len());
    assert forall|i: int| 0 <= i < env.len() implies (#[trigger] env[i])@ == all[i] by {}
    assert(text::views(given).len() == given.len());
}

/// Whether a mount puts a file system of a kind at a place, with that many options.
pub open spec fn mounts_at(m: OciMount, place: Seq<char>, kind: Seq<char>, options: int) -> bool {
    &&& m.destination@ == place
    &&& m.typ@ == kind
    &&& m.source@ == kind
    &&& m.options@.len() == options
}

/// Every container has its own processes, devices, terminals and view of the system, and
/// cannot change the latter; it shares nothing with the host but the network.
pub proof fn container_shares_only_the_network(
    image: OciImageSpec,
    config: &ContainerConfig,
    spec_written: OciRuntimeSpec,
)
    requires
        call_ensures(
            ContainerAdapter::generate_runtime_spec,
            (image, config),
            spec_written,
        ),
    ensures
        ({
            let m = spec_written.mounts@;
            &&& m.len() == 4
            &&& mounts_at(m[0], "/proc"@, "proc"@, 0)
            &&& mounts_at(m[1], "/dev"@, "tmpfs"@, 4)
            &&& m[1].options@[0]@ == "nosuid"@
            &&& m[1].options@[1]@ == "strictatime"@
            &&& m[1].options@[2]@ == "mode=755"@
            &&& m[1].options@[3]@ == "size=65536k"@
            &&& mounts_at(m[2], "/dev/pts"@, "devpts"@, 5)
            &&& m[2].options@[0]@ == "nosuid"@
            &&& m[2].options@[1]@ == "noexec"@
            &&& m[2].options@[2]@ == "newinstance"@
            &&& m[2].options@[3]@ == "ptmxmode=0666"@
            &&& m[2].options@[4]@ == "mode=0620"@
            &&& mounts_at(m[3], "/sys"@, "sysfs"@, 4)
            &&& m[3].options@[0]@ == "nosuid"@
            &&& m[3].options@[1]@ == "noexec"@
            &&& m[3].options@[2]@ == "nodev"@
            &&& m[3].options@[3]@ == "ro"@
        }),
        ({
            let n = spec_written.linux.namespaces@;
            &&& n.len() == 4
            &&& n[0].typ@ == "pid"@
            &&& n[1].typ@ == "ipc"@
            &&& n[2].typ@ == "uts"@
            &&& n[3].typ@ == "mount"@
        }),
        forall|i: int|
            0 <= i < spec_written.linux.namespaces@.len() ==> (
            #[trigger] spec_written.linux.namespaces@[i]).typ@ != "network"@,
{
    reveal_strlit("pid");
    reveal_strlit("ipc");
    reveal_strlit("uts");
    reveal_strlit("mount");
    reveal_strlit("network");
    let m = spec_written.mounts@;
    assert forall|k: int, i: int|
        0 <= k < 4 && 0 <= i < m[k].options@.len() implies text::views(m[k].options@)[i]
        == #[trigger] m[k].options@[i]@ by {}
    assert(text::views(m[0].options@).len() == m[0].options@.len());
    assert(text::views(m[1].options@).len() == m[1].options@.len());
    assert(text::views(m[2].options@).len() == m[2].options@.len());
    assert(text::views(m[3].options@).len() == m[3].options@.len());
    let n = spec_written.linux.namespaces@;
    assert("network"@.len() == 7 && "pid"@.len() == 3 && "ipc"@.len() == 3 && "uts"@.len() == 3
        && "mount"@.len() == 5);
    assert forall|i: int| 0 <= i < n.len() implies (#[trigger] n[i]).typ@ != "network"@ by {
        assert(i == 0 || i == 1 || i == 2 || i == 3);
    }
}

/// What was asked for is what is kept and what the runtime is given: the record of a new
/// container holds the identifier and the configuration of the request and the image that
/// the image service named, and starts as pulling its image without a process; the work on
/// it is that of the record.
pub proof fn request_becomes_the_container(
    req: CreateContainerRequest,
    id: u128,
    pending: Pending,
    config: ContainerConfig,
    pull_id: u128,
    image: String,
    record: ContainerRecord,
    job: Job,
)
    requires
        call_ensures(
            Dispatcher::handle_command,
            (Progress::Received(Command::CreateContainer(req)),),
            Step::LookUp { id, pending },
        ),
        call_ensures(
            Dispatcher::handle_command,
            (Progress::LookedUp { id, pending, found: Ok(None) },),
            Step::Pull { id: pull_id, config },
        ),
        call_ensures(
            Dispatcher::handle_command,
            (Progress::Pulled { id: pull_id, config, image: Ok(image) },),
            Step::Save(record),
        ),
        call_ensures(
            Dispatcher::handle_command,
            (Progress::Saved { record, stored: Ok(()) },),
            Step::Work(job),
        ),
    ensures
        req.config == Some(record.config),
        req.container_id matches Some(s) && s@.len() > 0 ==> ids::uuid_parsed(
            req.container_id->Some_0@,
        ) == Ok::<u128, Seq<char>>(record.container_id),
        record.container_id == id,
        ids::uuid_parsed(image@) == Ok::<u128, Seq<char>>(record.image_uuid),
        record.status.state == ContainerState::PullingImage,
        record.status.process_id is None,
        job matches Job::Create { container_id, image_uuid, config } && container_id
            == record.container_id && image_uuid == record.image_uuid && config == record.config,
{
}

/// A creation is refused as there already being such a container exactly where the look-up
/// found one, and it is given up where there is no configuration, no database or no image.
pub proof fn creation_needs_a_new_name_and_a_configuration(
    id: u128,
    config: Option<ContainerConfig>,
    found: Result<Option<ContainerRecord>, PersistenceError>,
    step: Step,
)
    requires
        call_ensures(
            Dispatcher::handle_command,
            (Progress::LookedUp { id, pending: Pending::Create(config), found },),
            step,
        ),
    ensures
        step is Pull <==> found is Ok && found->Ok_0 is None && config is Some,
        step is Refuse <==> found is Ok && found->Ok_0 is Some,
        step matches Step::Refuse(e) ==> (e matches ContainerServiceError::AlreadyExists(m) && m@
            == ids::hyphenated(id)),
        step matches Step::Pull { id: i, config: c } ==> i == id && config == Some(c),
        found matches Err(e) ==> step == Step::Abandon(ContainerServiceError::Persistence(e)),
        found is Ok && found->Ok_0 is None && config is None ==> (step matches Step::Abandon(
            ContainerServiceError::InvalidArgument(_),
        )),
{
}

/// A name that is no identifier is refused as the client's fault, whatever is asked for; a
/// name that is one is looked up as what it stands for, with the request as it came.
pub proof fn named_containers_are_looked_up(
    start: StartContainerRequest,
    started: Step,
    stop: StopContainerRequest,
    stopped: Step,
    delete: DeleteContainerRequest,
    deleted: Step,
    get: GetContainerRequest,
    got: Step,
    all: Step,
)
    requires
        call_ensures(
            Dispatcher::handle_command,
            (Progress::Received(Command::StartContainer(start)),),
            started,
        ),
        call_ensures(
            Dispatcher::handle_command,
            (Progress::Received(Command::StopContainer(stop)),),
            stopped,
        ),
        call_ensures(
            Dispatcher::handle_command,
            (Progress::Received(Command::DeleteContainer(delete)),),
            deleted,
        ),
        call_ensures(
            Dispatcher::handle_command,
            (Progress::Received(Command::GetContainer(get)),),
            got,
        ),
        call_ensures(
            Dispatcher::handle_command,
            (Progress::Received(Command::ListContainers),),
            all,
        ),
    ensures
        match ids::uuid_parsed(start.container_id@) {
            Ok(id) => started == (Step::LookUp { id, pending: Pending::Start(start) }),
            Err(_) => started matches Step::Refuse(ContainerServiceError::InvalidArgument(_)),
        },
        match ids::uuid_parsed(stop.container_id@) {
            Ok(id) => stopped == (Step::LookUp { id, pending: Pending::Stop(stop) }),
            Err(_) => stopped matches Step::Refuse(ContainerServiceError::InvalidArgument(_)),
        },
        match ids::uuid_parsed(delete.container_id@) {
            Ok(id) => deleted == (Step::LookUp { id, pending: Pending::Delete(delete) }),
            Err(_) => deleted matches Step::Refuse(ContainerServiceError::InvalidArgument(_)),
        },
        match ids::uuid_parsed(get.container_id@) {
            Ok(id) => got == (Step::LookUp { id, pending: Pending::Get(get) }),
            Err(_) => got matches Step::Refuse(ContainerServiceError::InvalidArgument(_)),
        },
        all is ListAll,
{
}

/// In each state of a container exactly these commands are taken on: a created container can
/// be started, a running one stopped, and any but a running one deleted. The work is on the
/// container that was looked up, with the request as it came.
pub proof fn commands_need_a_fitting_state(
    id: u128,
    record: ContainerRecord,
    start: StartContainerRequest,
    started: Step,
    stop: StopContainerRequest,
    stopped: Step,
    delete: DeleteContainerRequest,
    deleted: Step,
)
    requires
        call_ensures(
            Dispatcher::handle_command,
            (Progress::LookedUp { id, pending: Pending::Start(start), found: Ok(Some(record)) },),
            started,
        ),
        call_ensures(
            Dispatcher::handle_command,
            (Progress::LookedUp { id, pending: Pending::Stop(stop), found: Ok(Some(record)) },),
            stopped,
        ),
        call_ensures(
            Dispatcher::handle_command,
            (Progress::LookedUp { id, pending: Pending::Delete(delete), found: Ok(Some(record)) },),
            deleted,
        ),
    ensures
        record.status.state is Created <==> started == Step::Work(Job::Start(id, start)),
        record.status.state is Running <==> stopped == Step::Work(Job::Stop(id, stop)),
        !(record.status.state is Running) <==> deleted == Step::Work(Job::Delete(id, delete)),
        !(record.status.state is Created) ==> (started matches Step::Refuse(
            ContainerServiceError::InvalidState(_),
        )),
        !(record.status.state is Running) ==> (stopped matches Step::Refuse(
            ContainerServiceError::InvalidState(_),
        )),
        record.status.state is Running ==> (deleted matches Step::Refuse(
            ContainerServiceError::InvalidState(_),
        )),
{
}

/// A container that no record is kept of is refused by its name, and a database that fails is
/// told as that, whatever was asked for.
pub proof fn unknown_containers_are_refused(
    id: u128,
    pending: Pending,
    name: Seq<char>,
    found: Result<Option<ContainerRecord>, PersistenceError>,
    step: Step,
)
    requires
        (pending matches Pending::Start(req) && req.container_id@ == name) || (
        pending matches Pending::Stop(req) && req.container_id@ == name) || (
        pending matches Pending::Delete(req) && req.container_id@ == name) || (
        pending matches Pending::Get(req) && req.container_id@ == name),
        !(found matches Ok(Some(_))),
        call_ensures(
            Dispatcher::handle_command,
            (Progress::LookedUp { id, pending, found },),
            step,
        ),
    ensures
        found matches Err(e) ==> step == Step::Refuse(ContainerServiceError::Persistence(e)),
        found is Ok ==> (step matches Step::Refuse(ContainerServiceError::InvalidArgument(m)) && m@
            == "Container '"@ + name + "' not found"@),
{
}

/// What is told of a container is what is recorded of it.
pub open spec fn tells(info: ContainerInfo, record: ContainerRecord) -> bool {
    &&& info.container_id@ == ids::hyphenated(record.container_id)
    &&& info.state == record.status.state
    &&& info.config == Some(record.config)
    &&& info.pid == record.status.process_id
    &&& info.exit_code is None
}

/// A request for a container is answered with what is recorded of it, and a request for all
/// with what is recorded of each, in order.
pub proof fn records_are_told_as_they_are(
    id: u128,
    get: GetContainerRequest,
    record: ContainerRecord,
    one: Step,
    records: Vec<ContainerRecord>,
    all: Step,
)
    requires
        call_ensures(
            Dispatcher::handle_command,
            (Progress::LookedUp { id, pending: Pending::Get(get), found: Ok(Some(record)) },),
            one,
        ),
        call_ensures(Dispatcher::handle_command, (Progress::Listed(Ok(records)),), all),
    ensures
        one matches Step::Info(info) && tells(info, record),
        all matches Step::Containers(list) && list.containers@.len() == records@.len() && (forall|
            i: int,
        |
            0 <= i < records@.len() ==> tells(#[trigger] list.containers@[i], records@[i])),
{
    match all {
        Step::Containers(list) => {
            assert forall|i: int| 0 <= i < records@.len() implies tells(
                #[trigger] list.containers@[i],
                records@[i],
            ) by {}
        },
        _ => {},
    }
}

/// A container has the identifier that was asked for, and a fresh one where none was; what is
/// no identifier is refused.
pub proof fn identifier_is_that_asked_for(
    asked: &Option<String>,
    fresh: u128,
    r: Result<u128, ContainerServiceError>,
)
    requires
        call_ensures(choose_container_id, (asked, fresh), r),
    ensures
        asked is None ==> r == Ok::<u128, ContainerServiceError>(fresh),
        asked matches Some(s) ==> s@.len() == 0 ==> r == Ok::<u128, ContainerServiceError>(fresh),
        asked matches Some(s) ==> s@.len() > 0 ==> match ids::uuid_parsed(s@) {
            Ok(id) => r == Ok::<u128, ContainerServiceError>(id),
            Err(_) => r matches Err(ContainerServiceError::InvalidArgument(_)),
        },
{
}

/// The image is the one that the image service named; where it named none, the creation goes
/// no further, and the error is the image service's.
pub proof fn image_is_that_being_pulled(
    image_ref: &str,
    outcome: PullOutcome,
    r: Result<String, ContainerServiceError>,
)
    requires
        call_ensures(initiate_image_pull, (image_ref, outcome), r),
    ensures
        outcome matches PullOutcome::Started(id) ==> (r matches Ok(image) && image@ == id@),
        !(outcome is Started) ==> (r matches Err(ContainerServiceError::ImageService(_))),
{
}

/// Only an image that is ready is used: a pull that failed and a watch that broke or ended end
/// the wait with an error, and any other state of the image is waited out.
pub proof fn containers_are_made_of_ready_images(
    image_uuid: &str,
    image_ref: &str,
    event: WatchEvent,
    r: Option<Result<(), ContainerServiceError>>,
)
    requires
        call_ensures(wait_for_image_ready, (image_uuid, image_ref, event), r),
    ensures
        r == Some(Ok::<(), ContainerServiceError>(())) <==> (event matches WatchEvent::Status(
            state,
            _,
        ) && state == ImageState::Ready),
        r is None <==> (event matches WatchEvent::Status(state, _) && (state
            == ImageState::Downloading || state == ImageState::Unspecified)),
        r matches Some(Err(e)) ==> e is ImageService,
{
}

/// The creation of a container goes in this order: the client is told its identifier, the
/// image is awaited, the runtime creates the container from the image with the stored
/// configuration, and its process and its state are stored.
pub proof fn container_creation_goes_in_order(
    container_id: u128,
    image_uuid: u128,
    config: &ContainerConfig,
    pid: i64,
    first: CreateAction,
    second: CreateAction,
    third: CreateAction,
    fourth: CreateAction,
    fifth: CreateAction,
    last: CreateAction,
)
    requires
        call_ensures(
            handle_create_container,
            (container_id, image_uuid, config, CreateProgress::Accepted),
            first,
        ),
        call_ensures(
            handle_create_container,
            (container_id, image_uuid, config, CreateProgress::Answered(true)),
            second,
        ),
        call_ensures(
            handle_create_container,
            (container_id, image_uuid, config, CreateProgress::ImageWaited(Ok(()))),
            third,
        ),
        call_ensures(
            handle_create_container,
            (container_id, image_uuid, config, CreateProgress::RuntimeCreated(Ok(pid))),
            fourth,
        ),
        call_ensures(
            handle_create_container,
            (container_id, image_uuid, config, CreateProgress::PidStored),
            fifth,
        ),
        call_ensures(
            handle_create_container,
            (container_id, image_uuid, config, CreateProgress::Finished),
            last,
        ),
    ensures
        first matches CreateAction::Answer(response) && response.container_id@ == ids::hyphenated(
            container_id,
        ),
        second matches CreateAction::WaitForImage { image_uuid: u, image_ref } && u@
            == ids::hyphenated(image_uuid) && image_ref@ == config.image_ref@,
        third matches CreateAction::CreateInRuntime { container_id: c, bundle_path, config: handed }
            && c@ == ids::hyphenated(container_id) && handed.image_ref@ == config.image_ref@
            && handed.command@ == config.command@ && handed.env@ == config.env@ && bundle_path@
            == "/var/lib/feos/images/"@ + ids::hyphenated(image_uuid),
        fourth matches CreateAction::StorePid { id, pid: p } && id == container_id && p == pid,
        fifth matches CreateAction::StoreState { id, state } && id == container_id
            && state is Created,
        last is Done,
{
    reveal_strlit("/var/lib/feos/images");
    reveal_strlit("/var/lib/feos/images/");
    reveal_strlit("/");
    let h = ids::hyphenated(image_uuid);
    assert(h[0] == text::digit_char(ids::nibble(image_uuid, 0)));
    assert(h[0] != '/');
    assert(text::joined("/var/lib/feos/images"@, h) =~= "/var/lib/feos/images/"@ + h);
}

/// Where a creation fails at any step, the record of the container is removed and no other.
pub proof fn failed_creation_is_forgotten(
    container_id: u128,
    image_uuid: u128,
    config: &ContainerConfig,
    progress: CreateProgress,
    action: CreateAction,
)
    requires
        progress == CreateProgress::Answered(false) || (
        progress matches CreateProgress::ImageWaited(Err(_))) || (
        progress matches CreateProgress::RuntimeCreated(Err(_))),
        call_ensures(
            handle_create_container,
            (container_id, image_uuid, config, progress),
            action,
        ),
    ensures
        action matches CreateAction::DeleteRecord { id } && id == container_id,
{
}

/// Commands on a container reach the runtime under the name that was asked for; a stop sends
/// the signal that was asked for, and the kill signal where none was.
pub proof fn commands_reach_the_runtime(
    id: u128,
    start: &StartContainerRequest,
    started: TaskAction,
    stop: &StopContainerRequest,
    stopped: TaskAction,
    delete: &DeleteContainerRequest,
    deleted: TaskAction,
)
    requires
        call_ensures(handle_start_container, (id, start, TaskProgress::Accepted), started),
        call_ensures(handle_stop_container, (id, stop, TaskProgress::Accepted), stopped),
        call_ensures(handle_delete_container, (id, delete, TaskProgress::Accepted), deleted),
    ensures
        started matches TaskAction::Start { container_id } && container_id@ == start.container_id@,
        stopped matches TaskAction::Kill { container_id, signal } && container_id@
            == stop.container_id@ && (stop.signal is None ==> signal == 9) && (
        stop.signal matches Some(n) ==> signal == n),
        deleted matches TaskAction::Delete { container_id } && container_id@
            == delete.container_id@,
{
}

/// Once the runtime has done its part, a started container is stored as running, a stopped one
/// as stopped, and the record of a deleted one is removed.
pub proof fn done_commands_are_stored(
    id: u128,
    start: &StartContainerRequest,
    started: TaskAction,
    stop: &StopContainerRequest,
    stopped: TaskAction,
    delete: &DeleteContainerRequest,
    deleted: TaskAction,
)
    requires
        call_ensures(
            handle_start_container,
            (id, start, TaskProgress::RuntimeDone(Ok(()))),
            started,
        ),
        call_ensures(handle_stop_container, (id, stop, TaskProgress::RuntimeDone(Ok(()))), stopped),
        call_ensures(
            handle_delete_container,
            (id, delete, TaskProgress::RuntimeDone(Ok(()))),
            deleted,
        ),
    ensures
        started matches TaskAction::StoreState { id: i, state } && i == id && state is Running,
        stopped matches TaskAction::StoreState { id: i, state } && i == id && state is Stopped,
        deleted matches TaskAction::DeleteRecord { id: i } && i == id,
{
}

/// A client is told of success exactly where the database took the change; an error of the
/// runtime or of the database is told as what it is.
pub proof fn success_is_told_once_stored(
    id: u128,
    start: &StartContainerRequest,
    stop: &StopContainerRequest,
    delete: &DeleteContainerRequest,
    e: AdapterError,
    failed: TaskAction,
    stored: Result<(), PersistenceError>,
    answered: TaskAction,
)
    requires
        call_ensures(
            handle_start_container,
            (id, start, TaskProgress::RuntimeDone(Err(e))),
            failed,
        ) || call_ensures(
            handle_stop_container,
            (id, stop, TaskProgress::RuntimeDone(Err(e))),
            failed,
        ) || call_ensures(
            handle_delete_container,
            (id, delete, TaskProgress::RuntimeDone(Err(e))),
            failed,
        ),
        call_ensures(handle_start_container, (id, start, TaskProgress::Stored(stored)), answered)
            || call_ensures(
            handle_stop_container,
            (id, stop, TaskProgress::Stored(stored)),
            answered,
        ) || call_ensures(
            handle_delete_container,
            (id, delete, TaskProgress::Stored(stored)),
            answered,
        ),
    ensures
        failed matches TaskAction::Answer(Err(ContainerServiceError::Adapter(m))) && m@ == (
        match e {
            AdapterError::Internal(why) => "Internal error: "@ + why@,
            AdapterError::Io(_) => "I/O error"@,
            AdapterError::TaskService(why) => "Task service communication failed: "@ + why@,
        }),
        answered matches TaskAction::Answer(answer) && (answer is Ok <==> stored is Ok) && (
        stored matches Err(p) ==> answer == Err::<(), ContainerServiceError>(
            ContainerServiceError::Persistence(p),
        )),
{
}

/// The task service is asked for the container and the bundle, the signal and the name that
/// the runtime is given, and nothing is read from or written to a file.
pub proof fn task_requests_carry_what_was_asked(
    adapter: &ContainerAdapter,
    name: &str,
    bundle: &str,
    signal: u32,
    create: CreateRequest,
    start: StartRequest,
    kill: KillRequest,
    delete: DeleteRequest,
)
    requires
        call_ensures(ContainerAdapter::create_container, (adapter, name, bundle), create),
        call_ensures(ContainerAdapter::start_container, (adapter, name), start),
        call_ensures(ContainerAdapter::stop_container, (adapter, name, signal), kill),
        call_ensures(ContainerAdapter::delete_container, (adapter, name), delete),
    ensures
        create.container_id@ == name@,
        create.bundle_path@ == bundle@,
        create.stdin_path@.len() == 0,
        create.stdout_path@.len() == 0,
        create.stderr_path@.len() == 0,
        start.container_id@ == name@,
        kill.container_id@ == name@,
        kill.signal == signal,
        delete.container_id@ == name@,
{
    reveal_strlit("");
}

/// What a client is answered of an error tells it whose fault it is: its own argument, the
/// state of the container, a name that is taken, a service that may come back, or the service
/// itself.
pub proof fn container_errors_are_told_apart(e: ContainerServiceError, status: RpcStatus)
    requires
        call_ensures(ContainerServiceError::into_status, (e,), status),
    ensures
        status.code == Code::NotFound <==> e == ContainerServiceError::Persistence(
            PersistenceError::Database(DatabaseError::RowNotFound),
        ),
        status.code == Code::InvalidArgument <==> e is InvalidArgument,
        status.code == Code::AlreadyExists <==> e is AlreadyExists,
        status.code == Code::FailedPrecondition <==> e is InvalidState,
        status.code == Code::Unavailable <==> e is ImageService || e is TaskService,
        status.code == Code::Internal <==> e is Adapter || (e is Persistence && e
            != ContainerServiceError::Persistence(
            PersistenceError::Database(DatabaseError::RowNotFound),
        )),
        e matches ContainerServiceError::InvalidArgument(m) ==> status.message@ == m@,
        e matches ContainerServiceError::AlreadyExists(m) ==> status.message@ == m@,
        e matches ContainerServiceError::InvalidState(m) ==> status.message@ == m@,
        e matches ContainerServiceError::ImageService(m) ==> status.message@
            == "Image service unavailable: "@ + m@,
        e matches ContainerServiceError::TaskService(m) ==> status.message@
            == "Task service unavailable: "@ + m@,
        e matches ContainerServiceError::Adapter(m) ==> status.message@
            == "Runtime adapter error: "@ + m@,
{
}

/// A record that is saved is found again as it was, alone and among all others.
pub proof fn saved_containers_are_found(
    record: &ContainerRecord,
    row: DbContainerRow,
    one: Option<Result<Option<ContainerRecord>, PersistenceError>>,
    rows: Vec<(DbContainerRow, Result<ContainerConfig, PersistenceError>)>,
    k: int,
    records: Vec<ContainerRecord>,
)
    requires
        call_ensures(ContainerRepository::save_container, (record,), row),
        call_ensures(ContainerRepository::get_container, (Some((row, Ok(record.config))),), one),
        0 <= k < rows@.len(),
        rows@[k] == (row, Ok::<ContainerConfig, PersistenceError>(record.config)),
        call_ensures(ContainerRepository::list_all_containers, (rows,), Some(Ok(records))),
    ensures
        one == Some(Ok::<Option<ContainerRecord>, PersistenceError>(Some(*record))),
        records@.len() == rows@.len(),
        records@[k] == *record,
        row.container_id@ == ids::hyphenated(record.container_id),
        row.image_uuid@ == ids::hyphenated(record.image_uuid),
        row.pid == record.status.process_id,
        record.status.state is PullingImage ==> row.state@ == "PULLING_IMAGE"@,
        record.status.state is Created ==> row.state@ == "CREATED"@,
        record.status.state is Running ==> row.state@ == "RUNNING"@,
        record.status.state is Stopped ==> row.state@ == "STOPPED"@,
{
    crate::container::persistence::written_state_reads_back(record.status.state);
    assert(rows@[k].0 == row);
    assert(crate::container::persistence::row_readable(rows@[k].0, rows@[k].1));
}

/// A container without a row is no container, and no error.
pub proof fn missing_container_is_none(
    r: Option<Result<Option<ContainerRecord>, PersistenceError>>,
)
    requires
        call_ensures(ContainerRepository::get_container, (None,), r),
    ensures
        r == Some(Ok::<Option<ContainerRecord>, PersistenceError>(None)),
{
}

/// Logs and events of containers are answered as not there yet.
pub proof fn streams_are_not_implemented(logs: RpcStatus, events: RpcStatus)
    requires
        call_ensures(stream_container_logs, (), logs),
        call_ensures(stream_container_events, (), events),
    ensures
        logs.code == Code::Unimplemented,
        events.code == Code::Unimplemented,
{
}

/// The parts of the container service agree with the whole: a name is looked up as what it stands
/// for, a record begins as pulling its image, and a container that was not found is told by name.
pub proof fn parts_carry_what_they_are_given(
    parsed: Result<u128, String>,
    accepted: Result<u128, ContainerServiceError>,
    pending: Pending,
    step: Step,
    id: u128,
    config: ContainerConfig,
    begun: Step,
    record: ContainerRecord,
    info: ContainerInfo,
    name: &str,
    found: Result<Option<ContainerRecord>, PersistenceError>,
    r: Result<ContainerRecord, ContainerServiceError>,
)
    requires
        call_ensures(accept_container_id, (parsed,), accepted),
        call_ensures(Dispatcher::look_up_parsed, (parsed, pending), step),
        call_ensures(Dispatcher::begin_record, (id, config, parsed), begun),
        call_ensures(Dispatcher::container_info, (record,), info),
        call_ensures(Dispatcher::get_container_record, (name, found), r),
    ensures
        parsed matches Ok(i) ==> accepted == Ok::<u128, ContainerServiceError>(i) && step == (
        Step::LookUp { id: i, pending }),
        parsed is Err ==> (accepted matches Err(ContainerServiceError::InvalidArgument(_))) && (
        step matches Step::Refuse(ContainerServiceError::InvalidArgument(_))) && (
        begun matches Step::Abandon(ContainerServiceError::ImageService(_))),
        parsed matches Ok(image) ==> (begun matches Step::Save(kept) && kept.container_id == id
            && kept.image_uuid == image && kept.config == config && kept.status.state
            == ContainerState::PullingImage && kept.status.process_id is None),
        tells(info, record),
        found matches Ok(Some(rec)) ==> r == Ok::<ContainerRecord, ContainerServiceError>(rec),
        found matches Ok(None) ==> (r matches Err(ContainerServiceError::InvalidArgument(m)) && m@
            == "Container '"@ + name@ + "' not found"@),
        found matches Err(e) ==> r == Err::<ContainerRecord, ContainerServiceError>(
            ContainerServiceError::Persistence(e),
        ),
{
}

/// A copy of a configuration is the configuration, and every state has its own text in the
/// database, which is read back as the state.
pub proof fn copies_and_states_are_kept(
    config: &ContainerConfig,
    copy: ContainerConfig,
    state: ContainerState,
    s: &'static str,
    read: Result<ContainerState, PersistenceError>,
)
    requires
        call_ensures(ContainerConfig::copy, (config,), copy),
        call_ensures(container_state_to_string, (state,), s),
        call_ensures(string_to_container_state, (s,), read),
    ensures
        copy.image_ref@ == config.image_ref@,
        copy.command@ == config.command@,
        copy.env@ == config.env@,
        read == Ok::<ContainerState, PersistenceError>(state),
        state is Unspecified ==> s@ == "CONTAINER_STATE_UNSPECIFIED"@,
        state is PullingImage ==> s@ == "PULLING_IMAGE"@,
        state is Created ==> s@ == "CREATED"@,
        state is Running ==> s@ == "RUNNING"@,
        state is Stopped ==> s@ == "STOPPED"@,
{
    crate::container::persistence::written_state_reads_back(state);
}

/// A row whose configuration or state cannot be read is an error, and one that cannot be read for
/// its identifiers is no record.
pub proof fn unreadable_rows_are_no_records(
    row: DbContainerRow,
    config: ContainerConfig,
    e: PersistenceError,
    state: ContainerState,
    s: &'static str,
    unread: Option<Result<ContainerRecord, PersistenceError>>,
    r: Option<Result<ContainerRecord, PersistenceError>>,
)
    requires
        call_ensures(ContainerRepository::record_of, (row, Err(e)), unread),
        call_ensures(ContainerRepository::record_of, (row, Ok(config)), r),
        call_ensures(container_state_to_string, (state,), s),
    ensures
        unread == Some(Err::<ContainerRecord, PersistenceError>(e)),
        row.state@ == s@ && ids::uuid_parsed(row.container_id@) is Ok && ids::uuid_parsed(
            row.image_uuid@,
        ) is Ok ==> (r matches Some(Ok(record)) && ids::uuid_parsed(row.container_id@) == Ok::<
            u128,
            Seq<char>,
        >(record.container_id) && ids::uuid_parsed(row.image_uuid@) == Ok::<u128, Seq<char>>(
            record.image_uuid,
        ) && record.status.state == state && record.status.process_id == row.pid && record.config
            == config),
        row.state@ == s@ && (ids::uuid_parsed(row.container_id@) is Err || ids::uuid_parsed(
            row.image_uuid@,
        ) is Err) ==> r is None,
        r matches Some(Err(why)) ==> (why matches PersistenceError::InvalidStateString(t) && t@
            == row.state@),
{
    crate::container::persistence::written_state_reads_back(state);
}

} // verus!
