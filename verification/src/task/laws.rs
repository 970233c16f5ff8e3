//! What holds of the task service between a request, the commands of the runtime and what
//! is reported and answered.
use crate::rpc::{Code, RpcStatus};
use crate::task::dispatcher::{Action, Dispatcher};
use crate::task::error::{self, TaskError};
use crate::task::worker::{
    self, delete_args, handle_create, handle_delete, handle_kill, handle_start, run_youki_command,
    start_args, wait_for_process_exit, CommandOutcome, CreateAction, CreateProgress, ProcessEnd,
    StartOutcome,
};
use crate::task::{
    Command, Container, CreateRequest, DeleteRequest, Event, KillRequest, StartRequest, Status,
    WaitRequest, WaitResponse,
};
use crate::text::{self, NumberError};
use crate::text_laws;
use vstd::prelude::*;

verus! {

/// Whether two tables of containers are the same but for one of them.
pub open spec fn same_but(
    before: Map<Seq<char>, Container>,
    after: Map<Seq<char>, Container>,
    id: Seq<char>,
) -> bool {
    forall|other: Seq<char>|
        other != id ==> (before.dom().contains(other) <==> after.dom().contains(other)) && (
        before.dom().contains(other) ==> before[other] == #[trigger] after[other])
}

/// A creation is taken on under a name that no container has. The container is then being
/// created from the bundle that was named, without a process, an exit code or anyone who waits
/// for it; under a name that is taken nothing changes.
pub proof fn creation_begins_a_container(d: &mut Dispatcher, req: CreateRequest, action: Action)
    requires
        call_ensures(Dispatcher::handle_command, (d, Command::Create(req)), action),
    ensures
        ({
            let id = req.container_id@;
            let before = old(d)@;
            let after = final(d)@;
            &&& before.dom().contains(id) ==> after == before && (action matches Action::Refuse(
                TaskError::ContainerAlreadyExists(i),
            ) && i@ == id)
            &&& !before.dom().contains(id) ==> {
                &&& action == Action::Create(req)
                &&& after.dom().contains(id)
                &&& after[id].status is Creating
                &&& after[id].pid is None
                &&& after[id].bundle_path@ == req.bundle_path@
                &&& after[id].exit_code is None
                &&& after[id].waiter is None
            }
            &&& same_but(before, after, id)
        }),
{
}

/// A container is started only once it is created, with the process that it was created with;
/// it receives a signal only while it runs, and is deleted only while it does not run. None of
/// these changes what is kept before the runtime has done its part.
pub proof fn commands_wait_for_their_time(
    d: &mut Dispatcher,
    cmd: Command,
    id: Seq<char>,
    action: Action,
)
    requires
        (cmd matches Command::Start(req) && req.container_id@ == id) || (
        cmd matches Command::Kill(req) && req.container_id@ == id) || (
        cmd matches Command::Delete(req) && req.container_id@ == id),
        call_ensures(Dispatcher::handle_command, (d, cmd), action),
    ensures
        final(d)@ == old(d)@,
        !old(d)@.dom().contains(id) ==> (action matches Action::Refuse(
            TaskError::ContainerNotFound(i),
        ) && i@ == id),
        old(d)@.dom().contains(id) ==> {
            let c = old(d)@[id];
            &&& cmd matches Command::Start(req) ==> (c.status is Created ==> action
                == Action::Start(req, c.pid->Some_0)) && (!(c.status is Created) ==> action
                is Refuse)
            &&& cmd matches Command::Kill(req) ==> (c.status is Running ==> action == Action::Kill(
                req,
            )) && (!(c.status is Running) ==> action is Refuse)
            &&& cmd matches Command::Delete(req) ==> (!(c.status is Running) ==> action
                == Action::Delete(req)) && (c.status is Running ==> action is Refuse)
            &&& action matches Action::Refuse(e) ==> (e matches TaskError::InvalidState {
                id: i,
                current_state,
                required_states,
            } && i@ == id && current_state == c.status && !required_states@.contains(
                c.status,
            ))
        },
{
    if old(d)@.dom().contains(id) {
        match action {
            Action::Refuse(TaskError::InvalidState { id: _, current_state: _, required_states }) => {
                assert(forall|i: int|
                    0 <= i < required_states@.len() ==> #[trigger] required_states@[i]
                        != old(d)@[id].status);
            },
            _ => {},
        }
    }
}

/// Whoever waits for a container that has stopped is answered its exit code at once, and 255
/// where none is known; for one that runs the wait is held, for one client at a time; for any
/// other it is refused.
pub proof fn waits_end_with_the_container(
    d: &mut Dispatcher,
    req: WaitRequest,
    waiter: u64,
    action: Action,
)
    requires
        call_ensures(Dispatcher::handle_command, (d, Command::Wait(req, waiter)), action),
    ensures
        ({
            let id = req.container_id@;
            let before = old(d)@;
            let after = final(d)@;
            let c = before[id];
            &&& same_but(before, after, id)
            &&& !before.dom().contains(id) ==> after == before && (action matches Action::Refuse(
                TaskError::ContainerNotFound(i),
            ) && i@ == id)
            &&& before.dom().contains(id) && c.status is Stopped ==> after == before && (
            action matches Action::Answer(response) && (c.exit_code matches Some(code)
                ==> response.exit_code == code) && (c.exit_code is None ==> response.exit_code
                == 255))
            &&& before.dom().contains(id) && c.status is Running && c.waiter is None ==> action
                is Hold && after.dom().contains(id) && after[id].waiter == Some(waiter)
                && after[id].status is Running && after[id].pid == c.pid && after[id].bundle_path
                == c.bundle_path && after[id].exit_code == c.exit_code
            &&& before.dom().contains(id) && c.status is Running && c.waiter is Some ==> after
                == before && (action matches Action::Refuse(TaskError::Internal(_)))
            &&& before.dom().contains(id) && (c.status is Creating || c.status is Created)
                ==> after == before && (action matches Action::Refuse(
                TaskError::InvalidState { .. },
            ))
        }),
{
}

/// A container that is reported as created is created and has the process that was reported; one
/// that could not be created or was deleted is gone. No other container changes, and nobody is
/// told to have waited enough.
pub proof fn created_and_deleted_containers_are_kept_so(
    d: &mut Dispatcher,
    event: Event,
    id: Seq<char>,
    r: Option<(u64, WaitResponse)>,
)
    requires
        (event matches Event::ContainerCreated { id: i, pid: _ } && i@ == id) || (
        event matches Event::ContainerCreateFailed { id: i, error: _ } && i@ == id) || (
        event matches Event::ContainerDeleted { id: i } && i@ == id),
        call_ensures(Dispatcher::handle_event, (d, event), r),
    ensures
        same_but(old(d)@, final(d)@, id),
        r is None,
        event is ContainerCreateFailed || event is ContainerDeleted ==> !final(d)@.dom().contains(id),
        !old(d)@.dom().contains(id) ==> !final(d)@.dom().contains(id),
        old(d)@.dom().contains(id) ==> (event matches Event::ContainerCreated { id: _, pid }
            ==> final(d)@.dom().contains(id) && final(d)@[id].status is Created && final(d)@[id].pid == Some(pid) && final(d)@[id].bundle_path == old(d)@[id].bundle_path),
{
}

/// A container that is reported as started runs, and one whose start failed is still created;
/// its process stays what it was.
pub proof fn started_containers_run(
    d: &mut Dispatcher,
    event: Event,
    id: Seq<char>,
    r: Option<(u64, WaitResponse)>,
)
    requires
        (event matches Event::ContainerStarted { id: i } && i@ == id) || (
        event matches Event::ContainerStartFailed { id: i, error: _ } && i@ == id),
        call_ensures(Dispatcher::handle_event, (d, event), r),
    ensures
        same_but(old(d)@, final(d)@, id),
        r is None,
        final(d)@.dom().contains(id) <==> old(d)@.dom().contains(id),
        old(d)@.dom().contains(id) ==> {
            let c = final(d)@[id];
            &&& event is ContainerStarted ==> c.status is Running
            &&& event is ContainerStartFailed ==> c.status is Created
            &&& c.pid == old(d)@[id].pid
            &&& c.bundle_path == old(d)@[id].bundle_path
            &&& c.exit_code == old(d)@[id].exit_code
            &&& c.waiter == old(d)@[id].waiter
        },
{
}

/// A container that is reported as stopped has stopped with the exit code that was reported;
/// whoever waits for it is told that code, and nobody waits for it any more.
pub proof fn stopped_containers_keep_their_exit_code(
    d: &mut Dispatcher,
    id: String,
    exit_code: i32,
    r: Option<(u64, WaitResponse)>,
)
    requires
        call_ensures(Dispatcher::handle_event, (d, Event::ContainerStopped { id, exit_code }), r),
    ensures
        same_but(old(d)@, final(d)@, id@),
        final(d)@.dom().contains(id@) <==> old(d)@.dom().contains(id@),
        old(d)@.dom().contains(id@) ==> {
            let c = final(d)@[id@];
            &&& c.status is Stopped
            &&& c.exit_code == Some(exit_code)
            &&& c.waiter is None
            &&& c.pid == old(d)@[id@].pid
        },
        r is Some <==> old(d)@.dom().contains(id@) && old(d)@[id@].waiter is Some,
        r matches Some((waiter, response)) ==> old(d)@[id@].waiter == Some(waiter)
            && response.exit_code == exit_code,
{
}

/// The runtime is asked for what was asked of the service: to create a container of its name
/// from its bundle, with a file in the bundle for the process; to start it; to send it the
/// signal; and to delete it whatever it does.
pub proof fn runtime_is_asked_for_what_was_asked(
    create: &CreateRequest,
    created: CreateAction,
    start: &StartRequest,
    started: Vec<String>,
    kill: &KillRequest,
    killed: Vec<String>,
    delete: &DeleteRequest,
    deleted: Vec<String>,
)
    requires
        call_ensures(handle_create, (create, CreateProgress::Accepted), created),
        call_ensures(start_args, (start,), started),
        call_ensures(handle_kill, (kill,), killed),
        call_ensures(delete_args, (delete,), deleted),
    ensures
        created matches CreateAction::Spawn(args) && args@.len() == 6 && args@[0]@ == "create"@
            && args@[1]@ == "--bundle"@ && args@[2]@ == create.bundle_path@ && args@[3]@
            == "--pid-file"@ && args@[4]@ == create.bundle_path@ + "/container.pid"@ && args@[5]@
            == create.container_id@,
        started@.len() == 2,
        started@[0]@ == "start"@,
        started@[1]@ == start.container_id@,
        killed@.len() == 3,
        killed@[0]@ == "kill"@,
        killed@[1]@ == kill.container_id@,
        text_laws::all_digits(killed@[2]@, 10),
        text_laws::place_value(killed@[2]@, 10) == kill.signal,
        deleted@.len() == 3,
        deleted@[0]@ == "delete"@,
        deleted@[1]@ == "--force"@,
        deleted@[2]@ == delete.container_id@,
{
    match created {
        CreateAction::Spawn(args) => {
            lemma_views(args@);
        },
        _ => {},
    }
    lemma_views(started@);
    lemma_views(killed@);
    lemma_views(deleted@);
    text_laws::lemma_numeral(kill.signal as nat, 10);
}

proof fn lemma_views(args: Seq<String>)
    ensures
        text::views(args).len() == args.len(),
        forall|i: int| 0 <= i < args.len() ==> text::views(args)[i] == (#[trigger] args[i])@,
{
}

/// A command of the runtime succeeds exactly where it ran and ended well.
pub proof fn runtime_succeeds_where_it_ends_well(outcome: CommandOutcome, r: Result<(), TaskError>)
    requires
        call_ensures(run_youki_command, (outcome,), r),
    ensures
        r is Ok <==> (outcome matches CommandOutcome::Exited { success, .. } && success),
        r matches Err(e) ==> e is YoukiCommand,
        outcome matches CommandOutcome::NotExecuted(why) ==> (r matches Err(
            TaskError::YoukiCommand(m),
        ) && m@ == "Failed to execute youki process: "@ + why@),
{
}

/// A command of the runtime that ended badly is told with its status and with what it wrote, its
/// errors first.
pub proof fn failed_commands_are_told_with_their_output(
    status: String,
    stdout: Vec<u8>,
    stderr: Vec<u8>,
    r: Result<(), TaskError>,
)
    requires
        call_ensures(
            run_youki_command,
            (CommandOutcome::Exited { success: false, status, stdout, stderr },),
            r,
        ),
    ensures
        r matches Err(TaskError::YoukiCommand(m)) && m@ == "youki exited with code "@ + status@
            + ": stderr='"@ + worker::lossy_text(stderr@) + "', stdout='"@ + worker::lossy_text(
            stdout@,
        ) + "'"@,
{
}

/// A creation that fails tells the same to the dispatcher and to the client: at which step, and
/// why.
pub proof fn failed_creations_are_told_why(
    req: &CreateRequest,
    why: String,
    pid: i32,
    unspawned: CreateAction,
    unawaited: CreateAction,
    ended: CreateAction,
    unread: CreateAction,
    unremoved: CreateAction,
)
    requires
        call_ensures(handle_create, (req, CreateProgress::Spawned(Err(why))), unspawned),
        call_ensures(handle_create, (req, CreateProgress::Waited(Err(why))), unawaited),
        call_ensures(handle_create, (req, CreateProgress::Waited(Ok((false, why)))), ended),
        call_ensures(handle_create, (req, CreateProgress::PidRead(Err(why))), unread),
        call_ensures(
            handle_create,
            (req, CreateProgress::PidFileRemoved { pid, removed: Err(why) }),
            unremoved,
        ),
    ensures
        unspawned matches CreateAction::Finish {
            event: _,
            answer: Err(TaskError::YoukiCommand(m)),
        } && m@ == "Failed to spawn youki create: "@ + why@,
        unawaited matches CreateAction::Finish {
            event: _,
            answer: Err(TaskError::YoukiCommand(m)),
        } && m@ == "Failed to wait for youki create process: "@ + why@,
        ended matches CreateAction::Finish {
            event: _,
            answer: Err(TaskError::YoukiCommand(m)),
        } && m@ == "youki create exited with non-zero status: "@ + why@,
        unread matches CreateAction::Finish { event: _, answer: Err(TaskError::Internal(m)) } && m@
            == "Could not read pid file: "@ + why@,
        unremoved matches CreateAction::Finish { event: _, answer: Err(TaskError::Internal(m)) }
            && m@ == "Could not remove pid file: "@ + why@,
{
}

/// A file without a number for the process is told with what is wrong with the number.
pub proof fn bad_process_files_are_told_why(
    req: &CreateRequest,
    content: String,
    read: &str,
    trimmed: String,
    number: &str,
    e: NumberError,
    m: String,
    action: CreateAction,
)
    requires
        read@ == content@,
        call_ensures(text::trim, (read,), trimmed),
        number@ == trimmed@,
        call_ensures(text::parse_i32, (number,), Err(e)),
        call_ensures(NumberError::message, (e,), m),
        call_ensures(handle_create, (req, CreateProgress::PidRead(Ok(content))), action),
    ensures
        action matches CreateAction::Finish { event: _, answer: Err(TaskError::Internal(t)) } && t@
            == "Failed to parse PID from file: "@ + m@,
{
}

/// A second client that waits on a running container is refused with these words.
pub proof fn second_waiters_are_refused(
    d: &mut Dispatcher,
    req: WaitRequest,
    waiter: u64,
    action: Action,
)
    requires
        call_ensures(Dispatcher::handle_command, (d, Command::Wait(req, waiter)), action),
        old(d)@.dom().contains(req.container_id@),
        old(d)@[req.container_id@].status == Status::Running,
        old(d)@[req.container_id@].waiter is Some,
    ensures
        action matches Action::Refuse(TaskError::Internal(m)) && m@
            == "Another client is already waiting on this container"@,
{
}

/// A creation runs the runtime, waits for its end, reads the process from the file in the
/// bundle and removes the file; then the process is reported and answered.
pub proof fn creation_reads_the_process(
    req: &CreateRequest,
    status: String,
    pid: i32,
    waiting: CreateAction,
    reading: CreateAction,
    finished: CreateAction,
)
    requires
        call_ensures(handle_create, (req, CreateProgress::Spawned(Ok(()))), waiting),
        call_ensures(handle_create, (req, CreateProgress::Waited(Ok((true, status)))), reading),
        call_ensures(
            handle_create,
            (req, CreateProgress::PidFileRemoved { pid, removed: Ok(()) }),
            finished,
        ),
    ensures
        waiting is Wait,
        reading matches CreateAction::ReadPidFile(path) && path@ == req.bundle_path@
            + "/container.pid"@,
        finished matches CreateAction::Finish { event, answer } && (
        event matches Event::ContainerCreated { id, pid: p } && id@ == req.container_id@ && p
            == pid) && (answer matches Ok(response) && response.pid == pid),
{
}

/// The process of a container is the number in its file, whatever white space is around it;
/// the file that is removed is the one that was read. A file without a number is an error.
pub proof fn process_is_the_number_in_the_file(
    req: &CreateRequest,
    content: String,
    before: Seq<char>,
    digits: Seq<char>,
    after: Seq<char>,
    action: CreateAction,
)
    requires
        content@ == before + digits + after,
        text_laws::blank(before),
        text_laws::blank(after),
        digits.len() > 0,
        text_laws::all_digits(digits, 10),
        call_ensures(handle_create, (req, CreateProgress::PidRead(Ok(content))), action),
    ensures
        text_laws::place_value(digits, 10) <= i32::MAX ==> (
        action matches CreateAction::RemovePidFile { path, pid } && pid == text_laws::place_value(
            digits,
            10,
        ) && path@ == req.bundle_path@ + "/container.pid"@),
        text_laws::place_value(digits, 10) > i32::MAX ==> (
        action matches CreateAction::Finish { event: _, answer } && answer is Err),
{
    assert(text_laws::is_digit(digits[0], 10));
    assert(text_laws::is_digit(digits[digits.len() - 1], 10));
    text_laws::lemma_trimmed_is(before, digits, after);
    text_laws::lemma_scan_value(digits, 10, 0x7fff_ffff);
}

/// A creation that fails at any step ends there: the failure is reported under the name of the
/// container, and the client is answered the same.
pub proof fn failed_creations_end(
    req: &CreateRequest,
    progress: CreateProgress,
    action: CreateAction,
    answered: RpcStatus,
    reported: RpcStatus,
)
    requires
        (progress matches CreateProgress::Spawned(Err(_))) || (
        progress matches CreateProgress::Waited(Err(_))) || (
        progress matches CreateProgress::Waited(Ok((false, _)))) || (
        progress matches CreateProgress::PidRead(Err(_))) || (
        progress matches CreateProgress::PidFileRemoved { pid: _, removed: Err(_) }),
        call_ensures(handle_create, (req, progress), action),
        action matches CreateAction::Finish {
            event: Event::ContainerCreateFailed { id: _, error },
            answer: Err(e),
        } ==> call_ensures(TaskError::into_status, (e,), answered) && call_ensures(
            TaskError::into_status,
            (error,),
            reported,
        ),
    ensures
        action matches CreateAction::Finish {
            event: Event::ContainerCreateFailed { id, error: _ },
            answer: Err(_),
        } && id@ == req.container_id@,
        answered.code == Code::Internal,
        reported.code == answered.code,
        reported.message@ == answered.message@,
{
}

/// A container that was started is reported so and its process is awaited from then on; one
/// that was not is reported so, the client is told why, and nothing is awaited.
pub proof fn started_processes_are_awaited(
    req: StartRequest,
    pid: i32,
    result: Result<(), TaskError>,
    o: StartOutcome,
)
    requires
        call_ensures(handle_start, (req, pid, result), o),
    ensures
        o.answer is Ok <==> result is Ok,
        result matches Err(e) ==> o.answer == Err::<(), TaskError>(e),
        result is Ok <==> o.wait_for == Some(pid),
        result is Err <==> o.wait_for is None,
        result is Ok ==> (o.event matches Event::ContainerStarted { id } && id@
            == req.container_id@),
        result is Err ==> (o.event matches Event::ContainerStartFailed { id, error: _ } && id@
            == req.container_id@),
{
}

/// A deletion is reported exactly where it succeeded, and answered as what it came to.
pub proof fn deletions_are_reported(
    req: DeleteRequest,
    result: Result<(), TaskError>,
    r: (Option<Event>, Result<(), TaskError>),
)
    requires
        call_ensures(handle_delete, (req, result), r),
    ensures
        r.1 == result,
        r.0 is Some <==> result is Ok,
        r.0 matches Some(event) ==> (event matches Event::ContainerDeleted { id } && id@
            == req.container_id@),
{
}

/// The exit code of a container is that of its process; 128 and the number of the signal where
/// one ended it; and 255 where something else did. What could not be awaited is not reported.
pub proof fn exit_codes_tell_how_it_ended(
    id: String,
    code: i32,
    exited: Option<Event>,
    signal: i32,
    signaled: Option<Event>,
    other: Option<Event>,
    why: String,
    unknown: Option<Event>,
)
    requires
        signal <= i32::MAX - 128,
        call_ensures(wait_for_process_exit, (id, Ok(ProcessEnd::Exited(code))), exited),
        call_ensures(wait_for_process_exit, (id, Ok(ProcessEnd::Signaled(signal))), signaled),
        call_ensures(wait_for_process_exit, (id, Ok(ProcessEnd::Other)), other),
        call_ensures(wait_for_process_exit, (id, Err(why)), unknown),
    ensures
        exited matches Some(Event::ContainerStopped { id: i, exit_code }) && i@ == id@ && exit_code
            == code,
        signaled matches Some(Event::ContainerStopped { id: i, exit_code }) && i@ == id@
            && exit_code == 128 + signal,
        other matches Some(Event::ContainerStopped { id: i, exit_code }) && i@ == id@ && exit_code
            == 255,
        unknown is None,
{
}

/// What a client is answered of an error tells whether there is no such container, there is one
/// already, it is not the time for the command, or the service failed; a copy of an error is
/// answered as the error is.
pub proof fn task_errors_are_told_apart(
    e: TaskError,
    status: RpcStatus,
    copy: TaskError,
    again: RpcStatus,
    message: String,
    copied: String,
)
    requires
        call_ensures(TaskError::into_status, (e,), status),
        call_ensures(TaskError::duplicate, (&e,), copy),
        call_ensures(TaskError::into_status, (copy,), again),
        call_ensures(TaskError::message, (&e,), message),
        call_ensures(TaskError::message, (&copy,), copied),
    ensures
        status.code == Code::NotFound <==> e is ContainerNotFound,
        status.code == Code::AlreadyExists <==> e is ContainerAlreadyExists,
        status.code == Code::FailedPrecondition <==> e is InvalidState,
        status.code == Code::Internal <==> e is YoukiCommand || e is Internal || e is Io,
        e matches TaskError::ContainerNotFound(id) ==> status.message@ == id@ && message@
            == "Container with ID '"@ + id@ + "' not found"@,
        e matches TaskError::ContainerAlreadyExists(id) ==> status.message@ == id@ && message@
            == "Container with ID '"@ + id@ + "' already exists"@,
        e matches TaskError::YoukiCommand(m) ==> status.message@ == m@ && message@
            == "Youki command failed: "@ + m@,
        e matches TaskError::Internal(m) ==> status.message@ == m@ && message@
            == "An internal error occurred: "@ + m@,
        e matches TaskError::Io(m) ==> status.message@ == "I/O error: "@ + m@ && message@
            == "I/O error: "@ + m@,
        e is InvalidState ==> status.message@ == message@,
        again.code == status.code,
        again.message@ == status.message@,
        copied@ == message@,
{
}

/// A refusal for the state of a container names the container, the state that it is in and the
/// states in which the command is taken.
pub proof fn refusals_name_the_states(
    id: String,
    current_state: Status,
    required_states: Vec<Status>,
    status: RpcStatus,
    current: &'static str,
    first: &'static str,
    second: &'static str,
)
    requires
        call_ensures(
            TaskError::into_status,
            (TaskError::InvalidState { id, current_state, required_states },),
            status,
        ),
        1 <= required_states@.len() <= 2,
        call_ensures(Status::name, (current_state,), current),
        call_ensures(Status::name, (required_states@[0],), first),
        required_states@.len() == 2 ==> call_ensures(Status::name, (required_states@[1],), second),
    ensures
        status.message@ == "Invalid state for operation on container '"@ + id@
            + "': current state is "@ + current@ + ", required one of ["@ + (
        if required_states@.len() == 1 {
            first@
        } else {
            first@ + ", "@ + second@
        }) + "]"@,
{
    reveal_with_fuel(error::listed, 3);
    if required_states@.len() == 2 {
        assert(required_states@.drop_last() =~= seq![required_states@[0]]);
    }
}

/// The states of a container are called by their names.
pub proof fn states_have_their_names(status: Status, name: &'static str)
    requires
        call_ensures(Status::name, (status,), name),
    ensures
        status is Creating ==> name@ == "Creating"@,
        status is Created ==> name@ == "Created"@,
        status is Running ==> name@ == "Running"@,
        status is Stopped ==> name@ == "Stopped"@,
{
}

/// A dispatcher begins without containers.
pub proof fn dispatcher_begins_empty(d: Dispatcher, id: Seq<char>)
    requires
        call_ensures(Dispatcher::new, (), d),
    ensures
        d.wf(),
        !d@.dom().contains(id),
{
}

/// What is known of a container is what is kept under its name, and a start finds the process of a
/// created container; an error of the file system says what it was made of.
pub proof fn containers_are_known_by_name(
    d: &Dispatcher,
    id: &str,
    got: Option<&Container>,
    can: bool,
    message: String,
    e: TaskError,
)
    requires
        call_ensures(Dispatcher::get, (d, id), got),
        call_ensures(Dispatcher::can_start, (d, id), can),
        call_ensures(TaskError::from_io, (message,), e),
    ensures
        got is Some <==> d@.dom().contains(id@),
        got matches Some(c) ==> *c == d@[id@],
        can <==> !(d@.dom().contains(id@) && d@[id@].status is Created && d@[id@].pid is None),
        e matches TaskError::Io(m) && m@ == message@,
{
}

} // verus!
