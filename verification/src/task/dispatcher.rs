//! The dispatcher of the task service: which commands a container takes in which
//! state, and what the reports of the workers make of it.
use crate::table::TextMap;
use crate::task::error::TaskError;
use crate::task::{
    Command, Container, CreateRequest, DeleteRequest, Event, KillRequest, StartRequest, Status,
    WaitRequest, WaitResponse,
};
use vstd::prelude::*;

verus! {

/// What is done for a command.
pub enum Action {
    /// A worker creates the container.
    Create(CreateRequest),
    /// A worker starts the container, whose process is known.
    Start(StartRequest, i32),
    /// A worker sends the signal.
    Kill(KillRequest),
    /// A worker deletes the container.
    Delete(DeleteRequest),
    /// The container has stopped: answer at once.
    Answer(WaitResponse),
    /// The container runs: answer when it stops.
    Hold,
    /// Answer with an error.
    Refuse(TaskError),
}

/// What a container is like whose creation begins.
pub open spec fn begins(c: Container, bundle_path: Seq<char>) -> bool {
    c.status == Status::Creating && c.pid is None && c.bundle_path@ == bundle_path && c.exit_code
        is None && c.waiter is None
}

/// Whether a command is refused because there is no such container.
pub open spec fn not_found(action: Action, id: Seq<char>) -> bool {
    action matches Action::Refuse(TaskError::ContainerNotFound(i)) && i@ == id
}

/// Whether a command is refused because of the container's state.
pub open spec fn wrong_state(
    action: Action,
    id: Seq<char>,
    current: Status,
    required: Seq<Status>,
) -> bool {
    action matches Action::Refuse(
        TaskError::InvalidState { id: i, current_state, required_states },
    ) && i@ == id && current_state == current && required_states@ == required
}

/// What is done for a command, and what the containers are afterwards.
pub open spec fn handled(
    before: Map<Seq<char>, Container>,
    cmd: Command,
    after: Map<Seq<char>, Container>,
    action: Action,
) -> bool {
    match cmd {
        Command::Create(req) => {
            let id = req.container_id@;
            if before.dom().contains(id) {
                after == before && (action matches Action::Refuse(
                    TaskError::ContainerAlreadyExists(i),
                ) && i@ == id)
            } else {
                after.dom().contains(id) && begins(after[id], req.bundle_path@) && after
                    == before.insert(id, after[id]) && action == Action::Create(req)
            }
        },
        Command::Start(req) => {
            let id = req.container_id@;
            after == before && if !before.dom().contains(id) {
                not_found(action, id)
            } else if before[id].status == Status::Created {
                action == Action::Start(req, before[id].pid->Some_0)
            } else {
                wrong_state(action, id, before[id].status, seq![Status::Created])
            }
        },
        Command::Kill(req) => {
            let id = req.container_id@;
            after == before && if !before.dom().contains(id) {
                not_found(action, id)
            } else if before[id].status == Status::Running {
                action == Action::Kill(req)
            } else {
                wrong_state(action, id, before[id].status, seq![Status::Running])
            }
        },
        Command::Delete(req) => {
            let id = req.container_id@;
            after == before && if !before.dom().contains(id) {
                not_found(action, id)
            } else if before[id].status != Status::Running {
                action == Action::Delete(req)
            } else {
                wrong_state(
                    action,
                    id,
                    before[id].status,
                    seq![Status::Created, Status::Stopped],
                )
            }
        },
        Command::Wait(req, waiter) => {
            let id = req.container_id@;
            if !before.dom().contains(id) {
                after == before && not_found(action, id)
            } else {
                let c = before[id];
                match c.status {
                    Status::Stopped => after == before && action == Action::Answer(
                        WaitResponse {
                            exit_code: match c.exit_code {
                                Some(code) => code,
                                None => 255,
                            },
                        },
                    ),
                    Status::Running => if c.waiter is Some {
                        after == before && (action matches Action::Refuse(TaskError::Internal(m))
                            && m@ == "Another client is already waiting on this container"@)
                    } else {
                        action == Action::Hold && after == before.insert(
                            id,
                            Container { waiter: Some(waiter), ..c },
                        )
                    },
                    _ => after == before && wrong_state(
                        action,
                        id,
                        c.status,
                        seq![Status::Running, Status::Stopped],
                    ),
                }
            }
        },
    }
}

/// The container that an event is about.
pub open spec fn subject(event: Event) -> Seq<char> {
    match event {
        Event::ContainerCreated { id, .. } => id@,
        Event::ContainerCreateFailed { id, .. } => id@,
        Event::ContainerStarted { id } => id@,
        Event::ContainerStartFailed { id, .. } => id@,
        Event::ContainerStopped { id, .. } => id@,
        Event::ContainerDeleted { id } => id@,
    }
}

/// What an event makes of the container that it is about; nothing is left of one
/// that could not be created or was deleted.
pub open spec fn changed(c: Container, event: Event) -> Option<Container> {
    match event {
        Event::ContainerCreated { pid, .. } => Some(
            Container { status: Status::Created, pid: Some(pid), ..c },
        ),
        Event::ContainerCreateFailed { .. } => None,
        Event::ContainerStarted { .. } => Some(Container { status: Status::Running, ..c }),
        Event::ContainerStartFailed { .. } => Some(Container { status: Status::Created, ..c }),
        Event::ContainerStopped { exit_code, .. } => Some(
            Container {
                status: Status::Stopped,
                exit_code: Some(exit_code),
                waiter: None,
                ..c
            },
        ),
        Event::ContainerDeleted { .. } => None,
    }
}

/// The containers after an event.
pub open spec fn after_event(before: Map<Seq<char>, Container>, event: Event) -> Map<
    Seq<char>,
    Container,
> {
    let id = subject(event);
    if before.dom().contains(id) {
        match changed(before[id], event) {
            Some(c) => before.insert(id, c),
            None => before.remove(id),
        }
    } else {
        before
    }
}

/// Who is told that a container has stopped, and how it ended.
pub open spec fn told(before: Map<Seq<char>, Container>, event: Event) -> Option<(u64, int)> {
    match event {
        Event::ContainerStopped { id, exit_code } => if before.dom().contains(id@) {
            match before[id@].waiter {
                Some(waiter) => Some((waiter, exit_code as int)),
                None => None,
            }
        } else {
            None
        },
        _ => None,
    }
}

/// Whether the process of every created container is known.
pub open spec fn pids_known(containers: Map<Seq<char>, Container>) -> bool {
    forall|id: Seq<char>| #[trigger]
        containers.dom().contains(id) && containers[id].status == Status::Created
            ==> containers[id].pid is Some
}

/// The containers that the runtime knows.
pub struct Dispatcher {
    containers: TextMap<Container>,
}

impl Dispatcher {
    /// No container is kept twice.
    pub closed spec fn wf(self) -> bool {
        self.containers.wf()
    }

    /// The containers by identifier.
    pub closed spec fn view(self) -> Map<Seq<char>, Container> {
        self.containers@
    }

    /// No containers.
    pub fn new() -> (r: Dispatcher)
        ensures
            r.wf(),
            r@ == Map::<Seq<char>, Container>::empty(),
    {
        Dispatcher { containers: TextMap::new() }
    }

    /// Whether a start of this container finds its process: a created container
    /// must have one.
    pub fn can_start(&self, id: &str) -> (r: bool)
        requires
            self.wf(),
        ensures
            r == (self@.dom().contains(id@) && self@[id@].status == Status::Created
                ==> self@[id@].pid is Some),
    {
        match self.containers.get(id) {
            Some(c) => c.status != Status::Created || c.pid.is_some(),
            None => true,
        }
    }

    /// What is known of a container.
    pub fn get(&self, id: &str) -> (r: Option<&Container>)
        requires
            self.wf(),
        ensures
            match r {
                Some(c) => self@.dom().contains(id@) && self@[id@] == *c,
                None => !self@.dom().contains(id@),
            },
    {
        self.containers.get(id)
    }

    fn refuse(id: String, current_state: Status, required_states: Vec<Status>) -> (action: Action)
        ensures
            wrong_state(action, id@, current_state, required_states@),
    {
        Action::Refuse(TaskError::InvalidState { id, current_state, required_states })
    }

    /// What is done for a command.
    pub fn handle_command(&mut self, cmd: Command) -> (action: Action)
        requires
            old(self).wf(),
            cmd matches Command::Start(req) ==> (old(self)@.dom().contains(req.container_id@)
                && old(self)@[req.container_id@].status == Status::Created
                ==> old(self)@[req.container_id@].pid is Some),
        ensures
            final(self).wf(),
            handled(old(self)@, cmd, final(self)@, action),
    {
        match cmd {
            Command::Create(req) => {
                let id = req.container_id.clone();
                if self.containers.contains_key(id.as_str()) {
                    return Action::Refuse(TaskError::ContainerAlreadyExists(id));
                }
                self.containers.insert(
                    id,
                    Container {
                        status: Status::Creating,
                        pid: None,
                        bundle_path: req.bundle_path.clone(),
                        exit_code: None,
                        waiter: None,
                    },
                );
                Action::Create(req)
            },
            Command::Start(req) => {
                let id = req.container_id.clone();
                match self.containers.get(id.as_str()) {
                    Some(container) => match (container.status, container.pid) {
                        (Status::Created, Some(pid)) => Action::Start(req, pid),
                        _ => {
                            let required = vec![Status::Created];
                            assert(required@ =~= seq![Status::Created]);
                            Self::refuse(id, container.status, required)
                        },
                    },
                    None => Action::Refuse(TaskError::ContainerNotFound(id)),
                }
            },
            Command::Kill(req) => {
                let id = req.container_id.clone();
                match self.containers.get(id.as_str()) {
                    Some(container) => if container.status == Status::Running {
                        Action::Kill(req)
                    } else {
                        let required = vec![Status::Running];
                        assert(required@ =~= seq![Status::Running]);
                        Self::refuse(id, container.status, required)
                    },
                    None => Action::Refuse(TaskError::ContainerNotFound(id)),
                }
            },
            Command::Delete(req) => {
                let id = req.container_id.clone();
                match self.containers.get(id.as_str()) {
                    Some(container) => if container.status != Status::Running {
                        Action::Delete(req)
                    } else {
                        let required = vec![Status::Created, Status::Stopped];
                        assert(required@ =~= seq![Status::Created, Status::Stopped]);
                        Self::refuse(id, container.status, required)
                    },
                    None => Action::Refuse(TaskError::ContainerNotFound(id)),
                }
            },
            Command::Wait(req, waiter) => self.wait(req, waiter),
        }
    }

    /// What is done for a client who waits for a container to stop.
    fn wait(&mut self, req: WaitRequest, waiter: u64) -> (action: Action)
        requires
            old(self).wf(),
        ensures
            final(self).wf(),
            handled(old(self)@, Command::Wait(req, waiter), final(self)@, action),
    {
        let id = req.container_id;
        let (status, exit_code, taken) = match self.containers.get(id.as_str()) {
            Some(c) => (c.status, c.exit_code, c.waiter.is_some()),
            None => {
                return Action::Refuse(TaskError::ContainerNotFound(id));
            },
        };
        match status {
            Status::Stopped => {
                let code: i32 = match exit_code {
                    Some(code) => code,
                    None => 255,
                };
                Action::Answer(WaitResponse { exit_code: code })
            },
            Status::Running => if taken {
                Action::Refuse(
                    TaskError::Internal(
                        "Another client is already waiting on this container".to_owned(),
                    ),
                )
            } else {
                if let Some(c) = self.containers.remove(id.as_str()) {
                    let ghost before = old(self)@;
                    let now = Container { waiter: Some(waiter), ..c };
                    self.containers.insert(id, now);
                    assert(before.remove(id@).insert(id@, now) =~= before.insert(id@, now));
                }
                Action::Hold
            },
            _ => {
                let required = vec![Status::Running, Status::Stopped];
                assert(required@ =~= seq![Status::Running, Status::Stopped]);
                Self::refuse(id, status, required)
            },
        }
    }

    /// Takes note of what a worker reports. Gives who is to be told that the
    /// container has stopped, if anyone waits for it.
    pub fn handle_event(&mut self, event: Event) -> (r: Option<(u64, WaitResponse)>)
        requires
            old(self).wf(),
        ensures
            final(self).wf(),
            final(self)@ == after_event(old(self)@, event),
            match r {
                Some((waiter, response)) => told(old(self)@, event) == Some(
                    (waiter, response.exit_code as int),
                ),
                None => told(old(self)@, event) is None,
            },
    {
        let ghost before = self@;
        match event {
            Event::ContainerCreated { id, pid } => {
                if let Some(c) = self.containers.remove(id.as_str()) {
                    let now = Container { status: Status::Created, pid: Some(pid), ..c };
                    self.containers.insert(id, now);
                    assert(before.remove(id@).insert(id@, now) =~= before.insert(id@, now));
                } else {
                    assert(before.remove(id@) =~= before);
                }
                None
            },
            Event::ContainerCreateFailed { id, error: _ } => {
                let removed = self.containers.remove(id.as_str());
                if removed.is_none() {
                    assert(before.remove(id@) =~= before);
                }
                None
            },
            Event::ContainerStarted { id } => {
                if let Some(c) = self.containers.remove(id.as_str()) {
                    let now = Container { status: Status::Running, ..c };
                    self.containers.insert(id, now);
                    assert(before.remove(id@).insert(id@, now) =~= before.insert(id@, now));
                } else {
                    assert(before.remove(id@) =~= before);
                }
                None
            },
            Event::ContainerStartFailed { id, error: _ } => {
                if let Some(c) = self.containers.remove(id.as_str()) {
                    let now = Container { status: Status::Created, ..c };
                    self.containers.insert(id, now);
                    assert(before.remove(id@).insert(id@, now) =~= before.insert(id@, now));
                } else {
                    assert(before.remove(id@) =~= before);
                }
                None
            },
            Event::ContainerStopped { id, exit_code } => {
                if let Some(c) = self.containers.remove(id.as_str()) {
                    let waiter = c.waiter;
                    let now = Container {
                        status: Status::Stopped,
                        exit_code: Some(exit_code),
                        waiter: None,
                        ..c
                    };
                    self.containers.insert(id, now);
                    assert(before.remove(id@).insert(id@, now) =~= before.insert(id@, now));
                    match waiter {
                        Some(w) => Some((w, WaitResponse { exit_code })),
                        None => None,
                    }
                } else {
                    assert(before.remove(id@) =~= before);
                    None
                }
            },
            Event::ContainerDeleted { id } => {
                let removed = self.containers.remove(id.as_str());
                if removed.is_none() {
                    assert(before.remove(id@) =~= before);
                }
                None
            },
        }
    }
}

/// A command never changes another container than the one that it names, and none
/// but a creation or a wait changes any.
pub proof fn commands_leave_others_alone(
    before: Map<Seq<char>, Container>,
    cmd: Command,
    after: Map<Seq<char>, Container>,
    action: Action,
    other: Seq<char>,
)
    requires
        handled(before, cmd, after, action),
        match cmd {
            Command::Create(req) => other != req.container_id@,
            Command::Wait(req, _) => other != req.container_id@,
            _ => true,
        },
    ensures
        after.dom().contains(other) <==> before.dom().contains(other),
        before.dom().contains(other) ==> after[other] == before[other],
{
}

/// The process of every created container stays known: no command changes that, and
/// no event does but the failed start of a container that never had a process.
pub proof fn pids_stay_known(
    before: Map<Seq<char>, Container>,
    cmd: Command,
    after: Map<Seq<char>, Container>,
    action: Action,
    event: Event,
)
    requires
        pids_known(before),
        handled(before, cmd, after, action),
        event is ContainerStartFailed && before.dom().contains(subject(event))
            ==> before[subject(event)].pid is Some,
    ensures
        pids_known(after),
        pids_known(after_event(before, event)),
{
    assert forall|id: Seq<char>| #[trigger]
        after.dom().contains(id) && after[id].status == Status::Created implies after[id].pid
        is Some by {
        assert(before.dom().contains(id) || after[id].status != Status::Created);
    }
    let now = after_event(before, event);
    assert forall|id: Seq<char>| #[trigger]
        now.dom().contains(id) && now[id].status == Status::Created implies now[id].pid is Some by {
        assert(before.dom().contains(id));
    }
}

/// Whoever waits is told once: the number of a held wait is given back by the event
/// that the container has stopped, and the container has no waiter afterwards.
pub proof fn waiter_is_told_when_the_container_stops(
    before: Map<Seq<char>, Container>,
    req: WaitRequest,
    waiter: u64,
    after: Map<Seq<char>, Container>,
    id: String,
    exit_code: i32,
)
    requires
        handled(before, Command::Wait(req, waiter), after, Action::Hold),
        id@ == req.container_id@,
    ensures
        told(after, Event::ContainerStopped { id, exit_code }) == Some((waiter, exit_code as int)),
        after_event(after, Event::ContainerStopped { id, exit_code })[id@].waiter is None,
        told(
            after_event(after, Event::ContainerStopped { id, exit_code }),
            Event::ContainerStopped { id, exit_code },
        ) is None,
{
}

/// A wait for a container that has stopped is answered with the exit code that was
/// reported.
pub proof fn exit_code_is_kept(
    before: Map<Seq<char>, Container>,
    id: String,
    exit_code: i32,
    req: WaitRequest,
    waiter: u64,
    after: Map<Seq<char>, Container>,
    action: Action,
)
    requires
        before.dom().contains(id@),
        req.container_id@ == id@,
        handled(
            after_event(before, Event::ContainerStopped { id, exit_code }),
            Command::Wait(req, waiter),
            after,
            action,
        ),
    ensures
        action == Action::Answer(WaitResponse { exit_code }),
{
}

/// A container whose creation failed leaves no trace: its identifier can be used
/// again.
pub proof fn failed_creation_frees_the_identifier(
    before: Map<Seq<char>, Container>,
    req: CreateRequest,
    after: Map<Seq<char>, Container>,
    id: String,
    error: TaskError,
)
    requires
        handled(before, Command::Create(req), after, Action::Create(req)),
        id@ == req.container_id@,
    ensures
        after_event(after, Event::ContainerCreateFailed { id, error }) == before,
{
    assert(after_event(after, Event::ContainerCreateFailed { id, error }) =~= before);
}

/// The order of a container's life: it is started only once created, killed only
/// while it runs, and deleted only while it does not run.
pub proof fn commands_follow_the_status(
    before: Map<Seq<char>, Container>,
    start: StartRequest,
    started: Action,
    kill: KillRequest,
    killed: Action,
    delete: DeleteRequest,
    deleted: Action,
)
    requires
        handled(before, Command::Start(start), before, started),
        handled(before, Command::Kill(kill), before, killed),
        handled(before, Command::Delete(delete), before, deleted),
    ensures
        started is Start <==> before.dom().contains(start.container_id@)
            && before[start.container_id@].status == Status::Created,
        killed is Kill <==> before.dom().contains(kill.container_id@)
            && before[kill.container_id@].status == Status::Running,
        deleted is Delete <==> before.dom().contains(delete.container_id@)
            && before[delete.container_id@].status != Status::Running,
        started is Start || started is Refuse,
        killed is Kill || killed is Refuse,
        deleted is Delete || deleted is Refuse,
{
}

} // verus!
