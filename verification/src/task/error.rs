//! The errors of the task service and the statuses that they are answered as.
use crate::rpc::{Code, RpcStatus};
use crate::task::Status;
use crate::text;
use vstd::prelude::*;

verus! {

/// Why a container could not be dealt with.
#[derive(Debug)]
pub enum TaskError {
    ContainerNotFound(String),
    ContainerAlreadyExists(String),
    InvalidState { id: String, current_state: Status, required_states: Vec<Status> },
    YoukiCommand(String),
    Internal(String),
    Io(String),
}

/// The names of states with commas between them.
pub open spec fn listed(states: Seq<Status>) -> Seq<char>
    decreases states.len(),
{
    if states.len() == 0 {
        Seq::empty()
    } else if states.len() == 1 {
        states[0].label()
    } else {
        listed(states.drop_last()) + ", "@ + states.last().label()
    }
}

/// Writes the names of states with commas between them.
fn list_states(states: &Vec<Status>) -> (r: String)
    ensures
        r@ == listed(states@),
{
    let mut r = String::new();
    let mut i: usize = 0;
    assert(states@.take(0) =~= Seq::<Status>::empty());
    while i < states.len()
        invariant
            i <= states@.len(),
            r@ == listed(states@.take(i as int)),
        decreases states@.len() - i,
    {
        assert(states@.take(i + 1).drop_last() =~= states@.take(i as int));
        if i == 0 {
            r = states[i].name().to_owned();
        } else {
            r = text::cat3(r.as_str(), ", ", states[i].name());
        }
        i += 1;
    }
    assert(states@.take(i as int) =~= states@);
    r
}

/// What a command in the wrong state reads as.
pub open spec fn wrong_state(id: Seq<char>, current: Status, required: Seq<Status>) -> Seq<char> {
    "Invalid state for operation on container '"@ + id + "': current state is "@ + current.label()
        + ", required one of ["@ + listed(required) + "]"@
}

fn wrong_state_text(id: &str, current: Status, required: &Vec<Status>) -> (r: String)
    ensures
        r@ == wrong_state(id@, current, required@),
{
    let list = list_states(required);
    text::cat3(
        text::cat5(
            "Invalid state for operation on container '",
            id,
            "': current state is ",
            current.name(),
            ", required one of [",
        ).as_str(),
        list.as_str(),
        "]",
    )
}

impl TaskError {
    /// What the error reads as.
    pub open spec fn text(self) -> Seq<char> {
        match self {
            TaskError::ContainerNotFound(id) => "Container with ID '"@ + id@ + "' not found"@,
            TaskError::ContainerAlreadyExists(id) => "Container with ID '"@ + id@
                + "' already exists"@,
            TaskError::InvalidState { id, current_state, required_states } => wrong_state(
                id@,
                current_state,
                required_states@,
            ),
            TaskError::YoukiCommand(m) => "Youki command failed: "@ + m@,
            TaskError::Internal(m) => "An internal error occurred: "@ + m@,
            TaskError::Io(m) => "I/O error: "@ + m@,
        }
    }

    /// The error's text.
    pub fn message(&self) -> (r: String)
        ensures
            r@ == self.text(),
    {
        match self {
            TaskError::ContainerNotFound(id) => text::cat3(
                "Container with ID '",
                id.as_str(),
                "' not found",
            ),
            TaskError::ContainerAlreadyExists(id) => text::cat3(
                "Container with ID '",
                id.as_str(),
                "' already exists",
            ),
            TaskError::InvalidState { id, current_state, required_states } => wrong_state_text(
                id.as_str(),
                *current_state,
                required_states,
            ),
            TaskError::YoukiCommand(m) => text::cat2("Youki command failed: ", m.as_str()),
            TaskError::Internal(m) => text::cat2("An internal error occurred: ", m.as_str()),
            TaskError::Io(m) => text::cat2("I/O error: ", m.as_str()),
        }
    }

    /// Whether two errors say the same.
    pub open spec fn same_as(self, other: TaskError) -> bool {
        self.text() == other.text() && self.code() == other.code() && self.answer()
            == other.answer()
    }

    /// Another error that says the same.
    pub fn duplicate(&self) -> (r: TaskError)
        ensures
            r.same_as(*self),
    {
        match self {
            TaskError::ContainerNotFound(id) => TaskError::ContainerNotFound(id.clone()),
            TaskError::ContainerAlreadyExists(id) => TaskError::ContainerAlreadyExists(id.clone()),
            TaskError::InvalidState { id, current_state, required_states } => {
                let mut states: Vec<Status> = Vec::new();
                let mut i: usize = 0;
                while i < required_states.len()
                    invariant
                        i <= required_states@.len(),
                        states@ == required_states@.take(i as int),
                    decreases required_states@.len() - i,
                {
                    states.push(required_states[i]);
                    i += 1;
                    assert(required_states@.take(i as int) =~= required_states@.take(i - 1).push(
                        required_states@[i - 1],
                    ));
                }
                assert(required_states@.take(i as int) =~= required_states@);
                TaskError::InvalidState {
                    id: id.clone(),
                    current_state: *current_state,
                    required_states: states,
                }
            },
            TaskError::YoukiCommand(m) => TaskError::YoukiCommand(m.clone()),
            TaskError::Internal(m) => TaskError::Internal(m.clone()),
            TaskError::Io(m) => TaskError::Io(m.clone()),
        }
    }

    /// An error of the file system.
    pub fn from_io(message: String) -> (r: TaskError)
        ensures
            r == TaskError::Io(message),
    {
        TaskError::Io(message)
    }

    /// The code that the error is answered with.
    pub open spec fn code(self) -> Code {
        match self {
            TaskError::ContainerNotFound(_) => Code::NotFound,
            TaskError::ContainerAlreadyExists(_) => Code::AlreadyExists,
            TaskError::InvalidState { .. } => Code::FailedPrecondition,
            TaskError::YoukiCommand(_) => Code::Internal,
            TaskError::Internal(_) => Code::Internal,
            TaskError::Io(_) => Code::Internal,
        }
    }

    /// The message that the error is answered with.
    pub open spec fn answer(self) -> Seq<char> {
        match self {
            TaskError::ContainerNotFound(id) => id@,
            TaskError::ContainerAlreadyExists(id) => id@,
            TaskError::InvalidState { id, current_state, required_states } => wrong_state(
                id@,
                current_state,
                required_states@,
            ),
            TaskError::YoukiCommand(m) => m@,
            TaskError::Internal(m) => m@,
            TaskError::Io(m) => "I/O error: "@ + m@,
        }
    }

    /// The status that the error is answered as.
    pub fn into_status(self) -> (s: RpcStatus)
        ensures
            s.says(self.code(), self.answer()),
    {
        match self {
            TaskError::ContainerNotFound(id) => RpcStatus { code: Code::NotFound, message: id },
            TaskError::ContainerAlreadyExists(id) => RpcStatus {
                code: Code::AlreadyExists,
                message: id,
            },
            TaskError::InvalidState { id, current_state, required_states } => RpcStatus {
                code: Code::FailedPrecondition,
                message: wrong_state_text(id.as_str(), current_state, &required_states),
            },
            TaskError::YoukiCommand(message) => RpcStatus { code: Code::Internal, message },
            TaskError::Internal(message) => RpcStatus { code: Code::Internal, message },
            TaskError::Io(m) => RpcStatus {
                code: Code::Internal,
                message: text::cat2("I/O error: ", m.as_str()),
            },
        }
    }
}

} // verus!
