//! What a remote call is answered: a value, or a status of a code and a message.
use crate::text;
use vstd::prelude::*;

verus! {

/// The status codes that the services answer with.
#[derive(Clone, Copy, Debug, PartialEq, Eq, Structural)]
pub enum Code {
    InvalidArgument,
    NotFound,
    AlreadyExists,
    FailedPrecondition,
    DataLoss,
    Unimplemented,
    Internal,
    Unavailable,
}

/// Why a remote call failed.
#[derive(Debug)]
pub struct RpcStatus {
    pub code: Code,
    pub message: String,
}

impl RpcStatus {
    /// Whether the status has this code and this message.
    pub open spec fn says(self, code: Code, message: Seq<char>) -> bool {
        self.code == code && self.message@ == message
    }

    /// A status of a code and a message.
    pub fn new(code: Code, message: &str) -> (s: RpcStatus)
        ensures
            s.says(code, message@),
    {
        RpcStatus { code, message: message.to_owned() }
    }
}

/// What became of a command that was handed to a dispatcher.
pub enum Delivery<T> {
    /// The dispatcher does not take commands any more, and why.
    NotSent(String),
    /// The command ended without an answer.
    Dropped,
    /// The command was answered.
    Answered(Result<T, RpcStatus>),
}

/// Turns what became of a command into the answer of the remote call: the
/// dispatcher's answer where there is one, an internal error otherwise.
pub fn dispatch_and_wait<T>(delivery: Delivery<T>) -> (r: Result<T, RpcStatus>)
    ensures
        match delivery {
            Delivery::NotSent(why) => r matches Err(s) && s.says(
                Code::Internal,
                "Failed to send command to dispatcher: "@ + why@,
            ),
            Delivery::Dropped => r matches Err(s) && s.says(
                Code::Internal,
                "Dispatcher task dropped response channel."@,
            ),
            Delivery::Answered(answer) => r == answer,
        },
{
    match delivery {
        Delivery::NotSent(why) => Err(
            RpcStatus {
                code: Code::Internal,
                message: text::cat2("Failed to send command to dispatcher: ", why.as_str()),
            },
        ),
        Delivery::Dropped => Err(
            RpcStatus::new(Code::Internal, "Dispatcher task dropped response channel."),
        ),
        Delivery::Answered(answer) => answer,
    }
}

/// The answer of a remote call that opens a stream: the dispatcher fills the stream
/// once it has taken the command.
pub fn dispatch_stream(sent: Result<(), String>) -> (r: Result<(), RpcStatus>)
    ensures
        match sent {
            Ok(_) => r is Ok,
            Err(why) => r matches Err(s) && s.says(
                Code::Internal,
                "Failed to send command to dispatcher: "@ + why@,
            ),
        },
{
    match sent {
        Ok(_) => Ok(()),
        Err(why) => Err(
            RpcStatus {
                code: Code::Internal,
                message: text::cat2("Failed to send command to dispatcher: ", why.as_str()),
            },
        ),
    }
}

} // verus!
