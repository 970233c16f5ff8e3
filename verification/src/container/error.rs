//! The errors of the container service and the statuses that they are answered as.
use crate::container::persistence::{DatabaseError, PersistenceError};
use crate::rpc::{Code, RpcStatus};
use crate::text;
use vstd::prelude::*;

verus! {

/// Why a container could not be dealt with.
#[derive(Debug)]
pub enum ContainerServiceError {
    Persistence(PersistenceError),
    ImageService(String),
    TaskService(String),
    Adapter(String),
    InvalidArgument(String),
    AlreadyExists(String),
    InvalidState(String),
}

impl ContainerServiceError {
    /// What the error reads as.
    pub open spec fn text(self) -> Seq<char> {
        match self {
            ContainerServiceError::Persistence(e) => "Persistence Error: "@ + e.text(),
            ContainerServiceError::ImageService(m) => "Image Service Error: "@ + m@,
            ContainerServiceError::TaskService(m) => "Task Service Error: "@ + m@,
            ContainerServiceError::Adapter(m) => "Runtime adapter error: "@ + m@,
            ContainerServiceError::InvalidArgument(m) => "Invalid argument: "@ + m@,
            ContainerServiceError::AlreadyExists(m) => "Container with ID "@ + m@
                + " already exists"@,
            ContainerServiceError::InvalidState(m) => "Invalid container state for operation: "@
                + m@,
        }
    }

    /// The error's text.
    pub fn message(&self) -> (r: String)
        ensures
            r@ == self.text(),
    {
        match self {
            ContainerServiceError::Persistence(e) => text::cat2(
                "Persistence Error: ",
                e.message().as_str(),
            ),
            ContainerServiceError::ImageService(m) => text::cat2(
                "Image Service Error: ",
                m.as_str(),
            ),
            ContainerServiceError::TaskService(m) => text::cat2(
                "Task Service Error: ",
                m.as_str(),
            ),
            ContainerServiceError::Adapter(m) => text::cat2("Runtime adapter error: ", m.as_str()),
            ContainerServiceError::InvalidArgument(m) => text::cat2(
                "Invalid argument: ",
                m.as_str(),
            ),
            ContainerServiceError::AlreadyExists(m) => text::cat3(
                "Container with ID ",
                m.as_str(),
                " already exists",
            ),
            ContainerServiceError::InvalidState(m) => text::cat2(
                "Invalid container state for operation: ",
                m.as_str(),
            ),
        }
    }

    /// The code that the error is answered with.
    pub open spec fn code(self) -> Code {
        match self {
            ContainerServiceError::Persistence(
                PersistenceError::Database(DatabaseError::RowNotFound),
            ) => Code::NotFound,
            ContainerServiceError::Persistence(_) => Code::Internal,
            ContainerServiceError::ImageService(_) => Code::Unavailable,
            ContainerServiceError::TaskService(_) => Code::Unavailable,
            ContainerServiceError::Adapter(_) => Code::Internal,
            ContainerServiceError::InvalidArgument(_) => Code::InvalidArgument,
            ContainerServiceError::AlreadyExists(_) => Code::AlreadyExists,
            ContainerServiceError::InvalidState(_) => Code::FailedPrecondition,
        }
    }

    /// The message that the error is answered with.
    pub open spec fn answer(self) -> Seq<char> {
        match self {
            ContainerServiceError::Persistence(
                PersistenceError::Database(DatabaseError::RowNotFound),
            ) => "Record not found in database"@,
            ContainerServiceError::Persistence(_) => "A database error occurred"@,
            ContainerServiceError::ImageService(m) => "Image service unavailable: "@ + m@,
            ContainerServiceError::TaskService(m) => "Task service unavailable: "@ + m@,
            ContainerServiceError::Adapter(m) => "Runtime adapter error: "@ + m@,
            ContainerServiceError::InvalidArgument(m) => m@,
            ContainerServiceError::AlreadyExists(m) => m@,
            ContainerServiceError::InvalidState(m) => m@,
        }
    }

    /// The status that the error is answered as.
    pub fn into_status(self) -> (s: RpcStatus)
        ensures
            s.says(self.code(), self.answer()),
    {
        match self {
            ContainerServiceError::Persistence(
                PersistenceError::Database(DatabaseError::RowNotFound),
            ) => RpcStatus::new(Code::NotFound, "Record not found in database"),
            ContainerServiceError::Persistence(_) => RpcStatus::new(
                Code::Internal,
                "A database error occurred",
            ),
            ContainerServiceError::ImageService(m) => RpcStatus {
                code: Code::Unavailable,
                message: text::cat2("Image service unavailable: ", m.as_str()),
            },
            ContainerServiceError::TaskService(m) => RpcStatus {
                code: Code::Unavailable,
                message: text::cat2("Task service unavailable: ", m.as_str()),
            },
            ContainerServiceError::Adapter(m) => RpcStatus {
                code: Code::Internal,
                message: text::cat2("Runtime adapter error: ", m.as_str()),
            },
            ContainerServiceError::InvalidArgument(m) => RpcStatus {
                code: Code::InvalidArgument,
                message: m,
            },
            ContainerServiceError::AlreadyExists(m) => RpcStatus {
                code: Code::AlreadyExists,
                message: m,
            },
            ContainerServiceError::InvalidState(m) => RpcStatus {
                code: Code::FailedPrecondition,
                message: m,
            },
        }
    }
}

} // verus!
