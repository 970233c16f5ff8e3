//! The errors of the virtual machine service and the statuses that they are
//! answered as.
use crate::rpc::{Code, RpcStatus};
use crate::text;
use crate::vm::persistence::{DatabaseError, PersistenceError};
use crate::vm::vmm::VmmError;
use vstd::prelude::*;

verus! {

/// Why a virtual machine could not be dealt with.
#[derive(Debug)]
pub enum VmServiceError {
    Vmm(VmmError),
    Persistence(PersistenceError),
    ImageService(String),
    InvalidArgument(String),
    AlreadyExists(String),
    InvalidState(String),
}

impl VmServiceError {
    /// What the error reads as.
    pub open spec fn text(self) -> Seq<char> {
        match self {
            VmServiceError::Vmm(e) => "VMM Error: "@ + e.text(),
            VmServiceError::Persistence(e) => "Persistence Error: "@ + e.text(),
            VmServiceError::ImageService(m) => "Image Service Error: "@ + m@,
            VmServiceError::InvalidArgument(m) => "Invalid argument: "@ + m@,
            VmServiceError::AlreadyExists(m) => "VM with ID "@ + m@ + " already exists"@,
            VmServiceError::InvalidState(m) => "Invalid VM state for operation: "@ + m@,
        }
    }

    /// The error's text.
    pub fn message(&self) -> (r: String)
        ensures
            r@ == self.text(),
    {
        match self {
            VmServiceError::Vmm(e) => text::cat2("VMM Error: ", e.message().as_str()),
            VmServiceError::Persistence(e) => text::cat2(
                "Persistence Error: ",
                e.message().as_str(),
            ),
            VmServiceError::ImageService(m) => text::cat2("Image Service Error: ", m.as_str()),
            VmServiceError::InvalidArgument(m) => text::cat2("Invalid argument: ", m.as_str()),
            VmServiceError::AlreadyExists(m) => text::cat3(
                "VM with ID ",
                m.as_str(),
                " already exists",
            ),
            VmServiceError::InvalidState(m) => text::cat2(
                "Invalid VM state for operation: ",
                m.as_str(),
            ),
        }
    }

    /// The code that the error is answered with.
    pub open spec fn code(self) -> Code {
        match self {
            VmServiceError::Vmm(e) => e.code(),
            VmServiceError::Persistence(
                PersistenceError::Database(DatabaseError::RowNotFound),
            ) => Code::NotFound,
            VmServiceError::Persistence(_) => Code::Internal,
            VmServiceError::ImageService(_) => Code::Unavailable,
            VmServiceError::InvalidArgument(_) => Code::InvalidArgument,
            VmServiceError::AlreadyExists(_) => Code::AlreadyExists,
            VmServiceError::InvalidState(_) => Code::FailedPrecondition,
        }
    }

    /// The message that the error is answered with.
    pub open spec fn answer(self) -> Seq<char> {
        match self {
            VmServiceError::Vmm(e) => e.detail(),
            VmServiceError::Persistence(
                PersistenceError::Database(DatabaseError::RowNotFound),
            ) => "Record not found in database"@,
            VmServiceError::Persistence(_) => "A database error occurred"@,
            VmServiceError::ImageService(m) => "Image service unavailable: "@ + m@,
            VmServiceError::InvalidArgument(m) => m@,
            VmServiceError::AlreadyExists(m) => m@,
            VmServiceError::InvalidState(m) => m@,
        }
    }

    /// The status that the error is answered as.
    pub fn into_status(self) -> (s: RpcStatus)
        ensures
            s.says(self.code(), self.answer()),
    {
        match self {
            VmServiceError::Vmm(e) => e.into_status(),
            VmServiceError::Persistence(
                PersistenceError::Database(DatabaseError::RowNotFound),
            ) => RpcStatus::new(Code::NotFound, "Record not found in database"),
            VmServiceError::Persistence(_) => RpcStatus::new(
                Code::Internal,
                "A database error occurred",
            ),
            VmServiceError::ImageService(m) => RpcStatus {
                code: Code::Unavailable,
                message: text::cat2("Image service unavailable: ", m.as_str()),
            },
            VmServiceError::InvalidArgument(m) => RpcStatus {
                code: Code::InvalidArgument,
                message: m,
            },
            VmServiceError::AlreadyExists(m) => RpcStatus {
                code: Code::AlreadyExists,
                message: m,
            },
            VmServiceError::InvalidState(m) => RpcStatus {
                code: Code::FailedPrecondition,
                message: m,
            },
        }
    }
}

} // verus!
