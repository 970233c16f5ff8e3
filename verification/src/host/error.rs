//! The errors of the host service and the statuses that they are answered as.
use crate::rpc::{Code, RpcStatus};
use crate::text;
use vstd::prelude::*;

verus! {

/// Why the host could not be dealt with. An error of the system is held as what it
/// reads as.
#[derive(Debug)]
pub enum HostError {
    Hostname(String),
    SystemInfoRead { source: String, path: String },
    PowerOperation(String),
    LogReader(String),
}

impl HostError {
    /// What the error reads as.
    pub open spec fn text(self) -> Seq<char> {
        match self {
            HostError::Hostname(_) => "Failed to get system hostname"@,
            HostError::SystemInfoRead { path, .. } => "Failed to read system info from "@ + path@,
            HostError::PowerOperation(_) => "Host power operation failed"@,
            HostError::LogReader(m) => "Failed to create log reader: "@ + m@,
        }
    }

    /// The error's text.
    pub fn message(&self) -> (r: String)
        ensures
            r@ == self.text(),
    {
        match self {
            HostError::Hostname(_) => "Failed to get system hostname".to_owned(),
            HostError::SystemInfoRead { path, .. } => text::cat2(
                "Failed to read system info from ",
                path.as_str(),
            ),
            HostError::PowerOperation(_) => "Host power operation failed".to_owned(),
            HostError::LogReader(m) => text::cat2("Failed to create log reader: ", m.as_str()),
        }
    }

    /// The message that the error is answered with.
    pub open spec fn answer(self) -> Seq<char> {
        match self {
            HostError::SystemInfoRead { path, .. } => "Failed to read system info from "@ + path@,
            HostError::Hostname(_) => "An internal host error occurred"@,
            HostError::PowerOperation(_) => "An internal host error occurred"@,
            HostError::LogReader(m) => m@,
        }
    }

    /// The status that the error is answered as.
    pub fn into_status(self) -> (s: RpcStatus)
        ensures
            s.says(Code::Internal, self.answer()),
    {
        match self {
            HostError::SystemInfoRead { path, .. } => RpcStatus {
                code: Code::Internal,
                message: text::cat2("Failed to read system info from ", path.as_str()),
            },
            HostError::Hostname(_) => RpcStatus::new(
                Code::Internal,
                "An internal host error occurred",
            ),
            HostError::PowerOperation(_) => RpcStatus::new(
                Code::Internal,
                "An internal host error occurred",
            ),
            HostError::LogReader(message) => RpcStatus { code: Code::Internal, message },
        }
    }
}

} // verus!
