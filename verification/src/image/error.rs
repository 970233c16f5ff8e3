//! The errors of the image service and the statuses that they are answered as.
use crate::rpc::{Code, RpcStatus};
use crate::text;
use vstd::prelude::*;

verus! {

/// Why an image could not be dealt with. An error of the registry client or of
/// the file system is held as what it reads as.
#[derive(Debug)]
pub enum ImageServiceError {
    OciPull(String),
    OciParse(String),
    MissingLayer(String),
    Storage(String),
    NotFound(String),
    Internal(String),
}

impl ImageServiceError {
    /// What the error reads as.
    pub open spec fn text(self) -> Seq<char> {
        match self {
            ImageServiceError::OciPull(_) => "Failed to pull OCI image"@,
            ImageServiceError::OciParse(_) => "Failed to parse OCI image reference"@,
            ImageServiceError::MissingLayer(m) => "Required image layer '"@ + m@
                + "' not found in manifest"@,
            ImageServiceError::Storage(_) => "A file storage error occurred"@,
            ImageServiceError::NotFound(id) => "Image with ID '"@ + id@ + "' not found"@,
            ImageServiceError::Internal(m) => "An internal orchestrator error occurred: "@ + m@,
        }
    }

    /// The error's text.
    pub fn message(&self) -> (r: String)
        ensures
            r@ == self.text(),
    {
        match self {
            ImageServiceError::OciPull(_) => "Failed to pull OCI image".to_owned(),
            ImageServiceError::OciParse(_) => "Failed to parse OCI image reference".to_owned(),
            ImageServiceError::MissingLayer(m) => text::cat3(
                "Required image layer '",
                m.as_str(),
                "' not found in manifest",
            ),
            ImageServiceError::Storage(_) => "A file storage error occurred".to_owned(),
            ImageServiceError::NotFound(id) => text::cat3(
                "Image with ID '",
                id.as_str(),
                "' not found",
            ),
            ImageServiceError::Internal(m) => text::cat2(
                "An internal orchestrator error occurred: ",
                m.as_str(),
            ),
        }
    }

    /// The code that the error is answered with.
    pub open spec fn code(self) -> Code {
        match self {
            ImageServiceError::NotFound(_) => Code::NotFound,
            ImageServiceError::OciParse(_) => Code::InvalidArgument,
            ImageServiceError::OciPull(_) => Code::Unavailable,
            ImageServiceError::MissingLayer(_) => Code::Unavailable,
            ImageServiceError::Storage(_) => Code::Internal,
            ImageServiceError::Internal(_) => Code::Internal,
        }
    }

    /// The status that the error is answered as.
    pub fn into_status(self) -> (s: RpcStatus)
        ensures
            s.says(self.code(), self.text()),
    {
        let message = self.message();
        match self {
            ImageServiceError::NotFound(_) => RpcStatus { code: Code::NotFound, message },
            ImageServiceError::OciParse(_) => RpcStatus { code: Code::InvalidArgument, message },
            ImageServiceError::OciPull(_) => RpcStatus { code: Code::Unavailable, message },
            ImageServiceError::MissingLayer(_) => RpcStatus { code: Code::Unavailable, message },
            ImageServiceError::Storage(_) => RpcStatus { code: Code::Internal, message },
            ImageServiceError::Internal(_) => RpcStatus { code: Code::Internal, message },
        }
    }
}

} // verus!
