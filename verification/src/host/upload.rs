//! An upgrade by upload: the client streams a checksum and then the binary, which
//! is checked and staged before the machine restarts with it.
use crate::digest;
use crate::host::RestartSignal;
use crate::rpc::{Code, RpcStatus};
use crate::text;
use vstd::prelude::*;

verus! {

/// Where a new binary is staged.
pub const UPGRADE_DIR: &'static str = "/var/lib/feos/upgrade";

/// A message of an upload.
pub enum UploadMessage {
    /// The checksum that the binary must have.
    Metadata { sha256_sum: String },
    /// The next bytes of the binary.
    Chunk(Vec<u8>),
    /// A message without content.
    Empty,
}

/// What can be read of a file: its first four bytes, where it has as many, and the
/// bytes after them.
pub struct FileRead {
    pub head: Option<[u8; 4]>,
    pub rest: Result<Vec<u8>, String>,
}

/// The answer to an upgrade.
#[derive(Debug)]
pub struct UpgradeResponse {
    pub message: String,
}

/// How far an upload has come, and what the last step gave.
pub enum UploadProgress {
    /// The first message, if any.
    Opened(Option<Result<UploadMessage, RpcStatus>>),
    /// Whether there is a temporary file to write to.
    TempFileMade { expected: String, made: Result<(), String> },
    /// The next message, if any.
    Received { expected: String, message: Option<Result<UploadMessage, RpcStatus>> },
    /// Whether the last bytes were written.
    ChunkWritten { expected: String, written: Result<(), String> },
    /// The file as it was read back, where it could be opened.
    ReadBack { expected: String, file: Result<FileRead, String> },
    /// Whether the binary lies at its final path, and may be executed.
    Staged(Result<(), String>),
    /// Whether the main process was told to restart.
    Signalled(Result<(), String>),
}

/// What to do next for an upload.
pub enum UploadAction {
    /// Create a temporary file in the upgrade directory.
    MakeTempFile { expected: String },
    /// Wait for the next message.
    NextMessage { expected: String },
    /// Append bytes to the temporary file.
    WriteChunk { expected: String, chunk: Vec<u8> },
    /// Read the temporary file back.
    ReadBack { expected: String },
    /// Move the temporary file to its final path and make it executable.
    Stage { path: String },
    /// Tell the main process to restart.
    Signal(RestartSignal),
    /// Answer the client; the upload is over.
    Answer(Result<UpgradeResponse, RpcStatus>),
}

/// Whether bytes are the mark that a binary begins with.
pub open spec fn is_elf(head: [u8; 4]) -> bool {
    head@ == seq![0x7fu8, 0x45u8, 0x4cu8, 0x46u8]
}

/// Whether a file is the binary that a checksum stands for.
pub open spec fn is_binary(file: FileRead, expected: Seq<char>) -> bool {
    &&& file.head matches Some(head) && is_elf(head) && (file.rest matches Ok(rest)
        && digest::hex_text(digest::sha256(head@ + rest@)) == expected)
}

/// What is wrong with an uploaded file: it is too short, does not begin like a
/// binary, cannot be read, or has another checksum.
pub open spec fn upload_refused(file: FileRead, expected: Seq<char>, s: RpcStatus) -> bool {
    match file.head {
        None => s.says(
            Code::InvalidArgument,
            "Received file is too small to be a valid binary."@,
        ),
        Some(head) => if !is_elf(head) {
            s.says(Code::InvalidArgument, "Uploaded file is not a valid ELF binary."@)
        } else {
            match file.rest {
                Err(e) => s.says(
                    Code::Internal,
                    "Failed to read temp file for hashing: "@ + e@,
                ),
                Ok(rest) => {
                    let actual = digest::hex_text(digest::sha256(head@ + rest@));
                    actual != expected && s.says(
                        Code::InvalidArgument,
                        "Checksum mismatch. Expected: "@ + expected + ", Got: "@ + actual,
                    )
                },
            }
        },
    }
}

/// Whether the bytes are the mark that a binary begins with.
pub fn has_elf_magic(head: &[u8; 4]) -> (r: bool)
    ensures
        r == is_elf(*head),
{
    let r = head[0] == 0x7f && head[1] == 0x45 && head[2] == 0x4c && head[3] == 0x46;
    proof {
        let magic = seq![0x7fu8, 0x45u8, 0x4cu8, 0x46u8];
        if r {
            assert(head@ =~= magic);
        } else {
            assert(head@[0] != magic[0] || head@[1] != magic[1] || head@[2] != magic[2]
                || head@[3] != magic[3]);
        }
    }
    r
}

/// The bytes of a file, from its first four and the rest.
pub fn whole_file(head: &[u8; 4], rest: &Vec<u8>) -> (r: Vec<u8>)
    ensures
        r@ == head@ + rest@,
{
    let mut all: Vec<u8> = vec![head[0], head[1], head[2], head[3]];
    assert(all@ =~= head@);
    all.extend_from_slice(rest.as_slice());
    assert(all@ =~= head@ + rest@);
    all
}

/// Compares the checksum of an uploaded file with the one that was announced.
pub fn compare_checksums(actual: &str, expected: &str) -> (r: Result<(), RpcStatus>)
    ensures
        match r {
            Ok(_) => actual@ == expected@,
            Err(s) => actual@ != expected@ && s.says(
                Code::InvalidArgument,
                "Checksum mismatch. Expected: "@ + expected@ + ", Got: "@ + actual@,
            ),
        },
{
    if text::same(actual, expected) {
        Ok(())
    } else {
        Err(
            RpcStatus {
                code: Code::InvalidArgument,
                message: text::cat4(
                    "Checksum mismatch. Expected: ",
                    expected,
                    ", Got: ",
                    actual,
                ),
            },
        )
    }
}

/// Checks an uploaded file against the checksum that was announced.
pub fn validate_upload(file: FileRead, expected: &str) -> (r: Result<(), RpcStatus>)
    ensures
        match r {
            Ok(_) => is_binary(file, expected@),
            Err(s) => !is_binary(file, expected@) && upload_refused(file, expected@, s),
        },
{
    let head = match file.head {
        Some(head) => head,
        None => {
            return Err(
                RpcStatus::new(
                    Code::InvalidArgument,
                    "Received file is too small to be a valid binary.",
                ),
            );
        },
    };
    if !has_elf_magic(&head) {
        return Err(
            RpcStatus::new(Code::InvalidArgument, "Uploaded file is not a valid ELF binary."),
        );
    }
    let rest = match file.rest {
        Ok(rest) => rest,
        Err(e) => {
            return Err(
                RpcStatus {
                    code: Code::Internal,
                    message: text::cat2("Failed to read temp file for hashing: ", e.as_str()),
                },
            );
        },
    };
    let actual = digest::checksum(&whole_file(&head, &rest));
    compare_checksums(actual.as_str(), expected)
}

/// Whether the upload ends with this status.
pub open spec fn fails_with(action: UploadAction, code: Code, message: Seq<char>) -> bool {
    action matches UploadAction::Answer(Err(s)) && s.says(code, message)
}

/// The next step of an upload.
pub open spec fn upload_next(progress: UploadProgress, action: UploadAction) -> bool {
    match progress {
        UploadProgress::Opened(None) => fails_with(
            action,
            Code::InvalidArgument,
            "Empty request stream."@,
        ),
        UploadProgress::Opened(Some(Err(s))) => action == UploadAction::Answer(Err(s)),
        UploadProgress::Opened(Some(Ok(message))) => match message {
            UploadMessage::Metadata { sha256_sum } => action == (UploadAction::MakeTempFile {
                expected: sha256_sum,
            }),
            _ => fails_with(
                action,
                Code::InvalidArgument,
                "First message must be UpgradeMetadata."@,
            ),
        },
        UploadProgress::TempFileMade { expected, made } => match made {
            Ok(_) => action == (UploadAction::NextMessage { expected }),
            Err(e) => fails_with(action, Code::Internal, "Failed to create temp file: "@ + e@),
        },
        UploadProgress::Received { expected, message } => match message {
            None => action == (UploadAction::ReadBack { expected }),
            Some(Err(s)) => action == UploadAction::Answer(Err(s)),
            Some(Ok(message)) => match message {
                UploadMessage::Chunk(chunk) => action == (UploadAction::WriteChunk {
                    expected,
                    chunk,
                }),
                _ => fails_with(
                    action,
                    Code::InvalidArgument,
                    "Subsequent messages must be binary chunks."@,
                ),
            },
        },
        UploadProgress::ChunkWritten { expected, written } => match written {
            Ok(_) => action == (UploadAction::NextMessage { expected }),
            Err(e) => fails_with(action, Code::Internal, "Failed to write to temp file: "@ + e@),
        },
        UploadProgress::ReadBack { expected, file } => match file {
            Err(e) => fails_with(
                action,
                Code::Internal,
                "Failed to reopen temp file for validation: "@ + e@,
            ),
            Ok(file) => if is_binary(file, expected@) {
                action matches UploadAction::Stage { path } && path@ == text::joined(
                    UPGRADE_DIR@,
                    "feos.new"@,
                )
            } else {
                action matches UploadAction::Answer(Err(s)) && upload_refused(file, expected@, s)
            },
        },
        UploadProgress::Staged(staged) => match staged {
            Ok(_) => action matches UploadAction::Signal(signal) && signal.0@ == text::joined(
                UPGRADE_DIR@,
                "feos.new"@,
            ),
            Err(e) => fails_with(
                action,
                Code::Internal,
                "Failed to persist and set permissions on new binary: "@ + e@,
            ),
        },
        UploadProgress::Signalled(sent) => match sent {
            Ok(_) => action matches UploadAction::Answer(Ok(response)) && response.message@
                == "Binary received and validated. System will now restart with the new binary."@,
            Err(e) => fails_with(
                action,
                Code::Internal,
                "Failed to send restart signal to main process: "@ + e@,
            ),
        },
    }
}

fn fail(code: Code, message: String) -> (action: UploadAction)
    ensures
        fails_with(action, code, message@),
{
    UploadAction::Answer(Err(RpcStatus { code, message }))
}

/// The next step of an upload.
pub fn handle_upgrade(progress: UploadProgress) -> (action: UploadAction)
    ensures
        upload_next(progress, action),
{
    match progress {
        UploadProgress::Opened(first) => match first {
            None => fail(Code::InvalidArgument, "Empty request stream.".to_owned()),
            Some(Err(s)) => UploadAction::Answer(Err(s)),
            Some(Ok(message)) => match message {
                UploadMessage::Metadata { sha256_sum } => UploadAction::MakeTempFile {
                    expected: sha256_sum,
                },
                _ => fail(
                    Code::InvalidArgument,
                    "First message must be UpgradeMetadata.".to_owned(),
                ),
            },
        },
        UploadProgress::TempFileMade { expected, made } => match made {
            Ok(_) => UploadAction::NextMessage { expected },
            Err(e) => fail(
                Code::Internal,
                text::cat2("Failed to create temp file: ", e.as_str()),
            ),
        },
        UploadProgress::Received { expected, message } => match message {
            None => UploadAction::ReadBack { expected },
            Some(Err(s)) => UploadAction::Answer(Err(s)),
            Some(Ok(message)) => match message {
                UploadMessage::Chunk(chunk) => UploadAction::WriteChunk { expected, chunk },
                _ => fail(
                    Code::InvalidArgument,
                    "Subsequent messages must be binary chunks.".to_owned(),
                ),
            },
        },
        UploadProgress::ChunkWritten { expected, written } => match written {
            Ok(_) => UploadAction::NextMessage { expected },
            Err(e) => fail(
                Code::Internal,
                text::cat2("Failed to write to temp file: ", e.as_str()),
            ),
        },
        UploadProgress::ReadBack { expected, file } => match file {
            Err(e) => fail(
                Code::Internal,
                text::cat2("Failed to reopen temp file for validation: ", e.as_str()),
            ),
            Ok(file) => match validate_upload(file, expected.as_str()) {
                Ok(_) => UploadAction::Stage { path: text::path_join(UPGRADE_DIR, "feos.new") },
                Err(s) => UploadAction::Answer(Err(s)),
            },
        },
        UploadProgress::Staged(staged) => match staged {
            Ok(_) => UploadAction::Signal(
                RestartSignal(text::path_join(UPGRADE_DIR, "feos.new")),
            ),
            Err(e) => fail(
                Code::Internal,
                text::cat2("Failed to persist and set permissions on new binary: ", e.as_str()),
            ),
        },
        UploadProgress::Signalled(sent) => match sent {
            Ok(_) => UploadAction::Answer(
                Ok(
                    UpgradeResponse {
                        message:
                            "Binary received and validated. System will now restart with the new binary.".to_owned(),
                    },
                ),
            ),
            Err(e) => fail(
                Code::Internal,
                text::cat2("Failed to send restart signal to main process: ", e.as_str()),
            ),
        },
    }
}

/// No step of an upload stages a file but the one that follows a file which begins
/// like a binary and has the announced checksum; no step asks for a restart but the
/// one that follows the staging, and no step answers with success but the one that
/// follows the request for a restart.
pub proof fn only_a_valid_binary_is_staged(progress: UploadProgress, action: UploadAction)
    requires
        upload_next(progress, action),
    ensures
        action is Stage <==> (progress matches UploadProgress::ReadBack { expected, file: Ok(file) }
            && is_binary(file, expected@)),
        action is Signal <==> (progress matches UploadProgress::Staged(Ok(_))),
        (action matches UploadAction::Answer(Ok(_))) <==> (progress matches UploadProgress::Signalled(
            Ok(_),
        )),
{
}

} // verus!
