//! Upgrades from an address, and streams of logs.
use crate::digest;
use crate::host::upload::{self, FileRead, UPGRADE_DIR};
use crate::host::RestartSignal;
use crate::rpc::{Code, RpcStatus};
use crate::text;
use vstd::prelude::*;

verus! {

/// Where the kernel's log is read.
pub const KMSG_PATH: &'static str = "/dev/kmsg";

/// What happens while a log is streamed.
pub enum LogEvent {
    /// The log could not be opened.
    NotOpened(String),
    /// The client is gone.
    ClientGone,
    /// The next line.
    Line(String),
    /// The log has ended.
    Ended,
    /// The log could not be read.
    Failed(String),
}

/// What a stream of a log does.
pub enum LogAction {
    /// Pass the line on; the stream is over if the client is gone.
    Send(String),
    /// Tell the client an error; the stream is over.
    Fail(RpcStatus),
    /// The stream is over.
    Stop,
}

/// What the stream of the kernel's log does with what happens.
pub fn handle_stream_kernel_logs(event: LogEvent) -> (action: LogAction)
    ensures
        match event {
            LogEvent::NotOpened(e) => action matches LogAction::Fail(s) && s.says(
                Code::Internal,
                "Failed to open "@ + KMSG_PATH@ + ": "@ + e@,
            ),
            LogEvent::ClientGone => action == LogAction::Stop,
            LogEvent::Line(line) => action == LogAction::Send(line),
            LogEvent::Ended => action == LogAction::Stop,
            LogEvent::Failed(e) => action matches LogAction::Fail(s) && s.says(
                Code::Internal,
                "Error reading from "@ + KMSG_PATH@ + ": "@ + e@,
            ),
        },
{
    match event {
        LogEvent::NotOpened(e) => LogAction::Fail(
            RpcStatus {
                code: Code::Internal,
                message: text::cat4("Failed to open ", KMSG_PATH, ": ", e.as_str()),
            },
        ),
        LogEvent::ClientGone => LogAction::Stop,
        LogEvent::Line(line) => LogAction::Send(line),
        LogEvent::Ended => LogAction::Stop,
        LogEvent::Failed(e) => LogAction::Fail(
            RpcStatus {
                code: Code::Internal,
                message: text::cat4("Error reading from ", KMSG_PATH, ": ", e.as_str()),
            },
        ),
    }
}

/// An entry of the service's own log.
#[derive(Debug)]
pub struct LogEntry {
    pub seq: u64,
    pub seconds: i64,
    pub nanos: u32,
    pub level: String,
    pub target: String,
    pub message: String,
}

/// An entry of the service's own log as clients see it.
#[derive(Debug)]
pub struct FeosLogEntry {
    pub seq: u64,
    pub seconds: i64,
    pub nanos: i32,
    pub level: String,
    pub target: String,
    pub message: String,
}

/// What happens while the service's own log is streamed.
pub enum FeosLogEvent {
    /// The log cannot be read.
    NoReader,
    /// The next entry.
    Entry(LogEntry),
    /// The log has ended.
    Ended,
}

/// What a stream of the service's own log does.
pub enum FeosLogAction {
    /// Pass the entry on; the stream is over if the client is gone.
    Send(FeosLogEntry),
    /// Tell the client an error; the stream is over.
    Fail(RpcStatus),
    /// The stream is over.
    Stop,
}

/// What the stream of the service's own log does with what happens.
pub fn handle_stream_feos_logs(event: FeosLogEvent) -> (action: FeosLogAction)
    requires
        event matches FeosLogEvent::Entry(entry) ==> entry.nanos <= i32::MAX,
    ensures
        match event {
            FeosLogEvent::NoReader => action matches FeosLogAction::Fail(s) && s.says(
                Code::Internal,
                "Failed to create log reader"@,
            ),
            FeosLogEvent::Entry(entry) => action == FeosLogAction::Send(
                FeosLogEntry {
                    seq: entry.seq,
                    seconds: entry.seconds,
                    nanos: entry.nanos as i32,
                    level: entry.level,
                    target: entry.target,
                    message: entry.message,
                },
            ),
            FeosLogEvent::Ended => action == FeosLogAction::Stop,
        },
{
    match event {
        FeosLogEvent::NoReader => FeosLogAction::Fail(
            RpcStatus::new(Code::Internal, "Failed to create log reader"),
        ),
        FeosLogEvent::Entry(entry) => FeosLogAction::Send(
            FeosLogEntry {
                seq: entry.seq,
                seconds: entry.seconds,
                nanos: entry.nanos as i32,
                level: entry.level,
                target: entry.target,
                message: entry.message,
            },
        ),
        FeosLogEvent::Ended => FeosLogAction::Stop,
    }
}

/// What happens while a file is downloaded.
pub enum DownloadEvent {
    /// The certificates of the system could not be loaded.
    NoCertificates(String),
    /// Everything is ready for a request to this address.
    Ready { url: String },
    /// The request failed.
    RequestFailed(String),
    /// The server answered with a status; what it reads as.
    Answered { code: u16, status: String },
    /// A part of the answer, which may hold bytes of the file.
    Frame(Option<Vec<u8>>),
    /// The answer could not be read on.
    FrameFailed(String),
    /// Whether the last bytes were written.
    Written(Result<(), String>),
    /// The answer has ended.
    Ended,
}

/// What a download does.
pub enum DownloadAction {
    /// Ask the server at this address.
    Get { url: String },
    /// Wait for the next part of the answer.
    NextFrame,
    /// Append bytes to the file.
    Write(Vec<u8>),
    /// The download is over.
    Finish(Result<(), String>),
}

/// Whether a download fails with this message.
pub open spec fn download_fails(action: DownloadAction, message: Seq<char>) -> bool {
    action matches DownloadAction::Finish(Err(m)) && m@ == message
}

/// What `hyper::Uri` says is wrong with an address, if anything.
pub uninterp spec fn uri_refusal(url: Seq<char>) -> Option<Seq<char>>;

/// Parses an address as a `hyper::Uri`. Whether it is one, and what its error reads as
/// where it is none, depends on the address alone.
#[verifier::external_body]
fn parse_uri(url: &str) -> (r: Result<(), String>)
    ensures
        match r {
            Ok(_) => uri_refusal(url@) is None,
            Err(e) => uri_refusal(url@) == Some(e@),
        },
{
    url.parse::<hyper::Uri>().map(|_| ()).map_err(|e| e.to_string())
}

/// How a download begins, given what is wrong with its address, if anything.
pub fn begin_download(url: String, parsed: Result<(), String>) -> (action: DownloadAction)
    ensures
        match parsed {
            Ok(_) => action == (DownloadAction::Get { url }),
            Err(e) => download_fails(action, e@),
        },
{
    match parsed {
        Ok(_) => DownloadAction::Get { url },
        Err(e) => DownloadAction::Finish(Err(e)),
    }
}

/// What a download does with what happens: a malformed address and any status but one
/// of success end it.
pub fn download_file(event: DownloadEvent) -> (action: DownloadAction)
    ensures
        match event {
            DownloadEvent::NoCertificates(e) => download_fails(
                action,
                "Could not load native root certificates: "@ + e@,
            ),
            DownloadEvent::Ready { url } => match uri_refusal(url@) {
                None => action == (DownloadAction::Get { url }),
                Some(e) => download_fails(action, e),
            },
            DownloadEvent::RequestFailed(e) => download_fails(
                action,
                "HTTP GET request failed: "@ + e@,
            ),
            DownloadEvent::Answered { code, status } => if 200 <= code < 300 {
                action == DownloadAction::NextFrame
            } else {
                download_fails(action, "Download failed with status: "@ + status@)
            },
            DownloadEvent::Frame(Some(chunk)) => action == DownloadAction::Write(chunk),
            DownloadEvent::Frame(None) => action == DownloadAction::NextFrame,
            DownloadEvent::FrameFailed(e) => download_fails(
                action,
                "Error reading response frame: "@ + e@,
            ),
            DownloadEvent::Written(Ok(_)) => action == DownloadAction::NextFrame,
            DownloadEvent::Written(Err(e)) => download_fails(
                action,
                "Failed to write chunk to temp file: "@ + e@,
            ),
            DownloadEvent::Ended => action == DownloadAction::Finish(Ok(())),
        },
{
    match event {
        DownloadEvent::NoCertificates(e) => DownloadAction::Finish(
            Err(text::cat2("Could not load native root certificates: ", e.as_str())),
        ),
        DownloadEvent::Ready { url } => {
            let parsed = parse_uri(url.as_str());
            begin_download(url, parsed)
        },
        DownloadEvent::RequestFailed(e) => DownloadAction::Finish(
            Err(text::cat2("HTTP GET request failed: ", e.as_str())),
        ),
        DownloadEvent::Answered { code, status } => if 200 <= code && code < 300 {
            DownloadAction::NextFrame
        } else {
            DownloadAction::Finish(
                Err(text::cat2("Download failed with status: ", status.as_str())),
            )
        },
        DownloadEvent::Frame(data) => match data {
            Some(chunk) => DownloadAction::Write(chunk),
            None => DownloadAction::NextFrame,
        },
        DownloadEvent::FrameFailed(e) => DownloadAction::Finish(
            Err(text::cat2("Error reading response frame: ", e.as_str())),
        ),
        DownloadEvent::Written(written) => match written {
            Ok(_) => DownloadAction::NextFrame,
            Err(e) => DownloadAction::Finish(
                Err(text::cat2("Failed to write chunk to temp file: ", e.as_str())),
            ),
        },
        DownloadEvent::Ended => DownloadAction::Finish(Ok(())),
    }
}

/// Asks for an upgrade with the binary at an address.
#[derive(Debug)]
pub struct UpgradeFeosBinaryRequest {
    pub url: String,
    pub sha256_sum: String,
}

/// How far an upgrade has come, and what the last step gave.
pub enum UpgradeProgress {
    Received,
    /// The client was answered, if it was still there.
    Answered,
    /// Whether there is a temporary file to write to.
    TempFileMade(Result<(), String>),
    /// What the download came to.
    Downloaded(Result<(), String>),
    /// The file as it was read back, where it could be opened.
    ReadBack(Result<FileRead, String>),
    /// Whether the binary lies at its final path, and may be executed.
    Staged(Result<(), String>),
    /// Whether the main process was told to restart.
    Signalled(Result<(), String>),
}

/// Why an upgrade was given up. The client is not told.
pub enum UpgradeFailure {
    TempFile(String),
    Download(String),
    Reopen(String),
    TooSmall,
    NotElf,
    Read(String),
    Checksum { expected: String, actual: String },
    Stage(String),
    Signal(String),
}

/// What to do next for an upgrade.
pub enum UpgradeAction {
    /// Answer the client that the upgrade begins.
    Answer,
    /// Create a temporary file in the upgrade directory.
    MakeTempFile,
    /// Download the binary from this address to the temporary file.
    Download { url: String },
    /// Read the temporary file back.
    ReadBack,
    /// Move the temporary file to its final path and make it executable.
    Stage { path: String },
    /// Tell the main process to restart.
    Signal(RestartSignal),
    /// The upgrade is given up.
    GiveUp(UpgradeFailure),
    /// The upgrade is done.
    Done,
}

/// What is wrong with a downloaded file.
pub open spec fn download_refused(file: FileRead, expected: Seq<char>, f: UpgradeFailure) -> bool {
    match file.head {
        None => f == UpgradeFailure::TooSmall,
        Some(head) => if !upload::is_elf(head) {
            f == UpgradeFailure::NotElf
        } else {
            match file.rest {
                Err(e) => f == UpgradeFailure::Read(e),
                Ok(rest) => f matches UpgradeFailure::Checksum { expected: e, actual } && e@
                    == expected && actual@ == digest::hex_text(digest::sha256(head@ + rest@))
                    && actual@ != expected,
            }
        },
    }
}

/// Compares the checksum of a downloaded file with the one that was asked for.
pub fn compare_checksums(actual: String, expected: &str) -> (r: Result<(), UpgradeFailure>)
    ensures
        match r {
            Ok(_) => actual@ == expected@,
            Err(f) => actual@ != expected@ && (f matches UpgradeFailure::Checksum {
                expected: e,
                actual: a,
            } && e@ == expected@ && a == actual),
        },
{
    if text::same(actual.as_str(), expected) {
        Ok(())
    } else {
        Err(UpgradeFailure::Checksum { expected: expected.to_owned(), actual })
    }
}

/// Checks a downloaded file against the checksum that was asked for.
pub fn validate_download(file: FileRead, expected: &str) -> (r: Result<(), UpgradeFailure>)
    ensures
        match r {
            Ok(_) => upload::is_binary(file, expected@),
            Err(f) => !upload::is_binary(file, expected@) && download_refused(file, expected@, f),
        },
{
    let head = match file.head {
        Some(head) => head,
        None => {
            return Err(UpgradeFailure::TooSmall);
        },
    };
    if !upload::has_elf_magic(&head) {
        return Err(UpgradeFailure::NotElf);
    }
    let rest = match file.rest {
        Ok(rest) => rest,
        Err(e) => {
            return Err(UpgradeFailure::Read(e));
        },
    };
    let actual = digest::checksum(&upload::whole_file(&head, &rest));
    compare_checksums(actual, expected)
}

/// The next step of an upgrade.
pub open spec fn upgrade_next(
    req: UpgradeFeosBinaryRequest,
    progress: UpgradeProgress,
    action: UpgradeAction,
) -> bool {
    match progress {
        UpgradeProgress::Received => action == UpgradeAction::Answer,
        UpgradeProgress::Answered => action == UpgradeAction::MakeTempFile,
        UpgradeProgress::TempFileMade(Ok(_)) => action matches UpgradeAction::Download { url }
            && url@ == req.url@,
        UpgradeProgress::TempFileMade(Err(e)) => action == UpgradeAction::GiveUp(
            UpgradeFailure::TempFile(e),
        ),
        UpgradeProgress::Downloaded(Ok(_)) => action == UpgradeAction::ReadBack,
        UpgradeProgress::Downloaded(Err(e)) => action == UpgradeAction::GiveUp(
            UpgradeFailure::Download(e),
        ),
        UpgradeProgress::ReadBack(Err(e)) => action == UpgradeAction::GiveUp(
            UpgradeFailure::Reopen(e),
        ),
        UpgradeProgress::ReadBack(Ok(file)) => if upload::is_binary(file, req.sha256_sum@) {
            action matches UpgradeAction::Stage { path } && path@ == text::joined(
                UPGRADE_DIR@,
                "feos.new"@,
            )
        } else {
            action matches UpgradeAction::GiveUp(f) && download_refused(file, req.sha256_sum@, f)
        },
        UpgradeProgress::Staged(Ok(_)) => action matches UpgradeAction::Signal(signal) && signal.0@
            == text::joined(UPGRADE_DIR@, "feos.new"@),
        UpgradeProgress::Staged(Err(e)) => action == UpgradeAction::GiveUp(
            UpgradeFailure::Stage(e),
        ),
        UpgradeProgress::Signalled(Ok(_)) => action == UpgradeAction::Done,
        UpgradeProgress::Signalled(Err(e)) => action == UpgradeAction::GiveUp(
            UpgradeFailure::Signal(e),
        ),
    }
}

/// The next step of an upgrade: the client is answered first; then the binary is
/// downloaded, checked and staged before the machine restarts with it.
pub fn handle_upgrade(req: &UpgradeFeosBinaryRequest, progress: UpgradeProgress) -> (action:
    UpgradeAction)
    ensures
        upgrade_next(*req, progress, action),
{
    match progress {
        UpgradeProgress::Received => UpgradeAction::Answer,
        UpgradeProgress::Answered => UpgradeAction::MakeTempFile,
        UpgradeProgress::TempFileMade(made) => match made {
            Ok(_) => UpgradeAction::Download { url: req.url.clone() },
            Err(e) => UpgradeAction::GiveUp(UpgradeFailure::TempFile(e)),
        },
        UpgradeProgress::Downloaded(done) => match done {
            Ok(_) => UpgradeAction::ReadBack,
            Err(e) => UpgradeAction::GiveUp(UpgradeFailure::Download(e)),
        },
        UpgradeProgress::ReadBack(file) => match file {
            Err(e) => UpgradeAction::GiveUp(UpgradeFailure::Reopen(e)),
            Ok(file) => match validate_download(file, req.sha256_sum.as_str()) {
                Ok(_) => UpgradeAction::Stage { path: text::path_join(UPGRADE_DIR, "feos.new") },
                Err(f) => UpgradeAction::GiveUp(f),
            },
        },
        UpgradeProgress::Staged(staged) => match staged {
            Ok(_) => UpgradeAction::Signal(
                RestartSignal(text::path_join(UPGRADE_DIR, "feos.new")),
            ),
            Err(e) => UpgradeAction::GiveUp(UpgradeFailure::Stage(e)),
        },
        UpgradeProgress::Signalled(sent) => match sent {
            Ok(_) => UpgradeAction::Done,
            Err(e) => UpgradeAction::GiveUp(UpgradeFailure::Signal(e)),
        },
    }
}

/// No step of an upgrade stages a file but the one that follows a file which begins
/// like a binary and has the checksum that was asked for, and no step asks for a
/// restart but the one that follows the staging.
pub proof fn only_a_valid_binary_is_staged(
    req: UpgradeFeosBinaryRequest,
    progress: UpgradeProgress,
    action: UpgradeAction,
)
    requires
        upgrade_next(req, progress, action),
    ensures
        action is Stage <==> (progress matches UpgradeProgress::ReadBack(Ok(file))
            && upload::is_binary(file, req.sha256_sum@)),
        action is Signal <==> (progress matches UpgradeProgress::Staged(Ok(_))),
        action is Done <==> (progress matches UpgradeProgress::Signalled(Ok(_))),
{
}

} // verus!
