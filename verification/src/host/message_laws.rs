//! What is told of the host's errors, uploads, downloads and time servers, word by word.
use crate::host::error::HostError;
use crate::host::ops::{
    download_file, handle_stream_feos_logs, handle_stream_kernel_logs, DownloadAction,
    DownloadEvent, FeosLogAction, FeosLogEvent, LogAction, LogEvent,
};
use crate::host::time::{QueryAction, QueryProgress, SyncAction, SyncProgress, TimeSyncWorker};
use crate::host::upload::{
    self, compare_checksums, validate_upload, FileRead, UploadAction, UploadProgress,
};
use crate::rpc::{Code, RpcStatus};
use vstd::prelude::*;

verus! {

/// What the errors of the host read as, and what a client is answered of them.
pub proof fn errors_say_what_failed(e: HostError, m: String, s: RpcStatus)
    requires
        call_ensures(HostError::message, (&e,), m),
        call_ensures(HostError::into_status, (e,), s),
    ensures
        s.code == Code::Internal,
        e is Hostname ==> m@ == "Failed to get system hostname"@,
        e matches HostError::SystemInfoRead { source: _, path } ==> m@
            == "Failed to read system info from "@ + path@ && s.message@ == m@,
        e is PowerOperation ==> m@ == "Host power operation failed"@,
        e is Hostname || e is PowerOperation ==> s.message@ == "An internal host error occurred"@,
        e matches HostError::LogReader(why) ==> m@ == "Failed to create log reader: "@ + why@
            && s.message@ == why@,
{
}

/// Whether an upload ends with this code and these words.
pub open spec fn ends_with(action: UploadAction, code: Code, message: Seq<char>) -> bool {
    action matches UploadAction::Answer(Err(s)) && s.code == code && s.message@ == message
}

/// An upload that goes wrong is told at which step, and one that does not that it succeeded.
pub proof fn uploads_tell_how_they_ended(progress: UploadProgress, action: UploadAction)
    requires
        call_ensures(upload::handle_upgrade, (progress,), action),
    ensures
        progress matches UploadProgress::Opened(None) ==> ends_with(
            action,
            Code::InvalidArgument,
            "Empty request stream."@,
        ),
        progress matches UploadProgress::Opened(Some(Ok(message))) && !(message is Metadata)
            ==> ends_with(
            action,
            Code::InvalidArgument,
            "First message must be UpgradeMetadata."@,
        ),
        progress matches UploadProgress::TempFileMade { expected: _, made: Err(why) } ==> ends_with(
            action,
            Code::Internal,
            "Failed to create temp file: "@ + why@,
        ),
        progress matches UploadProgress::Received { expected: _, message: Some(Ok(message)) } && !(
        message is Chunk) ==> ends_with(
            action,
            Code::InvalidArgument,
            "Subsequent messages must be binary chunks."@,
        ),
        progress matches UploadProgress::ChunkWritten { expected: _, written: Err(why) }
            ==> ends_with(action, Code::Internal, "Failed to write to temp file: "@ + why@),
        progress matches UploadProgress::ReadBack { expected: _, file: Err(why) } ==> ends_with(
            action,
            Code::Internal,
            "Failed to reopen temp file for validation: "@ + why@,
        ),
        progress matches UploadProgress::Staged(Err(why)) ==> ends_with(
            action,
            Code::Internal,
            "Failed to persist and set permissions on new binary: "@ + why@,
        ),
        progress matches UploadProgress::Signalled(Err(why)) ==> ends_with(
            action,
            Code::Internal,
            "Failed to send restart signal to main process: "@ + why@,
        ),
        progress matches UploadProgress::Signalled(Ok(_)) ==> (action matches UploadAction::Answer(
            Ok(response),
        ) && response.message@
            == "Binary received and validated. System will now restart with the new binary."@),
{
}

/// What an uploaded file is refused for: its length before its first bytes, those before whether it
/// can be read, and that before its checksum.
pub proof fn refused_files_are_told_why(
    file: FileRead,
    expected: &str,
    r: Result<(), RpcStatus>,
    actual: &str,
    compared: Result<(), RpcStatus>,
)
    requires
        call_ensures(validate_upload, (file, expected), r),
        call_ensures(compare_checksums, (actual, expected), compared),
    ensures
        file.head is None ==> (r matches Err(s) && s.code == Code::InvalidArgument && s.message@
            == "Received file is too small to be a valid binary."@),
        file.head matches Some(head) && !(head@[0] == 0x7f && head@[1] == 0x45 && head@[2] == 0x4c
            && head@[3] == 0x46) ==> (r matches Err(s) && s.code == Code::InvalidArgument
            && s.message@ == "Uploaded file is not a valid ELF binary."@),
        file.rest matches Err(why) ==> (file.head matches Some(head) ==> (head@[0] == 0x7f
            && head@[1] == 0x45 && head@[2] == 0x4c && head@[3] == 0x46 ==> (r matches Err(s)
            && s.code == Code::Internal && s.message@ == "Failed to read temp file for hashing: "@
            + why@))),
        compared is Ok <==> actual@ == expected@,
        compared matches Err(s) ==> s.code == Code::InvalidArgument && s.message@
            == "Checksum mismatch. Expected: "@ + expected@ + ", Got: "@ + actual@,
{
    match file.head {
        Some(head) => {
            if head@[0] == 0x7f && head@[1] == 0x45 && head@[2] == 0x4c && head@[3] == 0x46 {
                assert(head@ =~= seq![0x7fu8, 0x45u8, 0x4cu8, 0x46u8]);
            }
        },
        None => {},
    }
}

/// What a download that fails says.
pub proof fn failed_downloads_say_why(event: DownloadEvent, action: DownloadAction)
    requires
        call_ensures(download_file, (event,), action),
    ensures
        event matches DownloadEvent::NoCertificates(why) ==> (action matches DownloadAction::Finish(
            Err(m),
        ) && m@ == "Could not load native root certificates: "@ + why@),
        event matches DownloadEvent::RequestFailed(why) ==> (action matches DownloadAction::Finish(
            Err(m),
        ) && m@ == "HTTP GET request failed: "@ + why@),
        event matches DownloadEvent::Answered { code, status } ==> (!(200 <= code <= 299) ==> (
        action matches DownloadAction::Finish(Err(m)) && m@ == "Download failed with status: "@
            + status@)),
        event matches DownloadEvent::FrameFailed(why) ==> (action matches DownloadAction::Finish(
            Err(m),
        ) && m@ == "Error reading response frame: "@ + why@),
        event matches DownloadEvent::Written(Err(why)) ==> (action matches DownloadAction::Finish(
            Err(m),
        ) && m@ == "Failed to write chunk to temp file: "@ + why@),
{
}

/// What streams of logs that fail tell the client.
pub proof fn failed_log_streams_say_why(
    event: LogEvent,
    action: LogAction,
    own: FeosLogAction,
)
    requires
        call_ensures(handle_stream_kernel_logs, (event,), action),
        call_ensures(handle_stream_feos_logs, (FeosLogEvent::NoReader,), own),
    ensures
        event matches LogEvent::NotOpened(why) ==> (action matches LogAction::Fail(s) && s.code
            == Code::Internal && s.message@ == "Failed to open "@ + "/dev/kmsg"@ + ": "@ + why@),
        event matches LogEvent::Failed(why) ==> (action matches LogAction::Fail(s) && s.code
            == Code::Internal && s.message@ == "Error reading from "@ + "/dev/kmsg"@ + ": "@
            + why@),
        own matches FeosLogAction::Fail(s) && s.code == Code::Internal && s.message@
            == "Failed to create log reader"@,
{
}

/// What an attempt to keep the time that fails says.
pub proof fn failed_attempts_at_the_time_say_why(
    worker: &TimeSyncWorker,
    why: String,
    unbound: SyncAction,
    unresolved: SyncAction,
    unasked: SyncAction,
    lookup: Result<usize, String>,
    addresses: Vec<bool>,
    found: Result<usize, String>,
    query: QueryProgress,
    asked: QueryAction,
    unset: QueryAction,
)
    requires
        call_ensures(
            TimeSyncWorker::synchronize_time,
            (worker, SyncProgress::Bound(Err(why))),
            unbound,
        ),
        call_ensures(
            TimeSyncWorker::synchronize_time,
            (worker, SyncProgress::Resolved(Err(why))),
            unresolved,
        ),
        call_ensures(
            TimeSyncWorker::synchronize_time,
            (worker, SyncProgress::FallbackTried(Err(why))),
            unasked,
        ),
        call_ensures(TimeSyncWorker::resolve_and_sync, (Err(why),), lookup),
        call_ensures(TimeSyncWorker::resolve_and_sync, (Ok(addresses),), found),
        call_ensures(TimeSyncWorker::query_ntp_server, (query,), asked),
        call_ensures(TimeSyncWorker::set_clock_to, (None,), unset),
    ensures
        unbound matches SyncAction::Finish(Err(m)) && m@ == "Failed to bind UDP socket: "@ + why@,
        lookup matches Err(m) && m@ == "Failed to resolve "@ + "pool.ntp.org"@ + ": "@ + why@,
        unresolved matches SyncAction::Finish(Err(m)) && m@
            == "Failed to sync with fallback server: "@ + lookup->Err_0@,
        unasked matches SyncAction::Finish(Err(m)) && m@ == "Failed to sync with fallback server: "@
            + why@,
        found matches Err(m) ==> m@ == "No suitable address found for "@ + "pool.ntp.org"@,
        query matches QueryProgress::Answered(Err(e)) ==> (asked matches QueryAction::Finish(Err(m))
            && m@ == "NTP query failed: "@ + e@),
        query matches QueryProgress::ClockSet(Err(e)) ==> (asked matches QueryAction::Finish(Err(m))
            && m@ == "Failed to set system time: "@ + e@),
        unset matches QueryAction::Finish(Err(m)) && m@
            == "Failed to convert NTP time to local time"@,
{
}

} // verus!
