//! What holds of the host service: what the kernel's counts, logs, upgrades, restarts and time
//! servers lead to.
use crate::digest;
use crate::host::dispatcher::{Command, HostServiceDispatcher, Task};
use crate::host::error::HostError;
use crate::host::kernel_stats::{
    self, handle_get_kernel_stats, parse_cpu_line, read_and_parse_proc_stat, CpuTime, KernelStats,
};
use crate::host::ops::{
    self, begin_download, download_file, handle_stream_feos_logs, handle_stream_kernel_logs,
    validate_download, DownloadAction, DownloadEvent, FeosLogAction, FeosLogEvent, LogAction,
    LogEntry, LogEvent, UpgradeAction, UpgradeFailure, UpgradeFeosBinaryRequest, UpgradeProgress,
};
use crate::host::power::{handle_reboot, handle_shutdown, PowerAction, PowerProgress};
use crate::host::time::{
    NtpTime, QueryAction, QueryProgress, SyncAction, SyncProgress, TimeSyncWorker,
};
use crate::host::upload::{
    self, has_elf_magic, validate_upload, whole_file, FileRead, UploadAction, UploadMessage,
    UploadProgress,
};
use crate::rpc::{Code, RpcStatus};
use crate::text;
use crate::text_laws;
use vstd::prelude::*;

verus! {

/// Whether a number is what a column of a line tells: what its digits stand for, and 0 where
/// the line is too short.
pub open spec fn reads_column(n: u64, parts: Seq<String>, k: int) -> bool {
    &&& k >= parts.len() ==> n == 0
    &&& k < parts.len() && parts[k]@.len() > 0 && text_laws::all_digits(parts[k]@, 10)
        && text_laws::place_value(parts[k]@, 10) <= u64::MAX ==> n == text_laws::place_value(
        parts[k]@,
        10,
    )
}

proof fn lemma_column(parts: Seq<String>, k: int)
    requires
        k >= 0,
    ensures
        reads_column(kernel_stats::value_at(text::views(parts), k), parts, k),
{
    if k < parts.len() {
        assert(text::views(parts)[k] == parts[k]@);
        let s = parts[k]@;
        if s.len() > 0 && text_laws::all_digits(s, 10) {
            assert(text_laws::is_digit(s[0], 10));
            text_laws::lemma_scan_value(s, 10, u64::MAX as nat);
        }
    }
}

/// The times of a processor stand in this order in its line, behind its name; a line that does
/// not begin with the name of a processor tells of none.
pub proof fn processor_times_stand_in_order(line: &str, parts: Vec<String>, r: Option<CpuTime>)
    requires
        call_ensures(text::split_whitespace, (line,), parts),
        call_ensures(parse_cpu_line, (line,), r),
    ensures
        r is Some <==> parts@.len() > 0 && parts@[0]@.len() >= 3 && parts@[0]@.take(3) == "cpu"@,
        r matches Some(cpu) ==> cpu.name@ == parts@[0]@,
        r matches Some(cpu) ==> columns_are(cpu, parts@),
{
    reveal_strlit("cpu");
    assert(text::views(parts@).len() == parts@.len());
    if parts@.len() > 0 {
        assert(text::views(parts@)[0] == parts@[0]@);
    }
    match r {
        Some(cpu) => {
            lemma_column(parts@, 1);
            lemma_column(parts@, 2);
            lemma_column(parts@, 3);
            lemma_column(parts@, 4);
            lemma_column(parts@, 5);
            lemma_column(parts@, 6);
            lemma_column(parts@, 7);
            lemma_column(parts@, 8);
            lemma_column(parts@, 9);
            lemma_column(parts@, 10);
        },
        None => {},
    }
}

/// Whether the times of a processor are those of the columns of its line.
pub open spec fn columns_are(cpu: CpuTime, parts: Seq<String>) -> bool {
    &&& reads_column(cpu.user, parts, 1)
    &&& reads_column(cpu.nice, parts, 2)
    &&& reads_column(cpu.system, parts, 3)
    &&& reads_column(cpu.idle, parts, 4)
    &&& reads_column(cpu.iowait, parts, 5)
    &&& reads_column(cpu.irq, parts, 6)
    &&& reads_column(cpu.softirq, parts, 7)
    &&& reads_column(cpu.steal, parts, 8)
    &&& reads_column(cpu.guest, parts, 9)
    &&& reads_column(cpu.guest_nice, parts, 10)
}

/// Whether two processors have the same name and have spent their time alike.
pub open spec fn same_times(a: CpuTime, b: CpuTime) -> bool {
    &&& a.name@ == b.name@
    &&& a.user == b.user
    &&& a.nice == b.nice
    &&& a.system == b.system
    &&& a.idle == b.idle
    &&& a.iowait == b.iowait
    &&& a.irq == b.irq
    &&& a.softirq == b.softirq
    &&& a.steal == b.steal
    &&& a.guest == b.guest
    &&& a.guest_nice == b.guest_nice
}

/// What digits stand for, where it is not too large; 0 otherwise.
pub open spec fn value_in(digits: Seq<char>, max: int) -> int {
    if text_laws::place_value(digits, 10) <= max {
        text_laws::place_value(digits, 10)
    } else {
        0
    }
}

/// A line of a name and a number sets the count of that name and no other; what is told of the
/// processors stays.
pub proof fn counts_are_told_by_name(
    lines: &Vec<String>,
    name: Seq<char>,
    gap: Seq<char>,
    digits: Seq<char>,
    tail: Seq<char>,
    line: String,
    more: &Vec<String>,
    before: KernelStats,
    after: KernelStats,
)
    requires
        text_laws::solid(name) && name.len() > 0,
        !(name.len() >= 3 && name.take(3) == "cpu"@),
        text_laws::blank(gap) && gap.len() > 0,
        text_laws::all_digits(digits, 10) && digits.len() > 0,
        tail.len() == 0 || text::is_space(tail[0]),
        line@ == name + gap + digits + tail,
        more@ == lines@.push(line),
        call_ensures(read_and_parse_proc_stat, (lines,), before),
        call_ensures(read_and_parse_proc_stat, (more,), after),
    ensures
        after.context_switches == (if name == "ctxt"@ {
            value_in(digits, u64::MAX as int)
        } else {
            before.context_switches as int
        }),
        after.boot_time == (if name == "btime"@ {
            value_in(digits, u64::MAX as int)
        } else {
            before.boot_time as int
        }),
        after.processes_created == (if name == "processes"@ {
            value_in(digits, u64::MAX as int)
        } else {
            before.processes_created as int
        }),
        after.processes_running == (if name == "procs_running"@ {
            value_in(digits, u32::MAX as int)
        } else {
            before.processes_running as int
        }),
        after.processes_blocked == (if name == "procs_blocked"@ {
            value_in(digits, u32::MAX as int)
        } else {
            before.processes_blocked as int
        }),
        after.per_cpu@.len() == before.per_cpu@.len(),
        after.total is Some <==> before.total is Some,
{
    reveal_strlit("cpu");
    reveal_strlit("ctxt");
    reveal_strlit("btime");
    reveal_strlit("processes");
    reveal_strlit("procs_running");
    reveal_strlit("procs_blocked");
    assert("ctxt"@.len() == 4);
    assert("btime"@.len() == 5);
    assert("processes"@.len() == 9);
    assert("procs_running"@.len() == 13);
    assert("procs_blocked"@.len() == 13);
    assert("ctxt"@[0] == 'c' && "btime"@[0] == 'b');
    assert("procs_running"@[6] == 'r' && "procs_blocked"@[6] == 'b');
    text_laws::lemma_digits_are_solid(digits);
    text_laws::lemma_front_words(name, gap, digits, tail);
    let parts = text::words(line@);
    assert(parts[0] == name && parts[1] == digits);
    assert(text_laws::is_digit(digits[0], 10));
    text_laws::lemma_scan_value(digits, 10, u64::MAX as nat);
    text_laws::lemma_scan_value(digits, 10, u32::MAX as nat);
    assert(more@.drop_last() =~= lines@);
    if name == "cpu"@ {
        assert(name.take(3) =~= "cpu"@);
    }
    assert(!text::begins_with(parts[0], "cpu"@));
    assert(after@ == kernel_stats::with_line(before@, line@));
    assert(after@.per_cpu.len() == after.per_cpu@.len());
    assert(before@.per_cpu.len() == before.per_cpu@.len());
}

/// The line of all processors tells of their total, each line of one processor of that one, in
/// order; neither changes the other or a count.
pub proof fn processors_are_told_one_by_one(
    lines: &Vec<String>,
    line: String,
    text_of_line: &str,
    cpu: CpuTime,
    more: &Vec<String>,
    before: KernelStats,
    after: KernelStats,
)
    requires
        text_of_line@ == line@,
        call_ensures(parse_cpu_line, (text_of_line,), Some(cpu)),
        more@ == lines@.push(line),
        call_ensures(read_and_parse_proc_stat, (lines,), before),
        call_ensures(read_and_parse_proc_stat, (more,), after),
    ensures
        ({
            let all = cpu.name@ == "cpu"@ && line@.len() >= 4 && line@.take(4) == "cpu "@;
            &&& all ==> (after.total matches Some(total) && same_times(total, cpu))
            &&& all ==> after.per_cpu@.len() == before.per_cpu@.len()
            &&& !all ==> after.per_cpu@.len() == before.per_cpu@.len() + 1 && same_times(
                after.per_cpu@.last(),
                cpu,
            )
            &&& !all ==> (after.total is Some <==> before.total is Some)
        }),
        forall|i: int|
            0 <= i < before.per_cpu@.len() ==> same_times(
                #[trigger] after.per_cpu@[i],
                before.per_cpu@[i],
            ),
        after.context_switches == before.context_switches,
        after.boot_time == before.boot_time,
        after.processes_created == before.processes_created,
        after.processes_running == before.processes_running,
        after.processes_blocked == before.processes_blocked,
{
    reveal_strlit("cpu ");
    assert(more@.drop_last() =~= lines@);
    assert(after@ == kernel_stats::with_line(before@, line@));
    assert(kernel_stats::cpu_line(line@) == Some(cpu@));
    assert(after@.per_cpu.len() == after.per_cpu@.len());
    assert(before@.per_cpu.len() == before.per_cpu@.len());
    assert forall|i: int| 0 <= i < after.per_cpu@.len() implies after@.per_cpu[i]
        == #[trigger] after.per_cpu@[i]@ by {}
    assert forall|i: int| 0 <= i < before.per_cpu@.len() implies same_times(
        #[trigger] after.per_cpu@[i],
        before.per_cpu@[i],
    ) by {
        assert(before@.per_cpu[i] == before.per_cpu@[i]@);
        assert(after@.per_cpu[i] == after.per_cpu@[i]@);
        assert(after@.per_cpu[i] == before@.per_cpu[i]);
    }
    if after.per_cpu@.len() > before.per_cpu@.len() {
        let last = after.per_cpu@.len() - 1;
        assert(after@.per_cpu[last] == after.per_cpu@[last]@);
    }
}

/// A file without lines tells of nothing; what is answered is what the lines tell, and a file
/// that cannot be read is an error that names it.
pub proof fn counts_are_answered_as_told(
    none: &Vec<String>,
    nothing: KernelStats,
    lines: Vec<String>,
    told: KernelStats,
    r: Result<KernelStats, HostError>,
    why: String,
    refused: Result<KernelStats, HostError>,
)
    requires
        none@.len() == 0,
        call_ensures(read_and_parse_proc_stat, (none,), nothing),
        call_ensures(read_and_parse_proc_stat, (&lines,), told),
        call_ensures(handle_get_kernel_stats, (Ok(lines),), r),
        call_ensures(handle_get_kernel_stats, (Err(why),), refused),
    ensures
        nothing.total is None,
        nothing.per_cpu@.len() == 0,
        nothing.context_switches == 0,
        nothing.boot_time == 0,
        nothing.processes_created == 0,
        nothing.processes_running == 0,
        nothing.processes_blocked == 0,
        r matches Ok(stats) && stats.context_switches == told.context_switches && stats.boot_time
            == told.boot_time && stats.processes_created == told.processes_created
            && stats.processes_running == told.processes_running && stats.processes_blocked
            == told.processes_blocked && stats.per_cpu@.len() == told.per_cpu@.len() && (
        stats.total is Some <==> told.total is Some),
        refused matches Err(HostError::SystemInfoRead { source, path }) && source@ == why@ && path@
            == "/proc/stat"@,
{
    assert(nothing@.per_cpu.len() == nothing.per_cpu@.len());
    match r {
        Ok(stats) => {
            assert(stats@.per_cpu.len() == stats.per_cpu@.len());
            assert(told@.per_cpu.len() == told.per_cpu@.len());
        },
        _ => {},
    }
}

/// Lines of the kernel's log are passed on as they are; the stream ends with the log or with
/// its client, and an error of the log is told.
pub proof fn kernel_log_is_passed_on(event: LogEvent, action: LogAction)
    requires
        call_ensures(handle_stream_kernel_logs, (event,), action),
    ensures
        event matches LogEvent::Line(line) ==> (action matches LogAction::Send(sent) && sent@
            == line@),
        action is Stop <==> event is ClientGone || event is Ended,
        event matches LogEvent::NotOpened(why) ==> (action matches LogAction::Fail(s) && s.code
            == Code::Internal && s.message@ == "Failed to open "@ + "/dev/kmsg"@ + ": "@ + why@),
        event matches LogEvent::Failed(why) ==> (action matches LogAction::Fail(s) && s.code
            == Code::Internal && s.message@ == "Error reading from "@ + "/dev/kmsg"@ + ": "@
            + why@),
{
}

/// Entries of the service's own log are passed on with all that they hold.
pub proof fn own_log_is_passed_on(
    entry: LogEntry,
    action: FeosLogAction,
    ended: FeosLogAction,
    unread: FeosLogAction,
)
    requires
        entry.nanos <= i32::MAX,
        call_ensures(handle_stream_feos_logs, (FeosLogEvent::Entry(entry),), action),
        call_ensures(handle_stream_feos_logs, (FeosLogEvent::Ended,), ended),
        call_ensures(handle_stream_feos_logs, (FeosLogEvent::NoReader,), unread),
    ensures
        action matches FeosLogAction::Send(sent) && sent.seq == entry.seq && sent.seconds
            == entry.seconds && sent.nanos == entry.nanos && sent.level@ == entry.level@
            && sent.target@ == entry.target@ && sent.message@ == entry.message@,
        ended is Stop,
        unread matches FeosLogAction::Fail(s) && s.code == Code::Internal,
{
}

/// A download asks for the address that was given, goes on only on an answer of success, and
/// writes each part of the answer as it came; it succeeds exactly at the end of the answer.
pub proof fn download_keeps_what_it_gets(
    event: DownloadEvent,
    action: DownloadAction,
    url: String,
    begun: DownloadAction,
)
    requires
        call_ensures(download_file, (event,), action),
        call_ensures(begin_download, (url, Ok(())), begun),
    ensures
        begun matches DownloadAction::Get { url: u } && u@ == url@,
        event matches DownloadEvent::Ready { url: u } ==> match action {
            DownloadAction::Get { url: asked } => asked@ == u@,
            DownloadAction::Finish(r) => r is Err,
            _ => false,
        },
        event matches DownloadEvent::Answered { code, .. } ==> (200 <= code <= 299 ==> action
            is NextFrame) && (code < 200 || code > 299 ==> (action matches DownloadAction::Finish(
            Err(_),
        ))),
        event matches DownloadEvent::Frame(Some(chunk)) ==> (action matches DownloadAction::Write(
            written,
        ) && written@ == chunk@),
        event matches DownloadEvent::Frame(None) ==> action is NextFrame,
        event matches DownloadEvent::Written(Ok(_)) ==> action is NextFrame,
        (action matches DownloadAction::Finish(Ok(_))) <==> event is Ended,
{
}

/// An upgrade answers first, downloads from the address that was asked for, reads the file back,
/// stages it and restarts with the staged file.
pub proof fn upgrade_goes_in_order(
    req: &UpgradeFeosBinaryRequest,
    first: UpgradeAction,
    second: UpgradeAction,
    third: UpgradeAction,
    fourth: UpgradeAction,
    file: FileRead,
    fifth: UpgradeAction,
    sixth: UpgradeAction,
    last: UpgradeAction,
)
    requires
        call_ensures(ops::handle_upgrade, (req, UpgradeProgress::Received), first),
        call_ensures(ops::handle_upgrade, (req, UpgradeProgress::Answered), second),
        call_ensures(ops::handle_upgrade, (req, UpgradeProgress::TempFileMade(Ok(()))), third),
        call_ensures(ops::handle_upgrade, (req, UpgradeProgress::Downloaded(Ok(()))), fourth),
        call_ensures(ops::handle_upgrade, (req, UpgradeProgress::ReadBack(Ok(file))), fifth),
        call_ensures(ops::handle_upgrade, (req, UpgradeProgress::Staged(Ok(()))), sixth),
        call_ensures(ops::handle_upgrade, (req, UpgradeProgress::Signalled(Ok(()))), last),
    ensures
        first is Answer,
        second is MakeTempFile,
        third matches UpgradeAction::Download { url } && url@ == req.url@,
        fourth is ReadBack,
        fifth is Stage || fifth is GiveUp,
        fifth matches UpgradeAction::Stage { path } ==> path@ == "/var/lib/feos/upgrade/feos.new"@,
        sixth matches UpgradeAction::Signal(signal) && signal.0@
            == "/var/lib/feos/upgrade/feos.new"@,
        last is Done,
{
    lemma_staged_path();
}

proof fn lemma_staged_path()
    ensures
        text::joined("/var/lib/feos/upgrade"@, "feos.new"@) == "/var/lib/feos/upgrade/feos.new"@,
{
    reveal_strlit("/var/lib/feos/upgrade");
    reveal_strlit("feos.new");
    reveal_strlit("/var/lib/feos/upgrade/feos.new");
    assert(text::joined("/var/lib/feos/upgrade"@, "feos.new"@)
        =~= "/var/lib/feos/upgrade/feos.new"@);
}

/// Whether a file begins with the four bytes of an executable, 0x7f and the letters `ELF`, could
/// be read to its end, and has a checksum.
pub open spec fn is_sound(file: FileRead, checksum: Seq<char>) -> bool {
    &&& file.head is Some
    &&& file.head->Some_0@[0] == 0x7f
    &&& file.head->Some_0@[1] == 'E' as u8
    &&& file.head->Some_0@[2] == 'L' as u8
    &&& file.head->Some_0@[3] == 'F' as u8
    &&& file.rest is Ok
    &&& digest::hex_text(digest::sha256(file.head->Some_0@ + file.rest->Ok_0@)) == checksum
}

proof fn lemma_sound(file: FileRead, checksum: Seq<char>)
    ensures
        upload::is_binary(file, checksum) <==> is_sound(file, checksum),
{
    match file.head {
        Some(head) => {
            if head@[0] == 0x7f && head@[1] == 0x45 && head@[2] == 0x4c && head@[3] == 0x46 {
                assert(head@ =~= seq![0x7fu8, 0x45u8, 0x4cu8, 0x46u8]);
            }
        },
        None => {},
    }
}

/// Only a sound file is staged, by an upgrade from an address and by an upload alike: one that
/// begins like an executable and has the checksum that was asked for. Any other is given up and
/// the client told.
pub proof fn only_sound_files_are_staged(
    req: &UpgradeFeosBinaryRequest,
    file: FileRead,
    upgraded: UpgradeAction,
    expected: String,
    uploaded: UploadAction,
    checksum: &str,
    up: Result<(), RpcStatus>,
    down: Result<(), UpgradeFailure>,
)
    requires
        call_ensures(ops::handle_upgrade, (req, UpgradeProgress::ReadBack(Ok(file))), upgraded),
        call_ensures(
            upload::handle_upgrade,
            (UploadProgress::ReadBack { expected, file: Ok(file) },),
            uploaded,
        ),
        call_ensures(validate_upload, (file, checksum), up),
        call_ensures(validate_download, (file, checksum), down),
    ensures
        upgraded is Stage <==> is_sound(file, req.sha256_sum@),
        upgraded is GiveUp <==> !is_sound(file, req.sha256_sum@),
        uploaded is Stage <==> is_sound(file, expected@),
        (uploaded matches UploadAction::Answer(Err(_))) <==> !is_sound(file, expected@),
        up is Ok <==> is_sound(file, checksum@),
        down is Ok <==> is_sound(file, checksum@),
{
    lemma_sound(file, req.sha256_sum@);
    lemma_sound(file, expected@);
    lemma_sound(file, checksum@);
}

/// A file is its first four bytes and what follows them; it begins like an executable exactly
/// where these bytes say so.
pub proof fn files_are_read_whole(head: &[u8; 4], rest: &Vec<u8>, all: Vec<u8>, elf: bool)
    requires
        call_ensures(whole_file, (head, rest), all),
        call_ensures(has_elf_magic, (head,), elf),
    ensures
        all@.len() == 4 + rest@.len(),
        forall|i: int| 0 <= i < 4 ==> #[trigger] all@[i] == head@[i],
        forall|i: int| 4 <= i < all@.len() ==> #[trigger] all@[i] == rest@[i - 4],
        elf <==> head@[0] == 0x7f && head@[1] == 'E' as u8 && head@[2] == 'L' as u8 && head@[3]
            == 'F' as u8,
{
    if head@[0] == 0x7f && head@[1] == 0x45 && head@[2] == 0x4c && head@[3] == 0x46 {
        assert(head@ =~= seq![0x7fu8, 0x45u8, 0x4cu8, 0x46u8]);
    }
}

/// An upload begins with the checksum, which is kept to the end; every chunk behind it is
/// written as it came, and the end of the stream has the file read back. Anything else is the
/// client's fault.
pub proof fn upload_keeps_what_it_gets(
    sha256_sum: String,
    opened: UploadAction,
    expected: String,
    made: UploadAction,
    chunk: Vec<u8>,
    received: UploadAction,
    written: UploadAction,
    ended: UploadAction,
    message: UploadMessage,
    first: UploadAction,
    other: UploadAction,
)
    requires
        call_ensures(
            upload::handle_upgrade,
            (UploadProgress::Opened(Some(Ok(UploadMessage::Metadata { sha256_sum }))),),
            opened,
        ),
        call_ensures(
            upload::handle_upgrade,
            (UploadProgress::TempFileMade { expected, made: Ok(()) },),
            made,
        ),
        call_ensures(
            upload::handle_upgrade,
            (UploadProgress::Received { expected, message: Some(Ok(UploadMessage::Chunk(chunk))) },),
            received,
        ),
        call_ensures(
            upload::handle_upgrade,
            (UploadProgress::ChunkWritten { expected, written: Ok(()) },),
            written,
        ),
        call_ensures(
            upload::handle_upgrade,
            (UploadProgress::Received { expected, message: None },),
            ended,
        ),
        call_ensures(
            upload::handle_upgrade,
            (UploadProgress::Opened(Some(Ok(message))),),
            first,
        ),
        call_ensures(
            upload::handle_upgrade,
            (UploadProgress::Received { expected, message: Some(Ok(message)) },),
            other,
        ),
    ensures
        opened matches UploadAction::MakeTempFile { expected: e } && e@ == sha256_sum@,
        made matches UploadAction::NextMessage { expected: e } && e@ == expected@,
        received matches UploadAction::WriteChunk { expected: e, chunk: c } && e@ == expected@
            && c@ == chunk@,
        written matches UploadAction::NextMessage { expected: e } && e@ == expected@,
        ended matches UploadAction::ReadBack { expected: e } && e@ == expected@,
        !(message is Metadata) ==> (first matches UploadAction::Answer(Err(s)) && s.code
            == Code::InvalidArgument),
        !(message is Chunk) ==> (other matches UploadAction::Answer(Err(s)) && s.code
            == Code::InvalidArgument),
{
}

/// An upload ends with a restart from the staged file, of which the client is told; where a step
/// of the service fails the client is told that, and nothing is restarted.
pub proof fn upload_ends_with_a_restart(
    expected: String,
    file: FileRead,
    read: UploadAction,
    staged: UploadAction,
    signalled: UploadAction,
    progress: UploadProgress,
    failed: UploadAction,
)
    requires
        call_ensures(
            upload::handle_upgrade,
            (UploadProgress::ReadBack { expected, file: Ok(file) },),
            read,
        ),
        call_ensures(upload::handle_upgrade, (UploadProgress::Staged(Ok(())),), staged),
        call_ensures(upload::handle_upgrade, (UploadProgress::Signalled(Ok(())),), signalled),
        (progress matches UploadProgress::TempFileMade { expected: _, made: Err(_) }) || (
        progress matches UploadProgress::ChunkWritten { expected: _, written: Err(_) }) || (
        progress matches UploadProgress::ReadBack { expected: _, file: Err(_) }) || (
        progress matches UploadProgress::Staged(Err(_))) || (
        progress matches UploadProgress::Signalled(Err(_))),
        call_ensures(upload::handle_upgrade, (progress,), failed),
    ensures
        read matches UploadAction::Stage { path } ==> path@ == "/var/lib/feos/upgrade/feos.new"@,
        staged matches UploadAction::Signal(signal) && signal.0@
            == "/var/lib/feos/upgrade/feos.new"@,
        signalled matches UploadAction::Answer(Ok(_)),
        failed matches UploadAction::Answer(Err(s)) && s.code == Code::Internal,
{
    lemma_staged_path();
}

/// A shutdown powers the machine off and a reboot starts it anew, both once the client has been
/// answered and has had a second to hear it; where the system refuses nothing more is done.
pub proof fn power_follows_the_answer(
    progress: PowerProgress,
    shutdown: PowerAction,
    reboot: PowerAction,
)
    requires
        call_ensures(handle_shutdown, (progress,), shutdown),
        call_ensures(handle_reboot, (progress,), reboot),
    ensures
        progress is Received ==> shutdown is Answer && reboot is Answer,
        progress is Answered ==> (shutdown matches PowerAction::Sleep(s) && s == 1) && (
        reboot matches PowerAction::Sleep(s) && s == 1),
        progress is Waited ==> (shutdown matches PowerAction::Execute(mode) && mode is PowerOff)
            && (reboot matches PowerAction::Execute(mode) && mode is AutoBoot),
        progress is Refused ==> shutdown is Done && reboot is Done,
{
}

/// Each command of the host service reads or does what it is named after.
pub proof fn host_commands_do_what_they_say(cmd: Command, task: Task)
    requires
        call_ensures(HostServiceDispatcher::run, (cmd,), task),
    ensures
        cmd is GetHostname <==> task is ReadHostname,
        cmd is GetMemory ==> (task matches Task::ReadMemory(path) && path@ == "/proc/meminfo"@),
        cmd is GetCPUInfo ==> (task matches Task::ReadCpus(path) && path@ == "/proc/cpuinfo"@),
        cmd is GetKernelStats ==> (task matches Task::ReadKernelStats(path) && path@
            == "/proc/stat"@),
        cmd is GetNetworkInfo ==> (task matches Task::ReadNetwork(path) && path@
            == "/sys/class/net"@),
        cmd is GetVersionInfo ==> (task matches Task::ReadVersion(path) && path@
            == "/proc/version"@),
        cmd is StreamKernelLogs ==> (task matches Task::StreamLines(path) && path@
            == "/dev/kmsg"@),
        cmd is StreamFeOSLogs <==> task is StreamOwnLog,
        cmd matches Command::UpgradeFeosBinary(req) ==> (task matches Task::Upgrade(asked)
            && asked.url@ == req.url@ && asked.sha256_sum@ == req.sha256_sum@),
        cmd is Shutdown ==> (task matches Task::Power(mode) && mode is PowerOff),
        cmd is Reboot ==> (task matches Task::Power(mode) && mode is AutoBoot),
{
}

/// Errors of the host service are its own fault; which file could not be read is told, and so is
/// what the log said.
pub proof fn host_errors_are_internal(e: HostError, status: RpcStatus)
    requires
        call_ensures(HostError::into_status, (e,), status),
    ensures
        status.code == Code::Internal,
        e matches HostError::SystemInfoRead { source: _, path } ==> status.message@
            == "Failed to read system info from "@ + path@,
        e matches HostError::LogReader(m) ==> status.message@ == m@,
        e is Hostname || e is PowerOperation ==> status.message@
            == "An internal host error occurred"@,
{
}

/// The clock is set to the time that a server answered: its seconds, and its fraction of a second
/// rounded down to nanoseconds. A time that no calendar reaches sets no clock.
pub proof fn clock_is_set_to_the_answer(
    time: NtpTime,
    action: QueryAction,
    why: String,
    failed: QueryAction,
    done: QueryAction,
)
    requires
        time.seconds <= 8_210_266_876_799,
        call_ensures(
            TimeSyncWorker::query_ntp_server,
            (QueryProgress::Answered(Ok(time)),),
            action,
        ),
        call_ensures(
            TimeSyncWorker::query_ntp_server,
            (QueryProgress::Answered(Err(why)),),
            failed,
        ),
        call_ensures(TimeSyncWorker::query_ntp_server, (QueryProgress::ClockSet(Ok(())),), done),
    ensures
        action matches QueryAction::SetClock(spec) && spec.seconds == time.seconds && spec.nanos
            * 0x1_0000_0000 <= time.fraction * 1_000_000_000 && time.fraction * 1_000_000_000 < (
        spec.nanos + 1) * 0x1_0000_0000,
        failed matches QueryAction::Finish(Err(m)) && m@ == "NTP query failed: "@ + why@,
        done matches QueryAction::Finish(Ok(_)),
{
    let product = time.fraction as int * 1_000_000_000;
    let nanos = product / 0x1_0000_0000;
    assert(nanos * 0x1_0000_0000 <= product < (nanos + 1) * 0x1_0000_0000);
    assert(0 <= nanos < 1_000_000_000);
}

/// The time is asked for again after a day where it was set, and after five minutes where it was
/// not.
pub proof fn time_is_kept_for_a_day(result: &Result<(), String>, seconds: u64)
    requires
        call_ensures(TimeSyncWorker::perform_sync_loop, (result,), seconds),
    ensures
        *result is Ok ==> seconds == 24 * 60 * 60,
        *result is Err ==> seconds == 5 * 60,
{
}

/// Servers are asked one after the other until one sets the clock; after the last one the
/// fallback is looked up, and asked at the first of its addresses that is one of IPv6.
pub proof fn servers_are_asked_one_by_one(
    worker: &TimeSyncWorker,
    started: SyncAction,
    bound: SyncAction,
    index: usize,
    why: String,
    failed: SyncAction,
    succeeded: SyncAction,
)
    requires
        index < worker.ntp_servers@.len(),
        call_ensures(TimeSyncWorker::synchronize_time, (worker, SyncProgress::Started), started),
        call_ensures(
            TimeSyncWorker::synchronize_time,
            (worker, SyncProgress::Bound(Ok(()))),
            bound,
        ),
        call_ensures(
            TimeSyncWorker::synchronize_time,
            (worker, SyncProgress::Tried { index, result: Err(why) }),
            failed,
        ),
        call_ensures(
            TimeSyncWorker::synchronize_time,
            (worker, SyncProgress::Tried { index, result: Ok(()) }),
            succeeded,
        ),
    ensures
        started is Bind,
        bound matches SyncAction::Query { index: i } && i == 0,
        index + 1 < worker.ntp_servers@.len() ==> (failed matches SyncAction::Query { index: i } && i
            == index + 1),
        index + 1 == worker.ntp_servers@.len() ==> (failed matches SyncAction::Resolve { server }
            && server@ == "pool.ntp.org"@ + ":123"@),
        succeeded matches SyncAction::Finish(Ok(_)),
{
}

proof fn lemma_first_ipv6(addresses: Seq<bool>)
    ensures
        match first_address(addresses) {
            Some(i) => 0 <= i < addresses.len() && addresses[i] && forall|j: int|
                0 <= j < i ==> !(#[trigger] addresses[j]),
            None => forall|j: int| 0 <= j < addresses.len() ==> !(#[trigger] addresses[j]),
        },
    decreases addresses.len(),
{
    if addresses.len() > 0 && !addresses[0] {
        let rest = addresses.drop_first();
        lemma_first_ipv6(rest);
        match first_address(rest) {
            Some(i) => {
                assert forall|j: int| 0 <= j < i + 1 implies !(#[trigger] addresses[j]) by {
                    if j > 0 {
                        assert(rest[j - 1] == addresses[j]);
                    }
                }
            },
            None => {
                assert forall|j: int| 0 <= j < addresses.len() implies !(
                #[trigger] addresses[j]) by {
                    if j > 0 {
                        assert(rest[j - 1] == addresses[j]);
                    }
                }
            },
        }
    }
}

/// The first address of IPv6 among those of the fallback server.
spec fn first_address(addresses: Seq<bool>) -> Option<int> {
    crate::host::time::first_ipv6(addresses)
}

/// The fallback server is asked at the first of its addresses that is one of IPv6; without one,
/// or where it is not found or does not answer, the attempt fails.
pub proof fn fallback_is_asked_over_ipv6(
    worker: &TimeSyncWorker,
    addresses: Vec<bool>,
    chosen: Result<usize, String>,
    resolved: SyncAction,
    why: String,
    unresolved: SyncAction,
    failed: SyncAction,
    succeeded: SyncAction,
)
    requires
        call_ensures(TimeSyncWorker::resolve_and_sync, (Ok(addresses),), chosen),
        call_ensures(
            TimeSyncWorker::synchronize_time,
            (worker, SyncProgress::Resolved(Ok(addresses))),
            resolved,
        ),
        call_ensures(
            TimeSyncWorker::synchronize_time,
            (worker, SyncProgress::Resolved(Err(why))),
            unresolved,
        ),
        call_ensures(
            TimeSyncWorker::synchronize_time,
            (worker, SyncProgress::FallbackTried(Err(why))),
            failed,
        ),
        call_ensures(
            TimeSyncWorker::synchronize_time,
            (worker, SyncProgress::FallbackTried(Ok(()))),
            succeeded,
        ),
    ensures
        chosen matches Ok(i) ==> i < addresses@.len() && addresses@[i as int] && forall|j: int|
            0 <= j < i ==> !(#[trigger] addresses@[j]),
        chosen is Err ==> forall|j: int| 0 <= j < addresses@.len() ==> !(#[trigger] addresses@[j]),
        resolved matches SyncAction::QueryFallback { address } ==> chosen == Ok::<usize, String>(
            address,
        ),
        resolved is QueryFallback <==> chosen is Ok,
        chosen is Err ==> (resolved matches SyncAction::Finish(Err(_))),
        unresolved matches SyncAction::Finish(Err(_)),
        failed matches SyncAction::Finish(Err(_)),
        succeeded matches SyncAction::Finish(Ok(_)),
{
    lemma_first_ipv6(addresses@);
}

/// The time is kept with the servers that were named.
pub proof fn worker_keeps_its_servers(servers: Vec<u128>, worker: TimeSyncWorker)
    requires
        call_ensures(TimeSyncWorker::new, (servers,), worker),
    ensures
        worker.ntp_servers@ == servers@,
{
}

/// Checksums are accepted exactly where they are the same; where they are not, both are told.
pub proof fn checksums_must_be_the_same(
    actual: String,
    view: &str,
    expected: &str,
    uploaded: Result<(), RpcStatus>,
    downloaded: Result<(), UpgradeFailure>,
)
    requires
        view@ == actual@,
        call_ensures(upload::compare_checksums, (view, expected), uploaded),
        call_ensures(ops::compare_checksums, (actual, expected), downloaded),
    ensures
        uploaded is Ok <==> actual@ == expected@,
        downloaded is Ok <==> actual@ == expected@,
        uploaded matches Err(s) ==> s.code == Code::InvalidArgument && s.message@
            == "Checksum mismatch. Expected: "@ + expected@ + ", Got: "@ + actual@,
        downloaded matches Err(f) ==> (f matches UpgradeFailure::Checksum { expected: e, actual: a }
            && e@ == expected@ && a@ == actual@),
{
}

/// The clock is set to the point in time that was found, and to none where none was.
pub proof fn clock_is_set_to_the_point_in_time(
    seconds: i64,
    nanos: u32,
    action: QueryAction,
    none: QueryAction,
)
    requires
        call_ensures(TimeSyncWorker::set_clock_to, (Some((seconds, nanos)),), action),
        call_ensures(TimeSyncWorker::set_clock_to, (None,), none),
    ensures
        action matches QueryAction::SetClock(spec) && spec.seconds == seconds && spec.nanos
            == nanos,
        none matches QueryAction::Finish(Err(_)),
{
}

} // verus!
