//! What the kernel counts: time of the processors, processes, and the time of the
//! start.
use crate::host::error::HostError;
use crate::text;
use vstd::prelude::*;

verus! {

/// What a processor, or all of them, has spent its time on.
#[derive(Debug)]
pub struct CpuTime {
    pub name: String,
    pub user: u64,
    pub nice: u64,
    pub system: u64,
    pub idle: u64,
    pub iowait: u64,
    pub irq: u64,
    pub softirq: u64,
    pub steal: u64,
    pub guest: u64,
    pub guest_nice: u64,
}

/// What a processor, or all of them, has spent its time on, under a name.
pub struct CpuTimeView {
    pub name: Seq<char>,
    pub user: u64,
    pub nice: u64,
    pub system: u64,
    pub idle: u64,
    pub iowait: u64,
    pub irq: u64,
    pub softirq: u64,
    pub steal: u64,
    pub guest: u64,
    pub guest_nice: u64,
}

impl View for CpuTime {
    type V = CpuTimeView;

    open spec fn view(&self) -> CpuTimeView {
        CpuTimeView {
            name: self.name@,
            user: self.user,
            nice: self.nice,
            system: self.system,
            idle: self.idle,
            iowait: self.iowait,
            irq: self.irq,
            softirq: self.softirq,
            steal: self.steal,
            guest: self.guest,
            guest_nice: self.guest_nice,
        }
    }
}

/// The number at a place of a line, or 0.
pub open spec fn value_at(parts: Seq<Seq<char>>, index: int) -> u64 {
    if index < parts.len() {
        match text::unsigned_number(parts[index], 10, u64::MAX as nat) {
            Ok(n) => n as u64,
            Err(_) => 0,
        }
    } else {
        0
    }
}

/// What a line tells of a processor. A line of any other name tells nothing; what is
/// missing counts as 0.
pub open spec fn cpu_line(line: Seq<char>) -> Option<CpuTimeView> {
    let parts = text::words(line);
    if parts.len() == 0 || !text::begins_with(parts[0], "cpu"@) {
        None
    } else {
        Some(
            CpuTimeView {
                name: parts[0],
                user: value_at(parts, 1),
                nice: value_at(parts, 2),
                system: value_at(parts, 3),
                idle: value_at(parts, 4),
                iowait: value_at(parts, 5),
                irq: value_at(parts, 6),
                softirq: value_at(parts, 7),
                steal: value_at(parts, 8),
                guest: value_at(parts, 9),
                guest_nice: value_at(parts, 10),
            },
        )
    }
}

fn get_value(parts: &Vec<String>, index: usize) -> (r: u64)
    ensures
        r == value_at(text::views(parts@), index as int),
{
    if index < parts.len() {
        assert(text::views(parts@)[index as int] == parts@[index as int]@);
        match text::parse_unsigned(parts[index].as_str(), 10, u64::MAX) {
            Ok(n) => n,
            Err(_) => 0,
        }
    } else {
        0
    }
}

/// Reads what a line tells of a processor.
pub fn parse_cpu_line(line: &str) -> (r: Option<CpuTime>)
    ensures
        match r {
            Some(cpu) => cpu_line(line@) == Some(cpu@),
            None => cpu_line(line@) is None,
        },
{
    let parts = text::split_whitespace(line);
    if parts.len() == 0 {
        return None;
    }
    assert(text::views(parts@)[0] == parts@[0]@);
    if !text::starts_with(parts[0].as_str(), "cpu") {
        return None;
    }
    Some(
        CpuTime {
            name: parts[0].clone(),
            user: get_value(&parts, 1),
            nice: get_value(&parts, 2),
            system: get_value(&parts, 3),
            idle: get_value(&parts, 4),
            iowait: get_value(&parts, 5),
            irq: get_value(&parts, 6),
            softirq: get_value(&parts, 7),
            steal: get_value(&parts, 8),
            guest: get_value(&parts, 9),
            guest_nice: get_value(&parts, 10),
        },
    )
}

/// What the kernel counts.
#[derive(Debug)]
pub struct KernelStats {
    pub total: Option<CpuTime>,
    pub per_cpu: Vec<CpuTime>,
    pub context_switches: u64,
    pub boot_time: u64,
    pub processes_created: u64,
    pub processes_running: u32,
    pub processes_blocked: u32,
}

/// What the kernel counts, in terms of texts and sequences.
pub struct KernelStatsView {
    pub total: Option<CpuTimeView>,
    pub per_cpu: Seq<CpuTimeView>,
    pub context_switches: u64,
    pub boot_time: u64,
    pub processes_created: u64,
    pub processes_running: u32,
    pub processes_blocked: u32,
}

impl View for KernelStats {
    type V = KernelStatsView;

    open spec fn view(&self) -> KernelStatsView {
        KernelStatsView {
            total: match self.total {
                Some(cpu) => Some(cpu@),
                None => None,
            },
            per_cpu: self.per_cpu@.map_values(|cpu: CpuTime| cpu@),
            context_switches: self.context_switches,
            boot_time: self.boot_time,
            processes_created: self.processes_created,
            processes_running: self.processes_running,
            processes_blocked: self.processes_blocked,
        }
    }
}

/// A number of at most 32 bits, or 0.
pub open spec fn small_value_at(parts: Seq<Seq<char>>, index: int) -> u32 {
    match text::unsigned_number(parts[index], 10, u32::MAX as nat) {
        Ok(n) => n as u32,
        Err(_) => 0,
    }
}

/// What one more line adds to what is known. The line of all processors begins with
/// their name and a space; lines of other names that begin like it tell of one
/// processor each. A count without a number is left as it was.
pub open spec fn with_line(s: KernelStatsView, line: Seq<char>) -> KernelStatsView {
    let parts = text::words(line);
    if parts.len() == 0 {
        s
    } else if parts[0] == "cpu"@ && text::begins_with(line, "cpu "@) {
        KernelStatsView { total: cpu_line(line), ..s }
    } else if text::begins_with(parts[0], "cpu"@) {
        KernelStatsView { per_cpu: s.per_cpu.push(cpu_line(line)->Some_0), ..s }
    } else if parts.len() < 2 {
        s
    } else if parts[0] == "ctxt"@ {
        KernelStatsView { context_switches: value_at(parts, 1), ..s }
    } else if parts[0] == "btime"@ {
        KernelStatsView { boot_time: value_at(parts, 1), ..s }
    } else if parts[0] == "processes"@ {
        KernelStatsView { processes_created: value_at(parts, 1), ..s }
    } else if parts[0] == "procs_running"@ {
        KernelStatsView { processes_running: small_value_at(parts, 1), ..s }
    } else if parts[0] == "procs_blocked"@ {
        KernelStatsView { processes_blocked: small_value_at(parts, 1), ..s }
    } else {
        s
    }
}

/// What lines tell of what the kernel counts.
pub open spec fn stats_of(lines: Seq<String>) -> KernelStatsView
    decreases lines.len(),
{
    if lines.len() == 0 {
        KernelStatsView {
            total: None,
            per_cpu: Seq::empty(),
            context_switches: 0,
            boot_time: 0,
            processes_created: 0,
            processes_running: 0,
            processes_blocked: 0,
        }
    } else {
        with_line(stats_of(lines.drop_last()), lines.last()@)
    }
}

fn get_small_value(part: &str) -> (r: u32)
    ensures
        r == (match text::unsigned_number(part@, 10, u32::MAX as nat) {
            Ok(n) => n as u32,
            Err(_) => 0,
        }),
{
    match text::parse_unsigned(part, 10, u32::MAX as u64) {
        Ok(n) => n as u32,
        Err(_) => 0,
    }
}

/// Adds what a line tells.
fn add_line(stats: &mut KernelStats, line: &str)
    ensures
        final(stats)@ == with_line(old(stats)@, line@),
{
    let ghost was = stats@;
    let parts = text::split_whitespace(line);
    if parts.len() == 0 {
        return ;
    }
    let ghost words = text::words(line@);
    assert(words[0] == parts@[0]@);
    let prefix = parts[0].as_str();
    if text::same(prefix, "cpu") && text::starts_with(line, "cpu ") {
        stats.total = parse_cpu_line(line);
    } else if text::starts_with(prefix, "cpu") {
        if let Some(cpu) = parse_cpu_line(line) {
            let ghost before = stats.per_cpu@;
            stats.per_cpu.push(cpu);
            assert(stats.per_cpu@.map_values(|cpu: CpuTime| cpu@) =~= before.map_values(
                |cpu: CpuTime| cpu@,
            ).push(cpu@));
        }
    } else if parts.len() >= 2 {
        assert(words[1] == parts@[1]@);
        if text::same(prefix, "ctxt") {
            stats.context_switches = get_value(&parts, 1);
        } else if text::same(prefix, "btime") {
            stats.boot_time = get_value(&parts, 1);
        } else if text::same(prefix, "processes") {
            stats.processes_created = get_value(&parts, 1);
        } else if text::same(prefix, "procs_running") {
            stats.processes_running = get_small_value(parts[1].as_str());
        } else if text::same(prefix, "procs_blocked") {
            stats.processes_blocked = get_small_value(parts[1].as_str());
        }
    }
    assert(stats@.per_cpu =~= with_line(was, line@).per_cpu);
}

/// Reads what the lines of the kernel's statistics tell.
pub fn read_and_parse_proc_stat(lines: &Vec<String>) -> (stats: KernelStats)
    ensures
        stats@ == stats_of(lines@),
{
    let mut stats = KernelStats {
        total: None,
        per_cpu: Vec::new(),
        context_switches: 0,
        boot_time: 0,
        processes_created: 0,
        processes_running: 0,
        processes_blocked: 0,
    };
    let mut i: usize = 0;
    assert(lines@.take(0) =~= Seq::<String>::empty());
    assert(stats@.per_cpu =~= Seq::<CpuTimeView>::empty());
    while i < lines.len()
        invariant
            i <= lines@.len(),
            stats@ == stats_of(lines@.take(i as int)),
        decreases lines@.len() - i,
    {
        assert(lines@.take(i + 1).drop_last() =~= lines@.take(i as int));
        add_line(&mut stats, lines[i].as_str());
        i += 1;
    }
    assert(lines@.take(i as int) =~= lines@);
    stats
}

/// The answer to a request for what the kernel counts.
pub fn handle_get_kernel_stats(lines: Result<Vec<String>, String>) -> (r: Result<
    KernelStats,
    HostError,
>)
    ensures
        match lines {
            Ok(lines) => r matches Ok(stats) && stats@ == stats_of(lines@),
            Err(e) => r matches Err(HostError::SystemInfoRead { source, path }) && source == e
                && path@ == "/proc/stat"@,
        },
{
    match lines {
        Ok(lines) => Ok(read_and_parse_proc_stat(&lines)),
        Err(source) => Err(HostError::SystemInfoRead { source, path: "/proc/stat".to_owned() }),
    }
}

} // verus!
