//! The load of the processors between two samples, and other counts of the kernel.
use crate::clock;
use crate::host::kernel_stats::{CpuTime, KernelStats};
use crate::numbers;
use crate::text;
use vstd::prelude::*;

verus! {

/// What a processor spent its time on between two samples: all of it, and what of it
/// was spent idle or waiting, on programs, in the kernel, and waiting for devices.
/// Where no time has passed, everything is 0.
#[derive(Clone, Copy, Debug, PartialEq, Eq, Structural)]
pub struct CpuUsage {
    pub total: u64,
    pub idle: u64,
    pub user: u64,
    pub system: u64,
    pub iowait: u64,
}

/// All time that a sample counts. Time of guests is part of the time of programs.
pub open spec fn total_time(cpu: CpuTime) -> int {
    cpu.user + cpu.nice + cpu.system + cpu.idle + cpu.iowait + cpu.irq + cpu.softirq + cpu.steal
}

/// Whether all time of a sample can be counted.
pub open spec fn countable(cpu: CpuTime) -> bool {
    total_time(cpu) <= u64::MAX
}

/// By how much a count grew; one that fell did not grow.
pub open spec fn growth(before: int, after: int) -> int {
    if after > before {
        after - before
    } else {
        0
    }
}

/// What a processor spent its time on between two samples.
pub open spec fn usage_of(before: CpuTime, after: CpuTime) -> CpuUsage {
    let total = growth(total_time(before), total_time(after));
    if total == 0 {
        CpuUsage { total: 0, idle: 0, user: 0, system: 0, iowait: 0 }
    } else {
        CpuUsage {
            total: total as u64,
            idle: growth(before.idle + before.iowait, after.idle + after.iowait) as u64,
            user: growth(before.user as int, after.user as int) as u64,
            system: growth(before.system as int, after.system as int) as u64,
            iowait: growth(before.iowait as int, after.iowait as int) as u64,
        }
    }
}

/// Whether all time of a sample can be counted.
pub fn can_count(cpu: &CpuTime) -> (r: bool)
    ensures
        r == countable(*cpu),
{
    let sum: u128 = cpu.user as u128 + cpu.nice as u128 + cpu.system as u128 + cpu.idle as u128
        + cpu.iowait as u128 + cpu.irq as u128 + cpu.softirq as u128 + cpu.steal as u128;
    sum <= u64::MAX as u128
}

fn sum_of(cpu: &CpuTime) -> (r: u64)
    requires
        countable(*cpu),
    ensures
        r == total_time(*cpu),
{
    cpu.user + cpu.nice + cpu.system + cpu.idle + cpu.iowait + cpu.irq + cpu.softirq + cpu.steal
}

/// What a processor spent its time on between two samples. The shares of the load are
/// the parts of the total, where there is one.
pub fn calculate_cpu_usage(before: &CpuTime, after: &CpuTime) -> (usage: CpuUsage)
    requires
        countable(*before),
        countable(*after),
    ensures
        usage == usage_of(*before, *after),
{
    let total: u64 = sum_of(after).saturating_sub(sum_of(before));
    if total == 0 {
        return CpuUsage { total: 0, idle: 0, user: 0, system: 0, iowait: 0 };
    }
    CpuUsage {
        total,
        idle: (after.idle + after.iowait).saturating_sub(before.idle + before.iowait),
        user: after.user.saturating_sub(before.user),
        system: after.system.saturating_sub(before.system),
        iowait: after.iowait.saturating_sub(before.iowait),
    }
}

/// Whether no count fell between two samples.
pub open spec fn only_grew(before: CpuTime, after: CpuTime) -> bool {
    &&& before.user <= after.user
    &&& before.nice <= after.nice
    &&& before.system <= after.system
    &&& before.idle <= after.idle
    &&& before.iowait <= after.iowait
    &&& before.irq <= after.irq
    &&& before.softirq <= after.softirq
    &&& before.steal <= after.steal
}

/// Where no count fell, every share lies between nothing and the whole: idle time,
/// waiting for devices included, and the time spent on programs and in the kernel
/// together are at most all time that has passed.
pub proof fn shares_are_parts_of_the_whole(before: CpuTime, after: CpuTime)
    requires
        countable(before),
        countable(after),
        only_grew(before, after),
    ensures
        ({
            let usage = usage_of(before, after);
            &&& usage.idle + usage.user + usage.system <= usage.total
            &&& usage.iowait <= usage.idle
        }),
{
}

/// Where nothing has changed between two samples, there is no load at all.
pub proof fn no_time_no_load(cpu: CpuTime)
    ensures
        usage_of(cpu, cpu) == (CpuUsage { total: 0, idle: 0, user: 0, system: 0, iowait: 0 }),
{
}

/// Idle time is the growth of idle time and of waiting for devices, and all else is load:
/// where no count fell, what is not idle is what was spent on programs, in the kernel, on
/// interrupts, or taken by the host.
pub proof fn load_is_all_but_idle_time(before: &CpuTime, after: &CpuTime, usage: CpuUsage)
    requires
        countable(*before),
        countable(*after),
        only_grew(*before, *after),
        call_ensures(calculate_cpu_usage, (before, after), usage),
    ensures
        usage.idle == (after.idle - before.idle) + (after.iowait - before.iowait),
        usage.total - usage.idle == (after.user - before.user) + (after.nice - before.nice) + (
        after.system - before.system) + (after.irq - before.irq) + (after.softirq - before.softirq)
            + (after.steal - before.steal),
        usage.user == after.user - before.user,
        usage.system == after.system - before.system,
        usage.iowait == after.iowait - before.iowait,
{
}

/// Counts may start anew: a share that fell shows as nothing, and where the sum of all counts
/// did not grow, every share does.
pub proof fn falling_counts_show_as_nothing(before: &CpuTime, after: &CpuTime, usage: CpuUsage)
    requires
        countable(*before),
        countable(*after),
        call_ensures(calculate_cpu_usage, (before, after), usage),
    ensures
        ({
            let earlier = before.user + before.nice + before.system + before.idle + before.iowait
                + before.irq + before.softirq + before.steal;
            let later = after.user + after.nice + after.system + after.idle + after.iowait
                + after.irq + after.softirq + after.steal;
            &&& later <= earlier ==> usage.total == 0 && usage.idle == 0 && usage.user == 0
                && usage.system == 0 && usage.iowait == 0
            &&& later > earlier ==> {
                &&& usage.total == later - earlier
                &&& after.idle + after.iowait <= before.idle + before.iowait ==> usage.idle == 0
                &&& after.idle + after.iowait > before.idle + before.iowait ==> usage.idle == (
                after.idle + after.iowait) - (before.idle + before.iowait)
                &&& after.user <= before.user ==> usage.user == 0
                &&& after.user > before.user ==> usage.user == after.user - before.user
                &&& after.system <= before.system ==> usage.system == 0
                &&& after.system > before.system ==> usage.system == after.system - before.system
                &&& after.iowait <= before.iowait ==> usage.iowait == 0
                &&& after.iowait > before.iowait ==> usage.iowait == after.iowait - before.iowait
            }
        }),
{
}

/// What is shown of the load: of all processors together, where both samples count
/// them, and of each that occurs in both.
#[derive(Debug)]
pub struct UsageReport {
    pub overall: Option<CpuUsage>,
    pub per_cpu: Vec<(String, CpuUsage)>,
}

/// Whether all time in what the kernel counts can be counted.
pub open spec fn all_countable(stats: KernelStats) -> bool {
    &&& stats.total matches Some(cpu) ==> countable(cpu)
    &&& forall|i: int| 0 <= i < stats.per_cpu@.len() ==> countable(#[trigger] stats.per_cpu@[i])
}

/// Whether all time in what the kernel counts can be counted.
pub fn can_count_all(stats: &KernelStats) -> (r: bool)
    ensures
        r == all_countable(*stats),
{
    if let Some(cpu) = &stats.total {
        if !can_count(cpu) {
            return false;
        }
    }
    let mut i: usize = 0;
    while i < stats.per_cpu.len()
        invariant
            i <= stats.per_cpu@.len(),
            forall|j: int| 0 <= j < i ==> countable(#[trigger] stats.per_cpu@[j]),
        decreases stats.per_cpu@.len() - i,
    {
        if !can_count(&stats.per_cpu[i]) {
            return false;
        }
        i += 1;
    }
    true
}

/// What is shown of the load between two samples. Processors are matched by their
/// place, and go by their name in the later sample.
pub fn display_cpu_usage(stats1: &KernelStats, stats2: &KernelStats) -> (report: UsageReport)
    requires
        all_countable(*stats1),
        all_countable(*stats2),
    ensures
        match (stats1.total, stats2.total) {
            (Some(total1), Some(total2)) => report.overall == Some(usage_of(total1, total2)),
            _ => report.overall is None,
        },
        report.per_cpu@.len() == (if stats1.per_cpu@.len() < stats2.per_cpu@.len() {
            stats1.per_cpu@.len()
        } else {
            stats2.per_cpu@.len()
        }),
        forall|i: int|
            0 <= i < report.per_cpu@.len() ==> (#[trigger] report.per_cpu@[i]).0@
                == stats2.per_cpu@[i].name@ && report.per_cpu@[i].1 == usage_of(
                stats1.per_cpu@[i],
                stats2.per_cpu@[i],
            ),
{
    let overall = match (&stats1.total, &stats2.total) {
        (Some(total1), Some(total2)) => Some(calculate_cpu_usage(total1, total2)),
        _ => None,
    };
    let mut per_cpu: Vec<(String, CpuUsage)> = Vec::new();
    let mut i: usize = 0;
    while i < stats1.per_cpu.len() && i < stats2.per_cpu.len()
        invariant
            i <= stats1.per_cpu@.len(),
            i <= stats2.per_cpu@.len(),
            all_countable(*stats1),
            all_countable(*stats2),
            per_cpu@.len() == i,
            forall|j: int|
                0 <= j < i ==> (#[trigger] per_cpu@[j]).0@ == stats2.per_cpu@[j].name@
                    && per_cpu@[j].1 == usage_of(stats1.per_cpu@[j], stats2.per_cpu@[j]),
        decreases stats1.per_cpu@.len() - i,
    {
        let usage = calculate_cpu_usage(&stats1.per_cpu[i], &stats2.per_cpu[i]);
        per_cpu.push((stats2.per_cpu[i].name.clone(), usage));
        i += 1;
    }
    UsageReport { overall, per_cpu }
}

/// The second that a time of the start stands for: the bits of the number, read as a
/// signed one, or the beginning of 1970 where that is no point in time.
pub open spec fn boot_second(boot_time: u64) -> i64 {
    let seconds = numbers::low_i64(boot_time as int);
    if clock::is_utc_time(seconds, 0) {
        seconds
    } else {
        0
    }
}

/// Writes the time of the start as a date and a time of day.
pub fn format_boot_time(boot_time: u64) -> (r: String)
    ensures
        r@ == clock::utc_text(boot_second(boot_time), clock::DATE_TIME_FORMAT@),
        boot_time <= clock::LAST_SECOND ==> r@ == clock::utc_text(
            boot_time as i64,
            clock::DATE_TIME_FORMAT@,
        ),
{
    let seconds: i64 = numbers::truncate_u64(boot_time);
    match clock::utc_timestamp(seconds, 0) {
        Some(_) => clock::format_utc(seconds, clock::DATE_TIME_FORMAT),
        None => clock::format_utc(0, clock::DATE_TIME_FORMAT),
    }
}

/// What is shown of the other counts of the kernel; `boot_time` is the time of the
/// start as it is written.
pub open spec fn statistics_lines(stats: KernelStats, boot_time: Seq<char>) -> Seq<Seq<char>> {
    seq![
        "\nSystem Statistics:"@,
        "  Context Switches: "@ + text::dec(stats.context_switches as nat),
        "  Boot Time:        "@ + boot_time,
        "  Processes:        "@ + text::dec(stats.processes_created as nat) + " created, "@
            + text::dec(stats.processes_running as nat) + " running, "@ + text::dec(
            stats.processes_blocked as nat,
        ) + " blocked"@,
    ]
}

/// What is shown of the other counts of the kernel, with a written time of the start.
pub fn show_statistics(stats: &KernelStats, boot_time: &str) -> (r: Vec<String>)
    ensures
        text::views(r@) == statistics_lines(*stats, boot_time@),
{
    let created = text::cat3(
        "  Processes:        ",
        text::to_dec(stats.processes_created).as_str(),
        " created, ",
    );
    let r = vec![
        "\nSystem Statistics:".to_owned(),
        text::cat2("  Context Switches: ", text::to_dec(stats.context_switches).as_str()),
        text::cat2("  Boot Time:        ", boot_time),
        text::cat5(
            created.as_str(),
            text::to_dec(stats.processes_running as u64).as_str(),
            " running, ",
            text::to_dec(stats.processes_blocked as u64).as_str(),
            " blocked",
        ),
    ];
    assert(text::views(r@) =~= statistics_lines(*stats, boot_time@));
    r
}

/// How far a display of what the kernel counts has come.
pub enum StatsProgress {
    Started,
    /// The first sample, if the host sent one.
    FirstSample(Option<KernelStats>),
    /// The pause is over.
    Waited(KernelStats),
    /// The second sample, if the host sent one.
    SecondSample { first: KernelStats, second: Option<KernelStats> },
}

/// What to do next for a display of what the kernel counts.
pub enum StatsStep {
    /// Show a line, and ask for a sample.
    Begin { line: String },
    /// Wait for as many seconds.
    Sleep { seconds: u64, first: KernelStats },
    /// Ask for another sample.
    AskAgain { first: KernelStats },
    /// Show the load between the samples, and the other counts.
    Show { first: KernelStats, second: KernelStats, lines: Vec<String> },
    /// The display failed.
    Fail(String),
}

/// What to do next for a display of what the kernel counts.
pub fn get_kernel_stats(progress: StatsProgress) -> (step: StatsStep)
    ensures
        match progress {
            StatsProgress::Started => step matches StatsStep::Begin { line } && line@
                == "Taking CPU measurements..."@,
            StatsProgress::FirstSample(None) => step matches StatsStep::Fail(e) && e@
                == "No CPU stats in response"@,
            StatsProgress::FirstSample(Some(stats)) => step == (StatsStep::Sleep {
                seconds: 1,
                first: stats,
            }),
            StatsProgress::Waited(stats) => step == (StatsStep::AskAgain { first: stats }),
            StatsProgress::SecondSample { first: _, second: None } => step matches StatsStep::Fail(
                e,
            ) && e@ == "No CPU stats in response"@,
            StatsProgress::SecondSample { first: stats1, second: Some(stats2) } => step matches
                StatsStep::Show { first, second, lines } && first == stats1 && second == stats2
                && text::views(lines@) == statistics_lines(
                stats2,
                clock::utc_text(boot_second(stats2.boot_time), clock::DATE_TIME_FORMAT@),
            ),
        },
{
    match progress {
        StatsProgress::Started => StatsStep::Begin { line: "Taking CPU measurements...".to_owned() },
        StatsProgress::FirstSample(first) => match first {
            Some(first) => StatsStep::Sleep { seconds: 1, first },
            None => StatsStep::Fail("No CPU stats in response".to_owned()),
        },
        StatsProgress::Waited(first) => StatsStep::AskAgain { first },
        StatsProgress::SecondSample { first, second } => match second {
            Some(second) => {
                let boot_time = format_boot_time(second.boot_time);
                let lines = show_statistics(&second, boot_time.as_str());
                StatsStep::Show { first, second, lines }
            },
            None => StatsStep::Fail("No CPU stats in response".to_owned()),
        },
    }
}

} // verus!
