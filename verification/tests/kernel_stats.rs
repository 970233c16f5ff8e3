use feos::cli::kernel_stats::{
    calculate_cpu_usage, can_count, can_count_all, display_cpu_usage, format_boot_time,
    get_kernel_stats, show_statistics, CpuUsage, StatsProgress, StatsStep,
};
use feos::host::error::HostError;
use feos::host::kernel_stats::{
    handle_get_kernel_stats, parse_cpu_line, read_and_parse_proc_stat, CpuTime, KernelStats,
};

struct Percent {
    total: f64,
    user: f64,
    system: f64,
    iowait: f64,
}

fn percent(usage: &CpuUsage) -> Percent {
    if usage.total == 0 {
        return Percent { total: 0.0, user: 0.0, system: 0.0, iowait: 0.0 };
    }
    let total = usage.total as f64;
    Percent {
        total: ((total - usage.idle as f64) / total) * 100.0,
        user: (usage.user as f64 / total) * 100.0,
        system: (usage.system as f64 / total) * 100.0,
        iowait: (usage.iowait as f64 / total) * 100.0,
    }
}

fn create_cpu_time(
    name: &str,
    user: u64,
    nice: u64,
    system: u64,
    idle: u64,
    iowait: u64,
) -> CpuTime {
    CpuTime {
        name: name.to_string(),
        user,
        nice,
        system,
        idle,
        iowait,
        irq: 0,
        softirq: 0,
        steal: 0,
        guest: 0,
        guest_nice: 0,
    }
}

fn lines(all: &[&str]) -> Vec<String> {
    all.iter().map(|s| s.to_string()).collect()
}

#[test]
fn test_calculate_cpu_usage_percent_basic() {
    let before = create_cpu_time("cpu0", 100, 0, 50, 800, 50);
    let after = create_cpu_time("cpu0", 200, 150, 100, 900, 150);
    let usage = percent(&calculate_cpu_usage(&before, &after));
    assert_eq!(usage.total, 60.0);
    assert_eq!(usage.user, 20.0);
    assert_eq!(usage.system, 10.0);
}

#[test]
fn test_calculate_cpu_usage_percent_zero_delta() {
    let cpu = create_cpu_time("cpu0", 100, 0, 50, 800, 50);
    let usage = percent(&calculate_cpu_usage(&cpu, &cpu));
    assert_eq!(usage.total, 0.0);
    assert_eq!(usage.user, 0.0);
    assert_eq!(usage.system, 0.0);
    assert_eq!(usage.iowait, 0.0);
}

#[test]
fn test_calculate_cpu_usage_percent_100_percent() {
    let before = create_cpu_time("cpu0", 100, 0, 50, 50, 0);
    let after = create_cpu_time("cpu0", 200, 0, 150, 50, 0);
    let usage = percent(&calculate_cpu_usage(&before, &after));
    assert_eq!(usage.total, 100.0);
}

#[test]
fn test_calculate_cpu_usage_percent_all_idle() {
    let before = create_cpu_time("cpu0", 100, 0, 50, 800, 50);
    let after = create_cpu_time("cpu0", 100, 0, 50, 1300, 50);
    let usage = percent(&calculate_cpu_usage(&before, &after));
    assert_eq!(usage.total, 0.0);
}

#[test]
fn test_calculate_cpu_usage_percent_high_iowait() {
    let before = create_cpu_time("cpu0", 100, 0, 50, 800, 50);
    let after = create_cpu_time("cpu0", 150, 0, 75, 900, 375);
    let usage = percent(&calculate_cpu_usage(&before, &after));
    assert_eq!(usage.iowait, 65.0);
}

#[test]
fn test_format_boot_time() {
    let timestamp = 1705320000u64;
    let formatted = format_boot_time(timestamp);
    assert_eq!(formatted, "2024-01-15 12:00:00 UTC");
}

#[test]
fn test_format_boot_time_epoch() {
    let formatted = format_boot_time(0);
    assert_eq!(formatted, "1970-01-01 00:00:00 UTC");
}

#[test]
fn boot_time_out_of_range_is_the_epoch() {
    assert_eq!(format_boot_time(u64::MAX / 2), "1970-01-01 00:00:00 UTC");
    // All bits set is the second before the epoch.
    assert_eq!(format_boot_time(u64::MAX), "1969-12-31 23:59:59 UTC");
    assert_eq!(format_boot_time(253402300799), "9999-12-31 23:59:59 UTC");
    assert_eq!(format_boot_time(8210266876799), "+262142-12-31 23:59:59 UTC");
    assert_eq!(format_boot_time(8210266876800), "1970-01-01 00:00:00 UTC");
}

#[test]
fn test_parse_cpu_line() {
    let line = "cpu  123 456 789 1011 1213 1415 1617 1819 2021 2223";
    let cpu = parse_cpu_line(line).unwrap();
    assert_eq!(cpu.name, "cpu");
    assert_eq!(cpu.user, 123);
    assert_eq!(cpu.nice, 456);
    assert_eq!(cpu.system, 789);
    assert_eq!(cpu.idle, 1011);
    assert_eq!(cpu.iowait, 1213);
    assert_eq!(cpu.irq, 1415);
    assert_eq!(cpu.softirq, 1617);
    assert_eq!(cpu.steal, 1819);
    assert_eq!(cpu.guest, 2021);
    assert_eq!(cpu.guest_nice, 2223);
}

#[test]
fn test_parse_cpu_line_minimal() {
    let line = "cpu0 123 456 789 1011";
    let cpu = parse_cpu_line(line).unwrap();
    assert_eq!(cpu.name, "cpu0");
    assert_eq!(cpu.user, 123);
    assert_eq!(cpu.nice, 456);
    assert_eq!(cpu.system, 789);
    assert_eq!(cpu.idle, 1011);
    assert_eq!(cpu.iowait, 0);
}

#[test]
fn lines_of_other_names_tell_nothing_of_a_processor() {
    assert!(parse_cpu_line("").is_none());
    assert!(parse_cpu_line("intr 1 2 3").is_none());
    assert_eq!(parse_cpu_line("cpu7 x 2").unwrap().user, 0);
    assert_eq!(parse_cpu_line("cpu7 x 2").unwrap().nice, 2);
}

#[test]
fn proc_stat_is_read_line_by_line() {
    let stats = read_and_parse_proc_stat(&lines(&[
        "cpu  10 20 30 40 50 60 70 80 90 100",
        "cpu0 1 2 3 4",
        "cpu1 5 6 7 8",
        "intr 1 2 3",
        "ctxt 123456",
        "btime 1705320000",
        "processes 4242",
        "procs_running 3",
        "procs_blocked 4294967296",
        "softirq",
    ]));
    assert_eq!(stats.total.as_ref().unwrap().guest_nice, 100);
    assert_eq!(stats.per_cpu.len(), 2);
    assert_eq!(stats.per_cpu[1].name, "cpu1");
    assert_eq!(stats.per_cpu[1].idle, 8);
    assert_eq!(stats.context_switches, 123456);
    assert_eq!(stats.boot_time, 1705320000);
    assert_eq!(stats.processes_created, 4242);
    assert_eq!(stats.processes_running, 3);
    assert_eq!(stats.processes_blocked, 0);
}

#[test]
fn unreadable_kernel_stats_are_an_error() {
    match handle_get_kernel_stats(Err("denied".to_string())) {
        Err(HostError::SystemInfoRead { source, path }) => {
            assert_eq!(source, "denied");
            assert_eq!(path, "/proc/stat");
        }
        _ => panic!("expected an error"),
    }
    assert!(handle_get_kernel_stats(Ok(Vec::new())).unwrap().total.is_none());
}

#[test]
fn counts_that_fell_do_not_count() {
    let before = create_cpu_time("cpu0", 100, 0, 50, 10, 0);
    let after = create_cpu_time("cpu0", 90, 100, 60, 5, 0);
    let usage = calculate_cpu_usage(&before, &after);
    assert_eq!(usage, CpuUsage { total: 95, idle: 0, user: 0, system: 10, iowait: 0 });
}

#[test]
fn shares_of_growing_counts_are_parts() {
    let before = create_cpu_time("cpu0", 1, 2, 3, 4, 5);
    let after = create_cpu_time("cpu0", 11, 22, 33, 44, 55);
    let usage = calculate_cpu_usage(&before, &after);
    assert_eq!(usage, CpuUsage { total: 150, idle: 90, user: 10, system: 30, iowait: 50 });
    assert!(usage.idle + usage.user + usage.system <= usage.total);
}

#[test]
fn sums_that_do_not_fit_are_found() {
    let mut cpu = create_cpu_time("cpu0", u64::MAX, 0, 0, 0, 0);
    assert!(can_count(&cpu));
    cpu.steal = 1;
    assert!(!can_count(&cpu));
    let mut stats = read_and_parse_proc_stat(&Vec::new());
    assert!(can_count_all(&stats));
    stats.per_cpu.push(cpu);
    assert!(!can_count_all(&stats));
}

fn sample(cpus: &[(&str, u64)]) -> KernelStats {
    let mut stats = read_and_parse_proc_stat(&Vec::new());
    for (name, user) in cpus {
        stats.per_cpu.push(create_cpu_time(name, *user, 0, 0, 0, 0));
    }
    stats
}

#[test]
fn processors_are_matched_by_place() {
    let mut first = sample(&[("cpu0", 1), ("cpu1", 2), ("cpu2", 3)]);
    let second = sample(&[("a", 11), ("b", 22)]);
    let report = display_cpu_usage(&first, &second);
    assert!(report.overall.is_none());
    assert_eq!(report.per_cpu.len(), 2);
    assert_eq!(report.per_cpu[0].0, "a");
    assert_eq!(report.per_cpu[1].0, "b");
    assert_eq!(report.per_cpu[1].1.user, 20);
    first.total = Some(create_cpu_time("cpu", 1, 0, 0, 0, 0));
    assert!(display_cpu_usage(&first, &second).overall.is_none());
}

#[test]
fn kernel_stats_are_sampled_twice() {
    match get_kernel_stats(StatsProgress::Started) {
        StatsStep::Begin { line } => assert_eq!(line, "Taking CPU measurements..."),
        _ => panic!(),
    }
    match get_kernel_stats(StatsProgress::FirstSample(None)) {
        StatsStep::Fail(e) => assert_eq!(e, "No CPU stats in response"),
        _ => panic!(),
    }
    let first = match get_kernel_stats(StatsProgress::FirstSample(Some(sample(&[])))) {
        StatsStep::Sleep { seconds, first } => {
            assert_eq!(seconds, 1);
            first
        }
        _ => panic!(),
    };
    let first = match get_kernel_stats(StatsProgress::Waited(first)) {
        StatsStep::AskAgain { first } => first,
        _ => panic!(),
    };
    let mut second = sample(&[]);
    second.context_switches = 7;
    second.boot_time = 1705320000;
    second.processes_created = 8;
    second.processes_running = 9;
    second.processes_blocked = 10;
    assert_eq!(show_statistics(&second, "then")[2], "  Boot Time:        then");
    match get_kernel_stats(StatsProgress::SecondSample { first, second: Some(second) }) {
        StatsStep::Show { lines, .. } => assert_eq!(
            lines,
            vec![
                "\nSystem Statistics:",
                "  Context Switches: 7",
                "  Boot Time:        2024-01-15 12:00:00 UTC",
                "  Processes:        8 created, 9 running, 10 blocked",
            ]
        ),
        _ => panic!(),
    }
}
