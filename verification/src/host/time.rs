//! The time of the machine: it is asked of time servers once a day.
use crate::clock;
use crate::numbers;
use crate::text;
use vstd::prelude::*;

verus! {

/// The server that is asked where no other answers.
pub const FALLBACK_NTP_SERVER: &'static str = "pool.ntp.org";

/// How long the time is kept once it was set, in seconds: a day.
pub const SYNC_INTERVAL_SECS: u64 = 86400;

/// How long to wait before trying again, in seconds: five minutes.
pub const RETRY_INTERVAL_SECS: u64 = 300;

/// The port that time servers listen on.
pub const NTP_PORT: u16 = 123;

/// What a time server answered.
pub struct NtpTime {
    pub seconds: u64,
    /// The fraction of a second, in units of 2 to the power of -32.
    pub fraction: u32,
}

/// What the clock of the machine is set to.
#[derive(Clone, Copy, Debug, PartialEq, Eq, Structural)]
pub struct TimeSpec {
    pub seconds: i64,
    pub nanos: u32,
}

/// How far asking a time server has come.
pub enum QueryProgress {
    /// What the server answered.
    Answered(Result<NtpTime, String>),
    /// Whether the clock could be set.
    ClockSet(Result<(), String>),
}

/// What to do next with a time server.
pub enum QueryAction {
    /// Set the clock.
    SetClock(TimeSpec),
    /// The server is done with.
    Finish(Result<(), String>),
}

/// The nanoseconds that a fraction of a second stands for.
pub open spec fn nanos_of(fraction: u32) -> u32 {
    (fraction as int * 1_000_000_000 / 0x1_0000_0000) as u32
}

/// What to do next with a time server.
pub open spec fn query_next(progress: QueryProgress, action: QueryAction) -> bool {
    match progress {
        QueryProgress::Answered(Err(e)) => action matches QueryAction::Finish(Err(m)) && m@
            == "NTP query failed: "@ + e@,
        QueryProgress::Answered(Ok(time)) => {
            let seconds = numbers::low_i64(time.seconds as int);
            let nanos = nanos_of(time.fraction);
            if clock::is_utc_time(seconds, nanos) {
                action == QueryAction::SetClock(TimeSpec { seconds, nanos })
            } else {
                action matches QueryAction::Finish(Err(m)) && m@
                    == "Failed to convert NTP time to local time"@
            }
        },
        QueryProgress::ClockSet(Ok(_)) => action == QueryAction::Finish(Ok(())),
        QueryProgress::ClockSet(Err(e)) => action matches QueryAction::Finish(Err(m)) && m@
            == "Failed to set system time: "@ + e@,
    }
}

/// How far keeping the time has come.
pub enum SyncProgress {
    Started,
    /// Whether there is a socket to ask with.
    Bound(Result<(), String>),
    /// What asking one of the servers came to.
    Tried { index: usize, result: Result<(), String> },
    /// The addresses of the fallback server; whether each is one of IPv6.
    Resolved(Result<Vec<bool>, String>),
    /// What asking the fallback server came to.
    FallbackTried(Result<(), String>),
}

/// What to do next to keep the time.
pub enum SyncAction {
    /// Open a socket.
    Bind,
    /// Ask one of the servers.
    Query { index: usize },
    /// Look up the addresses of the fallback server.
    Resolve { server: String },
    /// Ask the fallback server at one of its addresses.
    QueryFallback { address: usize },
    /// This attempt is over.
    Finish(Result<(), String>),
}

/// The position of the first address of IPv6.
pub open spec fn first_ipv6(addresses: Seq<bool>) -> Option<int>
    decreases addresses.len(),
{
    if addresses.len() == 0 {
        None
    } else if addresses[0] {
        Some(0)
    } else {
        match first_ipv6(addresses.drop_first()) {
            Some(i) => Some(i + 1),
            None => None,
        }
    }
}

/// The server of this number is asked next, or the fallback where there is none.
pub open spec fn asks(servers: Seq<u128>, index: int, action: SyncAction) -> bool {
    if index < servers.len() {
        action matches SyncAction::Query { index: i } && i == index
    } else {
        action matches SyncAction::Resolve { server } && server@ == FALLBACK_NTP_SERVER@ + ":123"@
    }
}

/// What to do next to keep the time.
pub open spec fn sync_next(
    servers: Seq<u128>,
    progress: SyncProgress,
    action: SyncAction,
) -> bool {
    match progress {
        SyncProgress::Started => action == SyncAction::Bind,
        SyncProgress::Bound(Err(e)) => action matches SyncAction::Finish(Err(m)) && m@
            == "Failed to bind UDP socket: "@ + e@,
        SyncProgress::Bound(Ok(_)) => asks(servers, 0, action),
        SyncProgress::Tried { index, result } => match result {
            Ok(_) => action == SyncAction::Finish(Ok(())),
            Err(_) => asks(servers, index + 1, action),
        },
        SyncProgress::Resolved(Err(e)) => action matches SyncAction::Finish(Err(m)) && m@
            == "Failed to sync with fallback server: "@ + ("Failed to resolve "@
            + FALLBACK_NTP_SERVER@ + ": "@ + e@),
        SyncProgress::Resolved(Ok(addresses)) => match first_ipv6(addresses@) {
            Some(i) => action matches SyncAction::QueryFallback { address } && address == i,
            None => action matches SyncAction::Finish(Err(m)) && m@
                == "Failed to sync with fallback server: "@ + (
            "No suitable address found for "@ + FALLBACK_NTP_SERVER@),
        },
        SyncProgress::FallbackTried(result) => match result {
            Ok(_) => action == SyncAction::Finish(Ok(())),
            Err(e) => action matches SyncAction::Finish(Err(m)) && m@
                == "Failed to sync with fallback server: "@ + e@,
        },
    }
}

/// Keeps the time of the machine. Servers are known by their IPv6 addresses.
pub struct TimeSyncWorker {
    pub ntp_servers: Vec<u128>,
}

impl TimeSyncWorker {
    /// Keeps the time with these servers.
    pub fn new(ntp_servers: Vec<u128>) -> (r: TimeSyncWorker)
        ensures
            r.ntp_servers == ntp_servers,
    {
        TimeSyncWorker { ntp_servers }
    }

    /// How many seconds to wait after an attempt.
    pub fn perform_sync_loop(result: &Result<(), String>) -> (seconds: u64)
        ensures
            seconds == (if *result is Ok {
                SYNC_INTERVAL_SECS
            } else {
                RETRY_INTERVAL_SECS
            }),
    {
        match result {
            Ok(_) => SYNC_INTERVAL_SECS,
            Err(_) => RETRY_INTERVAL_SECS,
        }
    }

    fn ask(&self, index: usize) -> (action: SyncAction)
        ensures
            asks(self.ntp_servers@, index as int, action),
    {
        if index < self.ntp_servers.len() {
            SyncAction::Query { index }
        } else {
            SyncAction::Resolve { server: text::cat2(FALLBACK_NTP_SERVER, ":123") }
        }
    }

    /// What looking up the fallback server leads to: it is asked at its first address
    /// of IPv6.
    pub fn resolve_and_sync(addresses: Result<Vec<bool>, String>) -> (r: Result<usize, String>)
        ensures
            match addresses {
                Err(e) => r matches Err(m) && m@ == "Failed to resolve "@ + FALLBACK_NTP_SERVER@
                    + ": "@ + e@,
                Ok(list) => match first_ipv6(list@) {
                    Some(i) => r matches Ok(address) && address == i,
                    None => r matches Err(m) && m@ == "No suitable address found for "@
                        + FALLBACK_NTP_SERVER@,
                },
            },
    {
        let list = match addresses {
            Ok(list) => list,
            Err(e) => {
                return Err(
                    text::cat4("Failed to resolve ", FALLBACK_NTP_SERVER, ": ", e.as_str()),
                );
            },
        };
        let mut i: usize = 0;
        assert(list@.skip(0) =~= list@);
        while i < list.len()
            invariant
                i <= list@.len(),
                addresses == Ok::<Vec<bool>, String>(list),
                first_ipv6(list@) == (match first_ipv6(list@.skip(i as int)) {
                    Some(k) => Some(k + i),
                    None => None,
                }),
            decreases list@.len() - i,
        {
            assert(list@.skip(i as int)[0] == list@[i as int]);
            assert(list@.skip(i as int).drop_first() =~= list@.skip(i + 1));
            if list[i] {
                return Ok(i);
            }
            i += 1;
        }
        Err(text::cat2("No suitable address found for ", FALLBACK_NTP_SERVER))
    }

    /// What to do next to keep the time: the servers are asked in order until one
    /// sets the clock, and the fallback server only after all others.
    pub fn synchronize_time(&self, progress: SyncProgress) -> (action: SyncAction)
        requires
            progress matches SyncProgress::Tried { index, result: _ } ==> index
                < self.ntp_servers@.len(),
        ensures
            sync_next(self.ntp_servers@, progress, action),
    {
        match progress {
            SyncProgress::Started => SyncAction::Bind,
            SyncProgress::Bound(bound) => match bound {
                Err(e) => SyncAction::Finish(
                    Err(text::cat2("Failed to bind UDP socket: ", e.as_str())),
                ),
                Ok(_) => self.ask(0),
            },
            SyncProgress::Tried { index, result } => match result {
                Ok(_) => SyncAction::Finish(Ok(())),
                Err(_) => {
                    let count: usize = self.ntp_servers.len();
                    assert(index < count);
                    self.ask(index + 1)
                },
            },
            SyncProgress::Resolved(addresses) => match Self::resolve_and_sync(addresses) {
                Ok(address) => SyncAction::QueryFallback { address },
                Err(e) => SyncAction::Finish(
                    Err(text::cat2("Failed to sync with fallback server: ", e.as_str())),
                ),
            },
            SyncProgress::FallbackTried(result) => match result {
                Ok(_) => SyncAction::Finish(Ok(())),
                Err(e) => SyncAction::Finish(
                    Err(text::cat2("Failed to sync with fallback server: ", e.as_str())),
                ),
            },
        }
    }

    /// What to do with a time that was answered, given the point in time that it
    /// stands for, if there is one.
    pub fn set_clock_to(converted: Option<(i64, u32)>) -> (action: QueryAction)
        ensures
            match converted {
                Some((seconds, nanos)) => action == QueryAction::SetClock(
                    TimeSpec { seconds, nanos },
                ),
                None => action matches QueryAction::Finish(Err(m)) && m@
                    == "Failed to convert NTP time to local time"@,
            },
    {
        match converted {
            Some((seconds, nanos)) => QueryAction::SetClock(TimeSpec { seconds, nanos }),
            None => QueryAction::Finish(
                Err("Failed to convert NTP time to local time".to_owned()),
            ),
        }
    }

    /// What to do next with a time server: the clock is set to the time that it
    /// answered.
    pub fn query_ntp_server(progress: QueryProgress) -> (action: QueryAction)
        ensures
            query_next(progress, action),
    {
        match progress {
            QueryProgress::Answered(answer) => match answer {
                Err(e) => QueryAction::Finish(Err(text::cat2("NTP query failed: ", e.as_str()))),
                Ok(time) => {
                    let nanos: u32 = sntpc::fraction_to_nanoseconds(time.fraction);
                    assert(nanos < 1_000_000_000);
                    let seconds: i64 = numbers::truncate_u64(time.seconds);
                    Self::set_clock_to(clock::utc_timestamp(seconds, nanos))
                },
            },
            QueryProgress::ClockSet(set) => match set {
                Ok(_) => QueryAction::Finish(Ok(())),
                Err(e) => QueryAction::Finish(
                    Err(text::cat2("Failed to set system time: ", e.as_str())),
                ),
            },
        }
    }
}

/// The servers are asked in order: after the failure of one the next is asked, after
/// that of the last the fallback, and none is asked after a success.
pub proof fn servers_are_asked_in_order(
    servers: Seq<u128>,
    index: usize,
    failed: SyncAction,
    succeeded: SyncAction,
    e: String,
)
    requires
        index < servers.len(),
        sync_next(servers, SyncProgress::Tried { index, result: Err(e) }, failed),
        sync_next(servers, SyncProgress::Tried { index, result: Ok(()) }, succeeded),
    ensures
        index + 1 < servers.len() ==> (failed matches SyncAction::Query { index: i } && i == index
            + 1),
        index + 1 == servers.len() ==> failed is Resolve,
        succeeded == SyncAction::Finish(Ok(())),
{
}

} // verus!
