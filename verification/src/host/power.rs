//! Shutdown and restart of the machine.
use vstd::prelude::*;

verus! {

/// How the machine is stopped.
#[derive(Clone, Copy, Debug, PartialEq, Eq, Structural)]
pub enum RebootMode {
    PowerOff,
    AutoBoot,
}

/// How far a shutdown or a restart has come.
#[derive(Clone, Copy, Debug, PartialEq, Eq, Structural)]
pub enum PowerProgress {
    Received,
    /// The client was answered, if it was still there.
    Answered,
    /// The pause is over.
    Waited,
    /// The system refused.
    Refused,
}

/// What to do next to stop the machine.
#[derive(Clone, Copy, Debug, PartialEq, Eq, Structural)]
pub enum PowerAction {
    /// Answer the client.
    Answer,
    /// Wait for as many seconds.
    Sleep(u64),
    /// Stop the machine.
    Execute(RebootMode),
    /// Nothing is left to do.
    Done,
}

/// What to do next to stop the machine: the client is answered, and has a second to
/// hear it.
pub open spec fn power_next(mode: RebootMode, progress: PowerProgress) -> PowerAction {
    match progress {
        PowerProgress::Received => PowerAction::Answer,
        PowerProgress::Answered => PowerAction::Sleep(1),
        PowerProgress::Waited => PowerAction::Execute(mode),
        PowerProgress::Refused => PowerAction::Done,
    }
}

fn next(mode: RebootMode, progress: PowerProgress) -> (action: PowerAction)
    ensures
        action == power_next(mode, progress),
{
    match progress {
        PowerProgress::Received => PowerAction::Answer,
        PowerProgress::Answered => PowerAction::Sleep(1),
        PowerProgress::Waited => PowerAction::Execute(mode),
        PowerProgress::Refused => PowerAction::Done,
    }
}

/// What to do next to shut the machine down.
pub fn handle_shutdown(progress: PowerProgress) -> (action: PowerAction)
    ensures
        action == power_next(RebootMode::PowerOff, progress),
{
    next(RebootMode::PowerOff, progress)
}

/// What to do next to restart the machine.
pub fn handle_reboot(progress: PowerProgress) -> (action: PowerAction)
    ensures
        action == power_next(RebootMode::AutoBoot, progress),
{
    next(RebootMode::AutoBoot, progress)
}

} // verus!
