//! The host service: what it tells of the machine, and how it upgrades, restarts
//! and keeps the time of the machine.
use vstd::prelude::*;

pub mod dispatcher;
pub mod error;
pub mod info;
pub mod info_laws;
pub mod kernel_stats;
pub mod laws;
pub mod message_laws;
pub mod ops;
pub mod power;
pub mod time;
pub mod upload;

verus! {

/// Tells the main process to restart with the binary at a path.
#[derive(Debug)]
pub struct RestartSignal(pub String);

} // verus!
