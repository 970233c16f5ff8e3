//! The network of the machine: PCI addresses, virtual functions, and the set-up of
//! the interface.
use vstd::prelude::*;

pub mod laws;
pub mod pci;
pub mod setup;
pub mod sriov;

verus! {

/// The interface that the machine is reached by.
pub const INTERFACE_NAME: &'static str = "eth0";

} // verus!
