//! The command line client: its commands, the requests that they become, and how
//! the answers are shown.
use crate::text;
use vstd::prelude::*;

pub mod container;
pub mod host;
pub mod image;
pub mod kernel_stats;
pub mod laws;

verus! {

/// Where the services listen, unless another address is given.
pub const DEFAULT_ADDRESS: &'static str = "http://[::1]:1337";

/// Where the image service listens, unless another socket is given.
pub const DEFAULT_IMAGE_SOCKET: &'static str = "/tmp/image_service.sock";

/// The line under the heads of a table.
pub open spec fn rule(first: nat, second: nat, third: nat) -> Seq<char> {
    text::repeated('-', first) + " "@ + text::repeated('-', second) + " "@ + text::repeated(
        '-',
        third,
    )
}

/// Writes the line under the heads of a table.
pub fn write_rule(first: usize, second: usize, third: usize) -> (r: String)
    ensures
        r@ == rule(first as nat, second as nat, third as nat),
{
    text::cat5(
        text::repeat('-', first).as_str(),
        " ",
        text::repeat('-', second).as_str(),
        " ",
        text::repeat('-', third).as_str(),
    )
}

} // verus!
