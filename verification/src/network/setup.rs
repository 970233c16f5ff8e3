//! The set-up of the interface that the machine is reached by.
use crate::network::INTERFACE_NAME;
use crate::text;
use vstd::prelude::*;

verus! {

/// The file that switches the forwarding of packets.
pub const FORWARDING_PATH: &'static str = "/proc/sys/net/ipv6/conf/all/forwarding";

/// How long to wait before asking for an address, in seconds.
pub const DHCP_DELAY_SECS: u64 = 4;

/// The metric of the route for what was delegated to the machine.
pub const UNREACHABLE_METRIC: u32 = 1024;

/// A range of addresses: the first one, and how many bits all of them share.
#[derive(Clone, Copy, Debug, PartialEq, Eq, Structural)]
pub struct Prefix {
    pub address: u128,
    pub length: u8,
}

/// What the machine was given: its address, and the range that was delegated to it.
#[derive(Clone, Copy, Debug, PartialEq, Eq, Structural)]
pub struct Lease {
    pub address: u128,
    pub prefix: Option<Prefix>,
}

/// How far the set-up has come, and what the last step gave.
pub enum SetupProgress {
    Started,
    /// Whether forwarding could be switched on.
    Forwarding(Result<(), String>),
    /// The number of the interface, if there is one.
    LinkFound(Result<Option<u32>, String>),
    /// Whether the interface could be brought up.
    LinkUp(Result<(), String>),
    /// The gateway, where an address is to be asked for.
    Advertised(Option<u128>),
    /// The pause is over.
    Waited { gateway: u128 },
    /// What the machine was given.
    Leased { gateway: u128, lease: Result<Lease, String> },
    /// The gateway was asked for.
    Solicited { gateway: u128, prefix: Option<Prefix> },
    /// The route for the delegated range was added, or could not be.
    RouteAdded { gateway: u128, prefix: Option<Prefix> },
    /// The gateway was set, or could not be.
    GatewaySet { prefix: Option<Prefix> },
}

/// What to do next for the set-up.
pub enum SetupAction {
    /// Switch forwarding on.
    EnableForwarding,
    /// Find the interface.
    FindLink { name: String },
    /// Bring the interface up.
    SetLinkUp { index: u32 },
    /// Listen for the gateway, whatever flags it sends.
    AwaitAdvertisement { ignore_flags: bool },
    /// Wait for as many seconds.
    Sleep { seconds: u64, gateway: u128 },
    /// Ask for an address.
    RequestLease { gateway: u128 },
    /// Ask for the gateway from the new address.
    Solicit { gateway: u128, address: u128, prefix: Option<Prefix> },
    /// Make what is not used of the delegated range unreachable.
    AddUnreachableRoute { prefix: Prefix, metric: u32, gateway: u128 },
    /// Set the gateway.
    SetGateway { gateway: u128, prefix: Option<Prefix> },
    /// The set-up is over, with the range that was delegated.
    Finish(Result<Option<Prefix>, String>),
}

/// Whether the set-up fails with this message.
pub open spec fn fails(action: SetupAction, message: Seq<char>) -> bool {
    action matches SetupAction::Finish(Err(m)) && m@ == message
}

/// What to do next for the set-up.
pub open spec fn setup_next(progress: SetupProgress, action: SetupAction) -> bool {
    match progress {
        SetupProgress::Started => action == SetupAction::EnableForwarding,
        SetupProgress::Forwarding(Err(e)) => fails(
            action,
            "Failed to enable ipv6 forwarding: "@ + e@,
        ),
        SetupProgress::Forwarding(Ok(_)) => action matches SetupAction::FindLink { name } && name@
            == INTERFACE_NAME@,
        SetupProgress::LinkFound(Err(e)) => fails(
            action,
            INTERFACE_NAME@ + " not found: "@ + e@,
        ),
        SetupProgress::LinkFound(Ok(None)) => fails(action, "Link not found"@),
        SetupProgress::LinkFound(Ok(Some(index))) => action == (SetupAction::SetLinkUp { index }),
        SetupProgress::LinkUp(Err(e)) => fails(
            action,
            INTERFACE_NAME@ + " can not be set up: "@ + e@,
        ),
        SetupProgress::LinkUp(Ok(_)) => action == (SetupAction::AwaitAdvertisement {
            ignore_flags: true,
        }),
        SetupProgress::Advertised(None) => action == SetupAction::Finish(Ok(None)),
        SetupProgress::Advertised(Some(gateway)) => action == (SetupAction::Sleep {
            seconds: DHCP_DELAY_SECS,
            gateway,
        }),
        SetupProgress::Waited { gateway } => action == (SetupAction::RequestLease { gateway }),
        SetupProgress::Leased { gateway, lease } => match lease {
            Err(_) => action == SetupAction::Finish(Ok(None)),
            Ok(lease) => action == (SetupAction::Solicit {
                gateway,
                address: lease.address,
                prefix: lease.prefix,
            }),
        },
        SetupProgress::Solicited { gateway, prefix } => match prefix {
            Some(p) => action == (SetupAction::AddUnreachableRoute {
                prefix: p,
                metric: UNREACHABLE_METRIC,
                gateway,
            }),
            None => action == (SetupAction::SetGateway { gateway, prefix: None }),
        },
        SetupProgress::RouteAdded { gateway, prefix } => action == (SetupAction::SetGateway {
            gateway,
            prefix,
        }),
        SetupProgress::GatewaySet { prefix } => action == SetupAction::Finish(Ok(prefix)),
    }
}

/// What to do next for the set-up: the interface is brought up, and where there is a
/// gateway an address is asked for. The range that was delegated is given back,
/// whatever comes of the routes.
pub fn configure_network_devices(progress: SetupProgress) -> (action: SetupAction)
    ensures
        setup_next(progress, action),
{
    match progress {
        SetupProgress::Started => SetupAction::EnableForwarding,
        SetupProgress::Forwarding(enabled) => match enabled {
            Err(e) => SetupAction::Finish(
                Err(text::cat2("Failed to enable ipv6 forwarding: ", e.as_str())),
            ),
            Ok(_) => SetupAction::FindLink { name: INTERFACE_NAME.to_owned() },
        },
        SetupProgress::LinkFound(found) => match found {
            Err(e) => SetupAction::Finish(
                Err(text::cat3(INTERFACE_NAME, " not found: ", e.as_str())),
            ),
            Ok(None) => SetupAction::Finish(Err("Link not found".to_owned())),
            Ok(Some(index)) => SetupAction::SetLinkUp { index },
        },
        SetupProgress::LinkUp(up) => match up {
            Err(e) => SetupAction::Finish(
                Err(text::cat3(INTERFACE_NAME, " can not be set up: ", e.as_str())),
            ),
            Ok(_) => SetupAction::AwaitAdvertisement { ignore_flags: true },
        },
        SetupProgress::Advertised(gateway) => match gateway {
            None => SetupAction::Finish(Ok(None)),
            Some(gateway) => SetupAction::Sleep { seconds: DHCP_DELAY_SECS, gateway },
        },
        SetupProgress::Waited { gateway } => SetupAction::RequestLease { gateway },
        SetupProgress::Leased { gateway, lease } => match lease {
            Err(_) => SetupAction::Finish(Ok(None)),
            Ok(lease) => SetupAction::Solicit {
                gateway,
                address: lease.address,
                prefix: lease.prefix,
            },
        },
        SetupProgress::Solicited { gateway, prefix } => match prefix {
            Some(p) => SetupAction::AddUnreachableRoute {
                prefix: p,
                metric: UNREACHABLE_METRIC,
                gateway,
            },
            None => SetupAction::SetGateway { gateway, prefix: None },
        },
        SetupProgress::RouteAdded { gateway, prefix } => SetupAction::SetGateway {
            gateway,
            prefix,
        },
        SetupProgress::GatewaySet { prefix } => SetupAction::Finish(Ok(prefix)),
    }
}

/// What is written to switch forwarding on, and where.
pub fn enable_ipv6_forwarding() -> (r: (&'static str, u8))
    ensures
        r.0@ == FORWARDING_PATH@,
        r.1 as char == '1',
{
    (FORWARDING_PATH, 49u8)
}

/// The range that was delegated is the one that the set-up gives back: it is carried
/// from the lease through every later step.
pub proof fn delegated_prefix_is_given_back(
    gateway: u128,
    lease: Lease,
    leased: SetupAction,
    solicited: SetupAction,
    routed: SetupAction,
    finished: SetupAction,
)
    requires
        setup_next(SetupProgress::Leased { gateway, lease: Ok(lease) }, leased),
        leased matches SetupAction::Solicit { gateway: g, address: _, prefix } && setup_next(
            SetupProgress::Solicited { gateway: g, prefix },
            solicited,
        ),
        solicited matches SetupAction::AddUnreachableRoute { prefix, metric: _, gateway: g }
            ==> setup_next(SetupProgress::RouteAdded { gateway: g, prefix: Some(prefix) }, routed),
        solicited is SetGateway ==> routed == solicited,
        routed matches SetupAction::SetGateway { gateway: _, prefix } && setup_next(
            SetupProgress::GatewaySet { prefix },
            finished,
        ),
    ensures
        finished == SetupAction::Finish(Ok(lease.prefix)),
        solicited is AddUnreachableRoute <==> lease.prefix is Some,
        routed matches SetupAction::SetGateway { gateway: g, prefix: _ } && g == gateway,
{
}

} // verus!
