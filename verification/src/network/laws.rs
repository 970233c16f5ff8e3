//! What holds of the network of the machine: how its interface is set up, how addresses on the
//! PCI bus are read, written and counted, and how virtual functions are handed over.
use crate::network::pci::{
    self, format_mac, format_pci_address, nth_next_pci_address, parse_pci_address,
};
use crate::network::setup::{
    configure_network_devices, enable_ipv6_forwarding, Lease, Prefix, SetupAction, SetupProgress,
};
use crate::network::sriov::{
    self, all_functions_fit, bind_device, can_cut, configure_sriov, device_information_path,
    get_device_information, unbind_device, vfio_bind, vfio_new_id, virtual_functions, BindHow,
    SriovAction, SriovProgress, WriteOutcome,
};
use crate::text;
use crate::text_laws;
use vstd::prelude::*;

verus! {

/// The interface is set up in this order: forwarding is switched on, the interface is found and
/// brought up, and the gateway is listened for whatever its flags.
pub proof fn interface_comes_up_in_order(
    started: SetupAction,
    forwarding: SetupAction,
    index: u32,
    found: SetupAction,
    up: SetupAction,
)
    requires
        call_ensures(configure_network_devices, (SetupProgress::Started,), started),
        call_ensures(configure_network_devices, (SetupProgress::Forwarding(Ok(())),), forwarding),
        call_ensures(
            configure_network_devices,
            (SetupProgress::LinkFound(Ok(Some(index))),),
            found,
        ),
        call_ensures(configure_network_devices, (SetupProgress::LinkUp(Ok(())),), up),
    ensures
        started is EnableForwarding,
        forwarding matches SetupAction::FindLink { name } && name@ == "eth0"@,
        found matches SetupAction::SetLinkUp { index: i } && i == index,
        up matches SetupAction::AwaitAdvertisement { ignore_flags } && ignore_flags,
{
}

/// Without forwarding, an interface or a working one the set-up fails and says why; without a
/// gateway or a lease it ends well, with nothing delegated.
pub proof fn set_up_fails_without_an_interface(
    why: String,
    forwarding: SetupAction,
    unreadable: SetupAction,
    missing: SetupAction,
    down: SetupAction,
    alone: SetupAction,
    gateway: u128,
    unleased: SetupAction,
)
    requires
        call_ensures(configure_network_devices, (SetupProgress::Forwarding(Err(why)),), forwarding),
        call_ensures(configure_network_devices, (SetupProgress::LinkFound(Err(why)),), unreadable),
        call_ensures(configure_network_devices, (SetupProgress::LinkFound(Ok(None)),), missing),
        call_ensures(configure_network_devices, (SetupProgress::LinkUp(Err(why)),), down),
        call_ensures(configure_network_devices, (SetupProgress::Advertised(None),), alone),
        call_ensures(
            configure_network_devices,
            (SetupProgress::Leased { gateway, lease: Err(why) },),
            unleased,
        ),
    ensures
        forwarding matches SetupAction::Finish(Err(m)) && m@
            == "Failed to enable ipv6 forwarding: "@ + why@,
        unreadable matches SetupAction::Finish(Err(m)) && m@ == "eth0"@ + " not found: "@ + why@,
        missing matches SetupAction::Finish(Err(m)) && m@ == "Link not found"@,
        down matches SetupAction::Finish(Err(m)) && m@ == "eth0"@ + " can not be set up: "@ + why@,
        alone matches SetupAction::Finish(Ok(p)) && p is None,
        unleased matches SetupAction::Finish(Ok(p)) && p is None,
{
}

/// The gateway that was heard of is the one that is asked and set in the end, four seconds are
/// left before an address is asked for, the gateway is asked for from the address that was
/// leased, and what is not used of the delegated range is made unreachable with metric 1024.
pub proof fn gateway_and_lease_are_carried_through(
    gateway: u128,
    advertised: SetupAction,
    waited: SetupAction,
    lease: Lease,
    leased: SetupAction,
    prefix: Prefix,
    delegated: SetupAction,
    plain: SetupAction,
    kept: Option<Prefix>,
    routed: SetupAction,
    finished: SetupAction,
)
    requires
        call_ensures(
            configure_network_devices,
            (SetupProgress::Advertised(Some(gateway)),),
            advertised,
        ),
        call_ensures(configure_network_devices, (SetupProgress::Waited { gateway },), waited),
        call_ensures(
            configure_network_devices,
            (SetupProgress::Leased { gateway, lease: Ok(lease) },),
            leased,
        ),
        call_ensures(
            configure_network_devices,
            (SetupProgress::Solicited { gateway, prefix: Some(prefix) },),
            delegated,
        ),
        call_ensures(
            configure_network_devices,
            (SetupProgress::Solicited { gateway, prefix: None },),
            plain,
        ),
        call_ensures(
            configure_network_devices,
            (SetupProgress::RouteAdded { gateway, prefix: kept },),
            routed,
        ),
        call_ensures(
            configure_network_devices,
            (SetupProgress::GatewaySet { prefix: kept },),
            finished,
        ),
    ensures
        advertised matches SetupAction::Sleep { seconds, gateway: g } && seconds == 4 && g
            == gateway,
        waited matches SetupAction::RequestLease { gateway: g } && g == gateway,
        leased matches SetupAction::Solicit { gateway: g, address, prefix: p } && g == gateway
            && address == lease.address && p == lease.prefix,
        delegated matches SetupAction::AddUnreachableRoute { prefix: p, metric, gateway: g } && p
            == prefix && metric == 1024 && g == gateway,
        plain matches SetupAction::SetGateway { gateway: g, prefix: p } && g == gateway && p
            is None,
        routed matches SetupAction::SetGateway { gateway: g, prefix: p } && g == gateway && p
            == kept,
        finished matches SetupAction::Finish(Ok(p)) && p == kept,
{
}

/// Forwarding is switched on by the digit one in the kernel's file for it.
pub proof fn forwarding_is_switched_on(r: (&'static str, u8))
    requires
        call_ensures(enable_ipv6_forwarding, (), r),
    ensures
        r.0@ == "/proc/sys/net/ipv6/conf/all/forwarding"@,
        r.1 == 49,
{
}

/// A PCI address is read from its four parts, each in hexadecimal: the domain, the bus, the slot
/// and the function.
pub proof fn pci_address_is_read_part_by_part(
    d: Seq<char>,
    b: Seq<char>,
    s: Seq<char>,
    f: Seq<char>,
    address: &str,
    r: Result<(u16, u8, u8, u8), String>,
)
    requires
        text_laws::all_digits(d, 16) && d.len() > 0,
        text_laws::all_digits(b, 16) && b.len() > 0,
        text_laws::all_digits(s, 16) && s.len() > 0,
        text_laws::all_digits(f, 16) && f.len() > 0,
        address@ == d + seq![':'] + b + seq![':'] + s + seq!['.'] + f,
        call_ensures(parse_pci_address, (address,), r),
    ensures
        r is Ok <==> text_laws::place_value(d, 16) <= 0xffff && text_laws::place_value(b, 16)
            <= 0xff && text_laws::place_value(s, 16) <= 0xff && text_laws::place_value(f, 16)
            <= 0xff,
        r matches Ok(a) ==> a.0 == text_laws::place_value(d, 16) && a.1 == text_laws::place_value(
            b,
            16,
        ) && a.2 == text_laws::place_value(s, 16) && a.3 == text_laws::place_value(f, 16),
        r matches Err(m) ==> m@ == (if text_laws::place_value(d, 16) > 0xffff {
            "Invalid domain"@
        } else if text_laws::place_value(b, 16) > 0xff {
            "Invalid bus"@
        } else if text_laws::place_value(s, 16) > 0xff {
            "Invalid slot"@
        } else {
            "Invalid function"@
        }),
{
    lemma_digits_are_a_piece(d);
    lemma_digits_are_a_piece(b);
    lemma_digits_are_a_piece(s);
    lemma_digits_are_a_piece(f);
    let t3 = s + seq!['.'] + f;
    let t2 = b + seq![':'] + t3;
    assert(address@ =~= d + seq![':'] + t2);
    pci::lemma_pieces_cons(d, ':', t2);
    pci::lemma_pieces_cons(b, ':', t3);
    pci::lemma_pieces_cons(s, '.', f);
    pci::lemma_piece_len_is(f, f.len());
    assert(pci::pieces(f) == seq![f]);
    assert(pci::pieces(address@) =~= seq![d, b, s, f]);
    assert(text_laws::is_digit(d[0], 16) && text_laws::is_digit(b[0], 16) && text_laws::is_digit(
        s[0],
        16,
    ) && text_laws::is_digit(f[0], 16));
    text_laws::lemma_scan_value(d, 16, 0xffff);
    text_laws::lemma_scan_value(b, 16, 0xff);
    text_laws::lemma_scan_value(s, 16, 0xff);
    text_laws::lemma_scan_value(f, 16, 0xff);
}

proof fn lemma_digits_are_a_piece(s: Seq<char>)
    requires
        text_laws::all_digits(s, 16),
    ensures
        pci::is_piece(s),
{
    assert forall|k: int| 0 <= k < s.len() implies !pci::is_separator(#[trigger] s[k]) by {
        assert(text_laws::is_digit(s[k], 16));
    }
}

/// How often a colon, a dot or a space stands in a text.
pub open spec fn separators(s: Seq<char>) -> int
    decreases s.len(),
{
    if s.len() == 0 {
        0
    } else {
        separators(s.drop_last()) + (if s.last() == ':' || s.last() == '.' || s.last() == ' ' {
            1int
        } else {
            0
        })
    }
}

proof fn lemma_separators_cons(a: Seq<char>, b: Seq<char>)
    ensures
        separators(a + b) == separators(a) + separators(b),
    decreases b.len(),
{
    if b.len() == 0 {
        assert(a + b =~= a);
    } else {
        assert((a + b).drop_last() =~= a + b.drop_last());
        assert((a + b).last() == b.last());
        lemma_separators_cons(a, b.drop_last());
    }
}

proof fn lemma_separators_of_piece(s: Seq<char>)
    requires
        pci::is_piece(s),
    ensures
        separators(s) == 0,
    decreases s.len(),
{
    if s.len() > 0 {
        let t = s.drop_last();
        assert forall|k: int| 0 <= k < t.len() implies !pci::is_separator(#[trigger] t[k]) by {
            assert(t[k] == s[k]);
        }
        lemma_separators_of_piece(t);
        assert(!pci::is_separator(s[s.len() - 1]));
    }
}

proof fn lemma_piece(s: Seq<char>)
    ensures
        pci::piece_len(s) <= s.len(),
        pci::is_piece(s.take(pci::piece_len(s) as int)),
        pci::piece_len(s) < s.len() ==> pci::is_separator(s[pci::piece_len(s) as int]),
    decreases s.len(),
{
    if s.len() > 0 && !pci::is_separator(s[0]) {
        let t = s.drop_first();
        lemma_piece(t);
        let n = pci::piece_len(s) as int;
        assert forall|k: int| 0 <= k < s.take(n).len() implies !pci::is_separator(
            #[trigger] s.take(n)[k],
        ) by {
            if k > 0 {
                assert(t.take(n - 1)[k - 1] == s.take(n)[k]);
            }
        }
        if n < s.len() {
            assert(t[n - 1] == s[n]);
        }
    }
}

proof fn lemma_pieces_count(s: Seq<char>)
    ensures
        pci::pieces(s).len() == separators(s) + 1,
    decreases s.len(),
{
    lemma_piece(s);
    let n = pci::piece_len(s) as int;
    let front = s.take(n);
    lemma_separators_of_piece(front);
    if n >= s.len() {
        assert(front =~= s);
    } else {
        let c = seq![s[n]];
        let rest = s.skip(n + 1);
        assert(s =~= front + c + rest);
        lemma_separators_cons(front + c, rest);
        lemma_separators_cons(front, c);
        assert(c.drop_last() =~= Seq::<char>::empty());
        reveal_with_fuel(separators, 2);
        assert(separators(c) == 1);
        lemma_pieces_count(rest);
    }
}

/// Only a text of four parts is read as a PCI address.
pub proof fn pci_address_has_four_parts(address: &str, r: Result<(u16, u8, u8, u8), String>)
    requires
        call_ensures(parse_pci_address, (address,), r),
    ensures
        separators(address@) != 3 ==> (r matches Err(m) && m@ == "Invalid PCI address format"@),
{
    lemma_pieces_count(address@);
}

/// The function that comes a number of functions later is counted on by that number, with eight
/// functions to a slot, 32 slots to a bus and 256 buses to a domain.
pub proof fn functions_are_counted_on(
    a: (u16, u8, u8, u8),
    n: u32,
    r: (u16, u8, u8, u8),
)
    requires
        ((a.0 * 256 + a.1) * 32 + a.2) * 8 + a.3 + n <= u32::MAX,
        call_ensures(nth_next_pci_address, (a, n), r),
    ensures
        ((r.0 * 256 + r.1) * 32 + r.2) * 8 + r.3 == ((a.0 * 256 + a.1) * 32 + a.2) * 8 + a.3 + n,
        r.2 < 32,
        r.3 < 8,
{
}

proof fn lemma_zeros_count_nothing(k: nat, s: Seq<char>, radix: int)
    requires
        radix == 10 || radix == 16,
    ensures
        text_laws::place_value(text::repeated('0', k) + s, radix) == text_laws::place_value(
            s,
            radix,
        ),
    decreases k + s.len(),
{
    let all = text::repeated('0', k) + s;
    if s.len() > 0 {
        assert(all.drop_last() =~= text::repeated('0', k) + s.drop_last());
        assert(all.last() == s.last());
        lemma_zeros_count_nothing(k, s.drop_last(), radix);
    } else if k > 0 {
        assert(all =~= text::repeated('0', k));
        let fewer = text::repeated('0', (k - 1) as nat);
        assert(all.drop_last() =~= fewer + s);
        assert(all.last() == '0');
        lemma_zeros_count_nothing((k - 1) as nat, s, radix);
        assert(text_laws::place_value(s, radix) == 0);
    } else {
        assert(all =~= s);
    }
}

/// A number in hexadecimal, filled up with zeros, has the width that was asked for where it fits,
/// and its digits stand for it.
proof fn lemma_hex(n: nat, width: nat)
    requires
        width == 2 && n < 256 || width == 4 && n < 65536,
    ensures
        pci::hex_padded(n, width).len() == width,
        text_laws::place_value(pci::hex_padded(n, width), 16) == n,
        text_laws::all_digits(pci::hex_padded(n, width), 16),
{
    text_laws::lemma_numeral(n, 16);
    let s = text::numeral(n, 16);
    lemma_hex_len(n);
    if s.len() < width {
        let k = (width - s.len()) as nat;
        lemma_zeros_count_nothing(k, s, 16);
        let all = text::repeated('0', k) + s;
        assert forall|i: int| 0 <= i < all.len() implies text_laws::is_digit(
            #[trigger] all[i],
            16,
        ) by {
            if i >= k {
                assert(all[i] == s[i - k]);
            }
        }
    }
}

proof fn lemma_hex_len(n: nat)
    ensures
        n < 16 ==> text::numeral(n, 16).len() == 1,
        n < 256 ==> text::numeral(n, 16).len() <= 2,
        n < 4096 ==> text::numeral(n, 16).len() <= 3,
        n < 65536 ==> text::numeral(n, 16).len() <= 4,
    decreases n,
{
    if n >= 16 {
        let q = n / 16;
        lemma_hex_len(q);
        assert(n < 256 ==> q < 16);
        assert(n < 4096 ==> q < 256);
        assert(n < 65536 ==> q < 4096);
        assert(text::numeral(n, 16) == text::numeral(q, 16).push(text::digit_char(n % 16)));
    }
}

/// A PCI address is written as four hexadecimal digits for the domain, two for the bus and two for
/// the slot, with colons between them, and behind a dot the function in decimal.
pub proof fn pci_address_is_written_part_by_part(a: (u16, u8, u8, u8), r: String)
    requires
        call_ensures(format_pci_address, (a,), r),
    ensures
        r@.len() >= 12,
        text_laws::place_value(r@.take(4), 16) == a.0,
        r@[4] == ':',
        text_laws::place_value(r@.subrange(5, 7), 16) == a.1,
        r@[7] == ':',
        text_laws::place_value(r@.subrange(8, 10), 16) == a.2,
        r@[10] == '.',
        text_laws::place_value(r@.skip(11), 10) == a.3,
        text_laws::all_digits(r@.skip(11), 10),
        text_laws::all_digits(r@.take(4), 16),
{
    reveal_strlit(":");
    reveal_strlit(".");
    lemma_hex(a.0 as nat, 4);
    lemma_hex(a.1 as nat, 2);
    lemma_hex(a.2 as nat, 2);
    text_laws::lemma_numeral(a.3 as nat, 10);
    let d = pci::hex_padded(a.0 as nat, 4);
    let b = pci::hex_padded(a.1 as nat, 2);
    let s = pci::hex_padded(a.2 as nat, 2);
    let f = text::dec(a.3 as nat);
    assert(r@ =~= d + ":"@ + b + ":"@ + s + "."@ + f);
    assert(r@.take(4) =~= d);
    assert(r@.subrange(5, 7) =~= b);
    assert(r@.subrange(8, 10) =~= s);
    assert(r@.skip(11) =~= f);
}

/// A hardware address is written as two hexadecimal digits for each byte, in order, with colons
/// between them.
pub proof fn hardware_address_is_written_byte_by_byte(
    bytes: Vec<u8>,
    byte: u8,
    more: Vec<u8>,
    r: String,
    longer: String,
)
    requires
        more@ == bytes@.push(byte),
        call_ensures(format_mac, (bytes,), r),
        call_ensures(format_mac, (more,), longer),
    ensures
        bytes@.len() == 0 ==> r@.len() == 0 && longer@.len() == 2,
        bytes@.len() > 0 ==> longer@.len() == r@.len() + 3 && longer@.take(r@.len() as int) == r@
            && longer@[r@.len() as int] == ':',
        longer@.len() >= 2,
        text_laws::place_value(longer@.skip(longer@.len() - 2), 16) == byte,
{
    reveal_strlit(":");
    lemma_hex(byte as nat, 2);
    assert(more@.drop_last() =~= bytes@);
    let h = pci::hex_padded(byte as nat, 2);
    if bytes@.len() == 0 {
        assert(longer@ == h);
    } else {
        assert(longer@ == pci::mac_text(bytes@) + ":"@ + h);
        assert(longer@.take(r@.len() as int) =~= r@);
    }
    assert(longer@.skip(longer@.len() - 2) =~= h);
}

/// The number of virtual functions that was asked for is written, in decimal and with a line end,
/// to the file of the interface's card, whose device is then looked up.
pub proof fn number_of_functions_is_written(
    num_vfs: u32,
    started: SriovAction,
    written: SriovAction,
    why: String,
    unopened: SriovAction,
    unwritten: SriovAction,
)
    requires
        call_ensures(configure_sriov, (num_vfs, SriovProgress::Started), started),
        call_ensures(
            configure_sriov,
            (num_vfs, SriovProgress::NumberWritten(WriteOutcome::Written)),
            written,
        ),
        call_ensures(
            configure_sriov,
            (num_vfs, SriovProgress::NumberWritten(WriteOutcome::NotOpened(why))),
            unopened,
        ),
        call_ensures(
            configure_sriov,
            (num_vfs, SriovProgress::NumberWritten(WriteOutcome::NotWritten(why))),
            unwritten,
        ),
    ensures
        started matches SriovAction::WriteNumber { path, value } && path@
            == "/sys/class/net/eth0/device/sriov_numvfs"@ && value@.len() > 1 && value@.last()
            == '\n' && text_laws::all_digits(value@.drop_last(), 10) && text_laws::place_value(
            value@.drop_last(),
            10,
        ) == num_vfs,
        written matches SriovAction::ReadLink { path } && path@ == "/sys/class/net/eth0/device"@,
        unopened matches SriovAction::Finish(Err(m)) && m@ == why@,
        unwritten matches SriovAction::Finish(Err(m)) && m@ == "Failed to write to the file: "@
            + why@,
{
    reveal_strlit("/sys/class/net/");
    reveal_strlit("eth0");
    reveal_strlit("/device");
    reveal_strlit("/sriov_numvfs");
    reveal_strlit("/sys/class/net/eth0/device");
    reveal_strlit("/sys/class/net/eth0/device/sriov_numvfs");
    reveal_strlit("\n");
    assert("/sys/class/net/"@ + "eth0"@ + "/device"@ =~= "/sys/class/net/eth0/device"@);
    assert("/sys/class/net/eth0/device"@ + "/sriov_numvfs"@
        =~= "/sys/class/net/eth0/device/sriov_numvfs"@);
    text_laws::lemma_numeral(num_vfs as nat, 10);
    match started {
        SriovAction::WriteNumber { path: _, value } => {
            assert(value@.drop_last() =~= text::dec(num_vfs as nat));
        },
        _ => {},
    }
}

/// The virtual functions follow the card's own function from the offset on, one after another:
/// the one of number `i` is the address whose number is that of the card, the offset and `i`.
pub proof fn functions_follow_the_card(
    num_vfs: u32,
    pci_address: String,
    name: &str,
    base: (u16, u8, u8, u8),
    before: Seq<char>,
    digits: Seq<char>,
    after: Seq<char>,
    content: String,
    action: SriovAction,
    i: int,
    a: (u16, u8, u8, u8),
)
    requires
        name@ == pci_address@,
        call_ensures(parse_pci_address, (name,), Ok(base)),
        text_laws::blank(before),
        text_laws::blank(after),
        text_laws::all_digits(digits, 10) && digits.len() > 0,
        text_laws::place_value(digits, 10) <= u32::MAX,
        content@ == before + digits + after,
        0 <= i < num_vfs,
        a.2 < 32 && a.3 < 8,
        ((a.0 * 256 + a.1) * 32 + a.2) * 8 + a.3 == ((base.0 * 256 + base.1) * 32 + base.2) * 8
            + base.3 + text_laws::place_value(digits, 10) + i,
        call_ensures(
            configure_sriov,
            (num_vfs, SriovProgress::OffsetRead { pci_address, content: Ok(content) }),
            action,
        ),
    ensures
        action matches SriovAction::Unbind { functions, index, attempt } && index == 0 && attempt
            == 1 && functions@.len() == num_vfs && functions@[i]@ == pci::pci_text(a),
{
    assert(text_laws::is_digit(digits[0], 10));
    assert(text_laws::is_digit(digits[digits.len() - 1], 10));
    text_laws::lemma_trimmed_is(before, digits, after);
    text_laws::lemma_scan_value(digits, 10, u32::MAX as nat);
    let offset = text_laws::place_value(digits, 10) as nat;
    assert(sriov::offset_of(content@) == Ok::<nat, text::NumberError>(offset));
    let (found, functions) = choose|
        found: (u16, u8, u8, u8),
        functions: Seq<String>,
    | #[trigger] sriov::functions_are(functions, found, offset, num_vfs) && pci::pci_read(
            pci_address@,
            Ok(found),
        ) && sriov::tries(functions, 0, 1, action);
    assert(found == base);
    let b = choose|b: (u16, u8, u8, u8)|
        functions[i]@ == #[trigger] pci::pci_text(b) && pci::is_normal(b) && pci::pci_index(b)
            == pci::pci_index(base) + offset + i;
    pci::normal_addresses_are_determined(a, b);
}

/// Each virtual function that is listed is the one of its number.
pub proof fn listed_functions_are_in_order(
    base: (u16, u8, u8, u8),
    offset: u32,
    num_vfs: u32,
    functions: Vec<String>,
    i: int,
    a: (u16, u8, u8, u8),
)
    requires
        call_ensures(virtual_functions, (base, offset, num_vfs), functions),
        0 <= i < num_vfs,
        a.2 < 32 && a.3 < 8,
        ((a.0 * 256 + a.1) * 32 + a.2) * 8 + a.3 == ((base.0 * 256 + base.1) * 32 + base.2) * 8
            + base.3 + offset + i,
    ensures
        functions@.len() == num_vfs,
        functions@[i]@ == pci::pci_text(a),
{
    let b = choose|b: (u16, u8, u8, u8)|
        functions@[i]@ == #[trigger] pci::pci_text(b) && pci::is_normal(b) && pci::pci_index(b)
            == pci::pci_index(base) + offset + i;
    assert(functions@[i]@ == pci::pci_text(b));
    pci::normal_addresses_are_determined(a, b);
}

/// The card's address is the name of its device, and the offset is read from its file.
pub proof fn offset_is_that_of_the_card(
    num_vfs: u32,
    dir: Seq<char>,
    name: Seq<char>,
    device: String,
    path: &str,
    found: Option<String>,
    action: SriovAction,
)
    requires
        path@ == device@,
        call_ensures(text::path_file_name, (path,), found),
        found matches Some(n) && n@ == name,
        call_ensures(configure_sriov, (num_vfs, SriovProgress::LinkRead(Ok(device))), action),
    ensures
        action matches SriovAction::ReadOffset { path: p, pci_address } && pci_address@ == name
            && p@ == "/sys/bus/pci/devices/"@ + name + "/sriov_offset"@,
{
    reveal_strlit("/");
    reveal_strlit("sriov_offset");
    reveal_strlit("/sriov_offset");
    assert("/"@ + "sriov_offset"@ =~= "/sriov_offset"@);
    assert("/sys/bus/pci/devices/"@ + name + "/"@ + "sriov_offset"@ =~= "/sys/bus/pci/devices/"@
        + name + "/sriov_offset"@);
}

/// A card whose device has no name, or cannot be looked at, ends the set-up.
pub proof fn card_without_an_address_ends_the_set_up(
    num_vfs: u32,
    device: String,
    path: &str,
    unnamed: SriovAction,
    why: String,
    unread: SriovAction,
)
    requires
        path@ == device@,
        call_ensures(text::path_file_name, (path,), None),
        call_ensures(configure_sriov, (num_vfs, SriovProgress::LinkRead(Ok(device))), unnamed),
        call_ensures(configure_sriov, (num_vfs, SriovProgress::LinkRead(Err(why))), unread),
    ensures
        unnamed matches SriovAction::Finish(Err(m)) && m@ == "No PCI address found"@,
        unread matches SriovAction::Finish(Err(m)) && m@ == why@,
{
}

/// A virtual function that was taken from its driver is handed over, and only the first one makes
/// the kind of the card known; one that was not is tried again after a pause, four times in all,
/// and then left alone. After the last one the set-up is over.
pub proof fn functions_are_handed_over_in_turn(
    num_vfs: u32,
    functions: Vec<String>,
    index: usize,
    attempt: u32,
    taken: SriovAction,
    kept: SriovAction,
    slept: SriovAction,
    bound: SriovAction,
)
    requires
        index < functions@.len(),
        call_ensures(
            configure_sriov,
            (num_vfs, SriovProgress::Unbound { functions, index, attempt, done: true }),
            taken,
        ),
        call_ensures(
            configure_sriov,
            (num_vfs, SriovProgress::Unbound { functions, index, attempt, done: false }),
            kept,
        ),
        call_ensures(
            configure_sriov,
            (num_vfs, SriovProgress::Slept { functions, index, attempt }),
            slept,
        ),
        call_ensures(configure_sriov, (num_vfs, SriovProgress::Bound { functions, index }), bound),
    ensures
        taken matches SriovAction::Bind { functions: f, index: i, how } && f@ == functions@ && i
            == index && (how is NewId <==> index == 0),
        kept matches SriovAction::Sleep { functions: f, index: i, attempt: a } && f@ == functions@
            && i == index && a == attempt,
        attempt <= 3 ==> (slept matches SriovAction::Unbind { functions: f, index: i, attempt: a }
            && f@ == functions@ && i == index && a == attempt + 1),
        attempt >= 4 && index + 1 < functions@.len() ==> (slept matches SriovAction::Unbind {
            functions: f,
            index: i,
            attempt: a,
        } && f@ == functions@ && i == index + 1 && a == 1),
        attempt >= 4 && index + 1 == functions@.len() ==> (slept matches SriovAction::Finish(
            Ok(_),
        )),
        index + 1 < functions@.len() ==> (bound matches SriovAction::Unbind {
            functions: f,
            index: i,
            attempt: a,
        } && f@ == functions@ && i == index + 1 && a == 1),
        index + 1 == functions@.len() ==> (bound matches SriovAction::Finish(Ok(_))),
{
}

/// A device is taken from its driver, described and handed over under its own address; the kind
/// of a card is told by the numbers of its vendor and its device, without their prefixes.
pub proof fn devices_are_named_by_their_address(
    address: &str,
    field: &str,
    unbind: String,
    information: String,
    bind: String,
    vendor: &str,
    device: &str,
    id: String,
    index: usize,
    how: BindHow,
)
    requires
        call_ensures(unbind_device, (address,), unbind),
        call_ensures(device_information_path, (address, field), information),
        call_ensures(vfio_bind, (address,), bind),
        vendor@.len() >= 2 && vendor@[0] == '0' && vendor@[1] == 'x',
        device@.len() >= 2 && device@[0] == '0' && device@[1] == 'x',
        call_ensures(vfio_new_id, (vendor, device), id),
        call_ensures(bind_device, (index,), how),
    ensures
        unbind@ == "/sys/bus/pci/devices/"@ + address@ + "/driver/unbind"@,
        information@ == "/sys/bus/pci/devices/"@ + address@ + "/"@ + field@,
        bind@ == address@,
        id@ == vendor@.skip(2) + " "@ + device@.skip(2),
        how is NewId <==> index == 0,
{
}

/// What is told of a device is what its file holds, without the white space around it.
pub proof fn device_information_is_trimmed(
    before: Seq<char>,
    value: Seq<char>,
    after: Seq<char>,
    content: &str,
    r: String,
)
    requires
        text_laws::blank(before),
        text_laws::blank(after),
        value.len() > 0 ==> !text::is_space(value[0]) && !text::is_space(value.last()),
        content@ == before + value + after,
        call_ensures(get_device_information, (content,), r),
    ensures
        r@ == value,
{
    text_laws::lemma_trimmed_is(before, value, after);
}

/// A card's virtual functions fit exactly where the number of the last one does; a number can be
/// cut off its prefix of two plain characters.
pub proof fn functions_fit_where_the_last_one_does(
    address: &str,
    base: (u16, u8, u8, u8),
    before: Seq<char>,
    digits: Seq<char>,
    after: Seq<char>,
    content: &str,
    num_vfs: u32,
    r: bool,
    number: &str,
    cut: bool,
)
    requires
        call_ensures(parse_pci_address, (address,), Ok(base)),
        text_laws::blank(before),
        text_laws::blank(after),
        text_laws::all_digits(digits, 10) && digits.len() > 0,
        text_laws::place_value(digits, 10) <= u32::MAX,
        content@ == before + digits + after,
        call_ensures(all_functions_fit, (address, content, num_vfs), r),
        number@.len() >= 2 && number@[0] <= '\u{7f}' && number@[1] <= '\u{7f}',
        call_ensures(can_cut, (number,), cut),
    ensures
        r <==> num_vfs == 0 || ((base.0 * 256 + base.1) * 32 + base.2) * 8 + base.3
            + text_laws::place_value(digits, 10) + num_vfs - 1 <= u32::MAX,
        cut,
{
    assert(text_laws::is_digit(digits[0], 10));
    assert(text_laws::is_digit(digits[digits.len() - 1], 10));
    text_laws::lemma_trimmed_is(before, digits, after);
    text_laws::lemma_scan_value(digits, 10, u32::MAX as nat);
    let offset = text_laws::place_value(digits, 10) as nat;
    assert(sriov::offset_of(content@) == Ok::<nat, text::NumberError>(offset));
    assert(pci::pci_read(address@, Ok(base)));
    if num_vfs > 0 {
        if sriov::functions_fit(address@, offset, num_vfs) {
            assert(pci::pci_index(base) + offset + (num_vfs - 1) <= u32::MAX);
        } else {
            let other = choose|other: (u16, u8, u8, u8)|
                pci::pci_read(address@, Ok(other)) && num_vfs > 0 && !(
                #[trigger] pci::pci_index(other) + offset + (num_vfs - 1) <= u32::MAX);
            assert(other == base);
        }
    }
}

} // verus!
