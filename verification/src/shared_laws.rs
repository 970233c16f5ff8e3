//! What holds of the small parts that the services share: identifiers, checksums, numbers,
//! answers of remote calls, the start of the server and what is known of the machine.
use crate::digest::{self, checksum};
use crate::hostinfo::{
    self, check_info, get_interfaces, get_mac_address, get_pci_address, is_running_on_vm, HostInfo,
    Interface, InterfaceRead, SystemInfo,
};
use crate::ids::{fresh_id, id_of, id_text};
use crate::numbers::{truncate_i64, truncate_u32, truncate_u64};
use crate::rpc::{dispatch_and_wait, dispatch_stream, Code, Delivery, RpcStatus};
use crate::server::{run_server, start, ServerPlan, Start};
use crate::table::TextMap;
use crate::text;
use crate::text_laws;
use vstd::prelude::*;

verus! {

/// The text of an identifier is read back as the identifier; it has 36 characters, with hyphens
/// after the first eight, four, four and four digits. No fresh identifier is 0.
pub proof fn identifiers_are_read_back(
    id: u128,
    s: String,
    view: &str,
    r: Result<u128, String>,
    fresh: u128,
)
    requires
        call_ensures(id_text, (id,), s),
        view@ == s@,
        call_ensures(id_of, (view,), r),
        call_ensures(fresh_id, (), fresh),
    ensures
        r == Ok::<u128, String>(id),
        s@.len() == 36,
        s@[8] == '-' && s@[13] == '-' && s@[18] == '-' && s@[23] == '-',
        fresh != 0,
{
}

/// A checksum is written as 64 hexadecimal digits, two for each byte, the higher half first.
pub proof fn checksums_are_written_in_hexadecimal(data: &Vec<u8>, r: String, i: int)
    requires
        call_ensures(checksum, (data,), r),
        0 <= i < 32,
    ensures
        r@.len() == 64,
        text_laws::is_digit(r@[2 * i], 16),
        text_laws::is_digit(r@[2 * i + 1], 16),
        text_laws::counts(r@[2 * i]) * 16 + text_laws::counts(r@[2 * i + 1]) == digest::sha256(
            data@,
        )[i],
{
    let d = digest::sha256(data@);
    let b = d[i];
    assert((2 * i) / 2 == i && (2 * i) % 2 == 0);
    assert((2 * i + 1) / 2 == i && (2 * i + 1) % 2 == 1);
    assert(r@[2 * i] == text::digit_char((b / 16) as nat));
    assert(r@[2 * i + 1] == text::digit_char((b % 16) as nat));
    assert(b / 16 < 16 && b % 16 < 16);
}

/// A number that keeps its low bits differs from the number by a multiple of the first one that
/// does not fit; where the number fits it stays.
pub proof fn low_bits_are_kept(
    a: u32,
    small: i32,
    b: i64,
    low: i32,
    c: u64,
    signed: i64,
)
    requires
        call_ensures(truncate_u32, (a,), small),
        call_ensures(truncate_i64, (b,), low),
        call_ensures(truncate_u64, (c,), signed),
    ensures
        (a - small) % 0x1_0000_0000 == 0,
        a <= i32::MAX ==> small == a,
        (b - low) % 0x1_0000_0000 == 0,
        i32::MIN <= b <= i32::MAX ==> low == b,
        (c - signed) % 0x1_0000_0000_0000_0000 == 0,
        c <= i64::MAX ==> signed == c,
{
}

/// A status has the code and the message that it was made of.
pub proof fn status_says_what_it_was_made_of(code: Code, message: &str, s: RpcStatus)
    requires
        call_ensures(RpcStatus::new, (code, message), s),
    ensures
        s.code == code,
        s.message@ == message@,
{
}

/// A remote call is answered what the dispatcher answered; without an answer it fails as the
/// service's own fault, and says why.
pub proof fn calls_are_answered_by_the_dispatcher(
    answer: Result<u64, RpcStatus>,
    answered: Result<u64, RpcStatus>,
    dropped: Result<u64, RpcStatus>,
    why: String,
    unsent: Result<u64, RpcStatus>,
    opened: Result<(), RpcStatus>,
    closed: Result<(), RpcStatus>,
)
    requires
        call_ensures(dispatch_and_wait::<u64>, (Delivery::Answered(answer),), answered),
        call_ensures(dispatch_and_wait::<u64>, (Delivery::Dropped,), dropped),
        call_ensures(dispatch_and_wait::<u64>, (Delivery::NotSent(why),), unsent),
        call_ensures(dispatch_stream, (Ok(()),), opened),
        call_ensures(dispatch_stream, (Err(why),), closed),
    ensures
        answered == answer,
        dropped matches Err(s) && s.code == Code::Internal && s.message@
            == "Dispatcher task dropped response channel."@,
        unsent matches Err(s) && s.code == Code::Internal && s.message@
            == "Failed to send command to dispatcher: "@ + why@,
        opened is Ok,
        closed matches Err(s) && s.code == Code::Internal && s.message@
            == "Failed to send command to dispatcher: "@ + why@,
{
}

/// The first process leaves the file system that the kernel starts from, and no other process
/// moves; the machine is prepared by the first process, once, and not again after an upgrade.
pub proof fn first_process_prepares_the_machine(
    process_id: u32,
    fstype: String,
    moved: Start,
    unknown: Start,
    restarted: bool,
    is_root: bool,
    plan: ServerPlan,
)
    requires
        call_ensures(start, (process_id, Some(fstype)), moved),
        call_ensures(start, (process_id, None), unknown),
        call_ensures(run_server, (restarted, is_root, process_id), plan),
    ensures
        moved is MoveRoot <==> process_id == 1 && fstype@ == "rootfs"@,
        unknown is Serve,
        plan.warn_not_root <==> !is_root,
        plan.initialize <==> process_id == 1 && !restarted,
        plan.tell_skipped <==> restarted,
{
}

/// What is known of the machine is what the system told, each value in its place; what it did not
/// tell counts as nothing.
pub proof fn machine_is_known_as_told(
    cores: Option<i64>,
    system: Option<SystemInfo>,
    interfaces: Option<Vec<Interface>>,
    host: HostInfo,
)
    requires
        call_ensures(check_info, (cores, system, interfaces), host),
    ensures
        cores matches Some(n) ==> (n >= 0 ==> host.num_cores == n) && (n < 0 ==> host.num_cores
            == 0),
        cores is None ==> host.num_cores == 0,
        system matches Some(s) ==> host.uptime == s.uptime && host.ram_total == s.ram_total
            && host.ram_unused == s.ram_unused,
        system is None ==> host.uptime == 0 && host.ram_total == 0 && host.ram_unused == 0,
        interfaces matches Some(list) ==> host.net_interfaces@ == list@,
        interfaces is None ==> host.net_interfaces@.len() == 0,
{
}

/// An interface is known under its name, with the last part of the path of its device and its
/// hardware address without the white space around it; interfaces stay in order.
pub proof fn interfaces_are_known_as_shown(
    reads: Vec<InterfaceRead>,
    r: Vec<Interface>,
    i: int,
    pci: Option<String>,
    mac: Option<String>,
    path: &str,
    name: Option<String>,
    before: Seq<char>,
    address: Seq<char>,
    after: Seq<char>,
)
    requires
        call_ensures(get_interfaces, (reads,), r),
        0 <= i < reads@.len(),
        call_ensures(get_pci_address, (reads@[i].device,), pci),
        call_ensures(get_mac_address, (reads@[i].address,), mac),
        reads@[i].device is Some ==> path@ == reads@[i].device->Some_0@ && call_ensures(
            text::path_file_name,
            (path,),
            name,
        ),
        text_laws::blank(before),
        text_laws::blank(after),
        address.len() > 0 ==> !text::is_space(address[0]) && !text::is_space(address.last()),
    ensures
        r@.len() == reads@.len(),
        r@[i].name@ == reads@[i].name@,
        r@[i].pci_address is Some <==> pci is Some,
        pci matches Some(p) ==> r@[i].pci_address->Some_0@ == p@,
        r@[i].mac_address is Some <==> reads@[i].address is Some,
        mac matches Some(m) ==> r@[i].mac_address->Some_0@ == m@,
        reads@[i].device is None ==> pci is None,
        reads@[i].device is Some ==> (pci is Some <==> name is Some),
        reads@[i].device is Some && name is Some ==> pci->Some_0@ == name->Some_0@,
        reads@[i].address is None ==> mac is None,
        reads@[i].address is Some && reads@[i].address->Some_0@ == before + address + after ==> (
        mac matches Some(m) && m@ == address),
{
    assert(hostinfo::interface_is(r@[i], reads@[i]));
    text_laws::lemma_trimmed_is(before, address, after);
}

/// The machine is a virtual one exactly where both names, whatever their case, hold the words of
/// the hypervisor; a name that could not be read is an error, and the first one counts.
pub proof fn virtual_machines_are_named_so(
    product: String,
    vendor: String,
    r: Result<bool, String>,
    why: String,
    other: Result<String, String>,
    first: Result<bool, String>,
    second: Result<bool, String>,
)
    requires
        call_ensures(is_running_on_vm, (Ok(product), Ok(vendor)), r),
        call_ensures(is_running_on_vm, (Err(why), other), first),
        call_ensures(is_running_on_vm, (Ok(product), Err(why)), second),
    ensures
        r is Ok,
        r->Ok_0 <==> holds(text::lowered(product@), "cloud"@) && holds(
            text::lowered(product@),
            "hypervisor"@,
        ) && holds(text::lowered(vendor@), "cloud"@) && holds(
            text::lowered(vendor@),
            "hypervisor"@,
        ),
        first matches Err(e) && e@ == why@,
        second matches Err(e) && e@ == why@,
{
    lemma_holds(text::lowered(product@), "cloud"@);
    lemma_holds(text::lowered(product@), "hypervisor"@);
    lemma_holds(text::lowered(vendor@), "cloud"@);
    lemma_holds(text::lowered(vendor@), "hypervisor"@);
}

/// Whether a text is some text, a part and some text.
pub open spec fn holds(s: Seq<char>, part: Seq<char>) -> bool {
    exists|before: Seq<char>, after: Seq<char>| s == #[trigger] (before + part + after)
}

proof fn lemma_holds(s: Seq<char>, part: Seq<char>)
    ensures
        text::occurs_in(part, s) <==> holds(s, part),
{
    if text::occurs_in(part, s) {
        let i = choose|i: int|
            0 <= i <= s.len() - part.len() && #[trigger] s.subrange(i, i + part.len()) == part;
        assert(s =~= s.take(i) + part + s.skip(i + part.len()));
    }
    if holds(s, part) {
        let (before, after) = choose|before: Seq<char>, after: Seq<char>|
            s == #[trigger] (before + part + after);
        let i = before.len() as int;
        assert(s.subrange(i, i + part.len()) =~= part);
    }
}

/// A value that is put into a table is found under its key and under no other; what else was in
/// the table stays.
pub proof fn tables_keep_what_is_put_in(
    table: &mut TextMap<u64>,
    key: String,
    value: u64,
    other: Seq<char>,
)
    requires
        call_ensures(TextMap::<u64>::insert, (table, key, value), ()),
        other != key@,
    ensures
        final(table)@.dom().contains(key@),
        final(table)@[key@] == value,
        final(table)@.dom().contains(other) <==> old(table)@.dom().contains(other),
        old(table)@.dom().contains(other) ==> final(table)@[other] == old(table)@[other],
{
}

/// A value that is taken out of a table is the one under its key, and is not found any more; what
/// else was in the table stays.
pub proof fn tables_give_what_is_taken_out(
    table: &mut TextMap<u64>,
    key: &str,
    r: Option<u64>,
    other: Seq<char>,
)
    requires
        call_ensures(TextMap::<u64>::remove, (table, key), r),
        other != key@,
    ensures
        r is Some <==> old(table)@.dom().contains(key@),
        r matches Some(v) ==> v == old(table)@[key@],
        !final(table)@.dom().contains(key@),
        final(table)@.dom().contains(other) <==> old(table)@.dom().contains(other),
        old(table)@.dom().contains(other) ==> final(table)@[other] == old(table)@[other],
{
}

/// A table finds what it holds under a key, and nothing under any other; a new table holds nothing.
pub proof fn tables_find_what_they_hold(
    table: &TextMap<u64>,
    key: &str,
    got: Option<&u64>,
    has: bool,
    empty: bool,
    fresh: TextMap<u64>,
    any: Seq<char>,
)
    requires
        call_ensures(TextMap::<u64>::get, (table, key), got),
        call_ensures(TextMap::<u64>::contains_key, (table, key), has),
        call_ensures(TextMap::<u64>::is_empty, (table,), empty),
        call_ensures(TextMap::<u64>::new, (), fresh),
    ensures
        has <==> table@.dom().contains(key@),
        got is Some <==> table@.dom().contains(key@),
        got matches Some(v) ==> *v == table@[key@],
        empty ==> !table@.dom().contains(any),
        !empty ==> exists|k: Seq<char>| #[trigger] table@.dom().contains(k),
        !fresh@.dom().contains(any),
{
    if !empty {
        if forall|k: Seq<char>| !(#[trigger] table@.dom().contains(k)) {
            assert(table@ =~= Map::<Seq<char>, u64>::empty());
        }
    }
}

/// Every entry of a table is one that it holds, and no key has two.
pub proof fn entries_are_what_a_table_holds(
    table: TextMap<u64>,
    entries: Vec<(String, u64)>,
    i: int,
    j: int,
)
    requires
        call_ensures(TextMap::<u64>::into_entries, (table,), entries),
    ensures
        0 <= i < entries@.len() ==> table@.dom().contains(entries@[i].0@) && table@[entries@[i].0@]
            == entries@[i].1,
        0 <= i < j < entries@.len() ==> entries@[i].0@ != entries@[j].0@,
{
}

/// Where the services keep their files and meet each other, and how long they pause.
pub proof fn services_meet_at_fixed_places()
    ensures
        crate::task::TASK_SERVICE_SOCKET@ == "/tmp/feos/task_service.sock"@,
        crate::task::worker::YOUKI_BIN@ == "youki"@,
        crate::image::IMAGE_DIR@ == "/var/lib/feos/images"@,
        crate::image::IMAGE_SERVICE_SOCKET@ == "/var/lib/feos/image_service.sock"@,
        crate::container::DEFAULT_CONTAINER_DB_URL@ == "sqlite:/var/lib/feos/containers.db"@,
        crate::cli::DEFAULT_ADDRESS@ == "http://[::1]:1337"@,
        crate::cli::DEFAULT_IMAGE_SOCKET@ == "/tmp/image_service.sock"@,
        crate::host::upload::UPGRADE_DIR@ == "/var/lib/feos/upgrade"@,
        crate::host::time::NTP_PORT == 123,
        crate::network::sriov::RETRY_DELAY_SECS == 2,
        crate::network::INTERFACE_NAME@ == "eth0"@,
{
}

} // verus!
