//! Virtual functions of the network card: they are created, taken from their driver
//! and handed to the one that passes them through to virtual machines.
use crate::network::pci;
use crate::network::INTERFACE_NAME;
use crate::text;
use vstd::prelude::*;

verus! {

/// How often a virtual function is tried: one less than this.
pub const RETRIES: u32 = 5;

/// How long to wait before trying again, in seconds.
pub const RETRY_DELAY_SECS: u64 = 2;

/// What came of opening a file and writing to it.
pub enum WriteOutcome {
    NotOpened(String),
    NotWritten(String),
    Written,
}

/// How a virtual function is handed over.
pub enum BindHow {
    /// The first one: its vendor and device numbers are made known to the driver.
    NewId,
    /// Any other one: its address is given to the driver.
    Bind,
}

/// How far the set-up of the virtual functions has come.
pub enum SriovProgress {
    Started,
    /// Whether the number of virtual functions was written.
    NumberWritten(WriteOutcome),
    /// The path of the card's device.
    LinkRead(Result<String, String>),
    /// What the file with the offset of the first virtual function holds.
    OffsetRead { pci_address: String, content: Result<String, String> },
    /// Whether a virtual function could be taken from its driver.
    Unbound { functions: Vec<String>, index: usize, attempt: u32, done: bool },
    /// The pause after a failure is over.
    Slept { functions: Vec<String>, index: usize, attempt: u32 },
    /// The virtual function was handed over, or could not be.
    Bound { functions: Vec<String>, index: usize },
}

/// What to do next for the virtual functions.
pub enum SriovAction {
    /// Write how many virtual functions there are to be.
    WriteNumber { path: String, value: String },
    /// Read where the device of the card is.
    ReadLink { path: String },
    /// Read the offset of the first virtual function.
    ReadOffset { path: String, pci_address: String },
    /// Take a virtual function from its driver.
    Unbind { functions: Vec<String>, index: usize, attempt: u32 },
    /// Wait before trying again.
    Sleep { functions: Vec<String>, index: usize, attempt: u32 },
    /// Hand a virtual function over.
    Bind { functions: Vec<String>, index: usize, how: BindHow },
    /// The set-up is over.
    Finish(Result<(), String>),
}

/// The offset of the first virtual function.
pub open spec fn offset_of(content: Seq<char>) -> Result<nat, text::NumberError> {
    text::unsigned_number(text::trimmed(content), 10, u32::MAX as nat)
}

/// Whether all virtual functions have an address.
pub open spec fn functions_fit(pci_address: Seq<char>, offset: nat, num_vfs: u32) -> bool {
    forall|base: (u16, u8, u8, u8)|
        pci::pci_read(pci_address, Ok(base)) && num_vfs > 0 ==> #[trigger] pci::pci_index(base)
            + offset + (num_vfs - 1) <= u32::MAX
}

/// Whether all virtual functions have an address, from what the file with the offset
/// of the first one holds.
pub fn all_functions_fit(pci_address: &str, content: &str, num_vfs: u32) -> (r: bool)
    ensures
        r == (offset_of(content@) matches Ok(offset) ==> functions_fit(
            pci_address@,
            offset,
            num_vfs,
        )),
{
    let offset: u64 = match text::parse_unsigned(
        text::trim(content).as_str(),
        10,
        u32::MAX as u64,
    ) {
        Ok(n) => n,
        Err(_) => {
            return true;
        },
    };
    match pci::parse_pci_address(pci_address) {
        Err(_) => true,
        Ok((domain, bus, slot, function)) => {
            let base = (domain, bus, slot, function);
            assert(pci::pci_read(pci_address@, Ok(base)));
            let index: u64 = (domain as u64) * 65536 + (bus as u64) * 256 + (slot as u64) * 8
                + function as u64;
            assert(index == pci::pci_index(base));
            num_vfs == 0 || index + offset + (num_vfs as u64 - 1) <= u32::MAX as u64
        },
    }
}

/// Whether these are the addresses of the virtual functions: they follow the card's
/// own one after another, from the offset on.
pub open spec fn functions_are(
    functions: Seq<String>,
    base: (u16, u8, u8, u8),
    offset: nat,
    num_vfs: u32,
) -> bool {
    &&& functions.len() == num_vfs
    &&& forall|i: int|
        0 <= i < functions.len() ==> exists|a: (u16, u8, u8, u8)|
            (#[trigger] functions[i])@ == #[trigger] pci::pci_text(a) && pci::is_normal(a)
                && pci::pci_index(a) == pci::pci_index(base) + offset + i
}

/// The addresses of the virtual functions of a card.
pub fn virtual_functions(base: (u16, u8, u8, u8), offset: u32, num_vfs: u32) -> (functions: Vec<
    String,
>)
    requires
        num_vfs > 0 ==> pci::pci_index(base) + offset + (num_vfs - 1) <= u32::MAX,
    ensures
        functions_are(functions@, base, offset as nat, num_vfs),
{
    let mut functions: Vec<String> = Vec::new();
    let mut x: u32 = 0;
    while x < num_vfs
        invariant
            x <= num_vfs,
            num_vfs > 0 ==> pci::pci_index(base) + offset + (num_vfs - 1) <= u32::MAX,
            functions_are(functions@, base, offset as nat, x),
        decreases num_vfs - x,
    {
        let address = pci::nth_next_pci_address(base, x + offset);
        let ghost before = functions@;
        functions.push(pci::format_pci_address(address));
        assert forall|i: int| 0 <= i < functions@.len() implies exists|a: (u16, u8, u8, u8)|
            (#[trigger] functions@[i])@ == #[trigger] pci::pci_text(a) && pci::is_normal(a)
                && pci::pci_index(a) == pci::pci_index(base) + offset + i by {
            if i < before.len() {
                assert(functions@[i] == before[i]);
            } else {
                assert(functions@[i]@ == pci::pci_text(address));
            }
        }
        x += 1;
    }
    functions
}

/// The next virtual function is tried, or the set-up is over.
pub open spec fn tries(functions: Seq<String>, index: int, attempt: u32, action: SriovAction) -> bool {
    if index < functions.len() {
        action matches SriovAction::Unbind { functions: f, index: i, attempt: a } && f@ == functions
            && i == index && a == attempt
    } else {
        action == SriovAction::Finish(Ok(()))
    }
}

/// Where the card is described.
pub open spec fn base_path() -> Seq<char> {
    "/sys/class/net/"@ + INTERFACE_NAME@ + "/device"@
}

/// Whether the set-up fails with this message.
pub open spec fn fails(action: SriovAction, message: Seq<char>) -> bool {
    action matches SriovAction::Finish(Err(m)) && m@ == message
}

/// What to do next for the virtual functions.
pub open spec fn sriov_next(num_vfs: u32, progress: SriovProgress, action: SriovAction) -> bool {
    match progress {
        SriovProgress::Started => action matches SriovAction::WriteNumber { path, value } && path@
            == base_path() + "/sriov_numvfs"@ && value@ == text::dec(num_vfs as nat) + "\n"@,
        SriovProgress::NumberWritten(outcome) => match outcome {
            WriteOutcome::NotOpened(e) => fails(action, e@),
            WriteOutcome::NotWritten(e) => fails(action, "Failed to write to the file: "@ + e@),
            WriteOutcome::Written => action matches SriovAction::ReadLink { path } && path@
                == base_path(),
        },
        SriovProgress::LinkRead(link) => match link {
            Err(e) => fails(action, e@),
            Ok(device) => match text::file_name(device@) {
                None => fails(action, "No PCI address found"@),
                Some(address) => action matches SriovAction::ReadOffset { path, pci_address }
                    && path@ == "/sys/bus/pci/devices/"@ + address + "/"@ + "sriov_offset"@
                    && pci_address@ == address,
            },
        },
        SriovProgress::OffsetRead { pci_address, content } => match content {
            Err(e) => fails(action, e@),
            Ok(content) => match offset_of(content@) {
                Err(e) => fails(action, e.text()),
                Ok(offset) => (exists|e: String| #[trigger]
                    pci::pci_read(pci_address@, Err(e)) && fails(action, e@)) || (exists|
                    base: (u16, u8, u8, u8),
                    functions: Seq<String>,
                | #[trigger] functions_are(functions, base, offset, num_vfs) && pci::pci_read(
                    pci_address@,
                    Ok(base),
                ) && tries(functions, 0, 1, action)),
            },
        },
        SriovProgress::Unbound { functions, index, attempt, done } => if done {
            action matches SriovAction::Bind { functions: f, index: i, how } && f == functions && i
                == index && how == (if index == 0 {
                BindHow::NewId
            } else {
                BindHow::Bind
            })
        } else {
            action == (SriovAction::Sleep { functions, index, attempt })
        },
        SriovProgress::Slept { functions, index, attempt } => if attempt + 1 < RETRIES {
            action == (SriovAction::Unbind { functions, index, attempt: (attempt + 1) as u32 })
        } else {
            tries(functions@, index + 1, 1, action)
        },
        SriovProgress::Bound { functions, index } => tries(functions@, index + 1, 1, action),
    }
}

fn try_next(functions: Vec<String>, index: usize) -> (action: SriovAction)
    ensures
        tries(functions@, index as int, 1, action),
{
    if index < functions.len() {
        SriovAction::Unbind { functions, index, attempt: 1 }
    } else {
        SriovAction::Finish(Ok(()))
    }
}

/// What to do next for the virtual functions: their number is written, and each is
/// taken from its driver, at most four times, and handed over. One that cannot be
/// taken or handed over does not keep the next from being tried.
pub fn configure_sriov(num_vfs: u32, progress: SriovProgress) -> (action: SriovAction)
    requires
        progress matches SriovProgress::OffsetRead { pci_address, content: Ok(content) } ==> (
        offset_of(content@) matches Ok(offset) ==> functions_fit(pci_address@, offset, num_vfs)),
        progress matches SriovProgress::Slept { functions, index, attempt: _ } ==> index
            < functions@.len(),
        progress matches SriovProgress::Bound { functions, index } ==> index < functions@.len(),
    ensures
        sriov_next(num_vfs, progress, action),
{
    let base_path = text::cat3("/sys/class/net/", INTERFACE_NAME, "/device");
    match progress {
        SriovProgress::Started => {
            let number = text::to_dec(num_vfs as u64);
            SriovAction::WriteNumber {
                path: text::cat2(base_path.as_str(), "/sriov_numvfs"),
                value: text::cat2(number.as_str(), "\n"),
            }
        },
        SriovProgress::NumberWritten(outcome) => match outcome {
            WriteOutcome::NotOpened(e) => SriovAction::Finish(Err(e)),
            WriteOutcome::NotWritten(e) => SriovAction::Finish(
                Err(text::cat2("Failed to write to the file: ", e.as_str())),
            ),
            WriteOutcome::Written => SriovAction::ReadLink { path: base_path },
        },
        SriovProgress::LinkRead(link) => match link {
            Err(e) => SriovAction::Finish(Err(e)),
            Ok(device) => match text::path_file_name(device.as_str()) {
                None => SriovAction::Finish(Err("No PCI address found".to_owned())),
                Some(pci_address) => SriovAction::ReadOffset {
                    path: device_information_path(pci_address.as_str(), "sriov_offset"),
                    pci_address,
                },
            },
        },
        SriovProgress::OffsetRead { pci_address, content } => match content {
            Err(e) => SriovAction::Finish(Err(e)),
            Ok(content) => match text::parse_unsigned(
                get_device_information(content.as_str()).as_str(),
                10,
                u32::MAX as u64,
            ) {
                Err(e) => SriovAction::Finish(Err(e.message())),
                Ok(offset) => match pci::parse_pci_address(pci_address.as_str()) {
                    Err(e) => {
                        assert(pci::pci_read(pci_address@, Err(e)));
                        SriovAction::Finish(Err(e))
                    },
                    Ok(base) => {
                        assert(pci::pci_read(pci_address@, Ok(base)));
                        assert(num_vfs > 0 ==> pci::pci_index(base) + offset + (num_vfs - 1)
                            <= u32::MAX);
                        let functions = virtual_functions(base, offset as u32, num_vfs);
                        try_next(functions, 0)
                    },
                },
            },
        },
        SriovProgress::Unbound { functions, index, attempt, done } => if done {
            SriovAction::Bind { functions, index, how: bind_device(index) }
        } else {
            SriovAction::Sleep { functions, index, attempt }
        },
        SriovProgress::Slept { functions, index, attempt } => if attempt < RETRIES - 1 {
            SriovAction::Unbind { functions, index, attempt: attempt + 1 }
        } else {
            let count: usize = functions.len();
            assert(index < count);
            try_next(functions, index + 1)
        },
        SriovProgress::Bound { functions, index } => {
            let count: usize = functions.len();
            assert(index < count);
            try_next(functions, index + 1)
        },
    }
}

/// How a virtual function is handed over: only the first one makes the kind of card
/// known to the driver.
pub fn bind_device(index: usize) -> (how: BindHow)
    ensures
        how == (if index == 0 {
            BindHow::NewId
        } else {
            BindHow::Bind
        }),
{
    if index == 0 {
        BindHow::NewId
    } else {
        BindHow::Bind
    }
}

/// The file that a PCI device is taken from its driver by.
pub fn unbind_device(pci: &str) -> (path: String)
    ensures
        path@ == "/sys/bus/pci/devices/"@ + pci@ + "/driver/unbind"@,
{
    text::cat3("/sys/bus/pci/devices/", pci, "/driver/unbind")
}

/// The file that describes a PCI device in some respect.
pub fn device_information_path(pci: &str, field: &str) -> (path: String)
    ensures
        path@ == "/sys/bus/pci/devices/"@ + pci@ + "/"@ + field@,
{
    text::cat4("/sys/bus/pci/devices/", pci, "/", field)
}

/// What a file that describes a PCI device says.
pub fn get_device_information(content: &str) -> (r: String)
    ensures
        r@ == text::trimmed(content@),
{
    text::trim(content)
}

/// What is left of a text after its first two bytes, where they end a character.
pub open spec fn after_two_bytes(s: Seq<char>) -> Option<Seq<char>> {
    if s.len() >= 1 && '\u{80}' <= s[0] <= '\u{7ff}' {
        Some(s.skip(1))
    } else if s.len() >= 2 && s[0] <= '\u{7f}' && s[1] <= '\u{7f}' {
        Some(s.skip(2))
    } else {
        None
    }
}

fn takes_one_byte(c: char) -> (r: bool)
    ensures
        r == (c <= '\u{7f}'),
{
    let n: u32 = c as u32;
    n <= 0x7f
}

fn takes_two_bytes(c: char) -> (r: bool)
    ensures
        r == ('\u{80}' <= c <= '\u{7ff}'),
{
    let n: u32 = c as u32;
    0x80 <= n && n <= 0x7ff
}

/// Whether a text can be cut after its first two bytes.
pub fn can_cut(s: &str) -> (r: bool)
    ensures
        r == (after_two_bytes(s@) is Some),
{
    let v = text::to_chars(s);
    (v.len() >= 1 && takes_two_bytes(v[0])) || (v.len() >= 2 && takes_one_byte(v[0])
        && takes_one_byte(v[1]))
}

fn cut(s: &str) -> (r: String)
    requires
        after_two_bytes(s@) is Some,
    ensures
        Some(r@) == after_two_bytes(s@),
{
    let v = text::to_chars(s);
    let from: usize = if takes_two_bytes(v[0]) {
        1
    } else {
        2
    };
    assert(v@.subrange(from as int, v@.len() as int) =~= s@.skip(from as int));
    text::from_chars(&v, from, v.len())
}

/// What the driver is told of the kind of a card: the numbers of its vendor and of
/// the device, without the prefix of two characters.
pub fn vfio_new_id(vendor: &str, device: &str) -> (content: String)
    requires
        after_two_bytes(vendor@) is Some,
        after_two_bytes(device@) is Some,
    ensures
        content@ == after_two_bytes(vendor@)->Some_0 + " "@ + after_two_bytes(device@)->Some_0,
{
    let v = cut(vendor);
    let d = cut(device);
    text::cat3(v.as_str(), " ", d.as_str())
}

/// What the driver is told of any other card: its address.
pub fn vfio_bind(pci_address: &str) -> (content: String)
    ensures
        content@ == pci_address@,
{
    pci_address.to_owned()
}

/// No virtual function is tried more than four times: one more attempt follows only
/// the first, the second and the third.
pub proof fn attempts_are_bounded(
    num_vfs: u32,
    functions: Vec<String>,
    index: usize,
    attempt: u32,
    action: SriovAction,
)
    requires
        sriov_next(num_vfs, SriovProgress::Slept { functions, index, attempt }, action),
        1 <= attempt <= 4,
    ensures
        action matches SriovAction::Unbind { functions: _, index: i, attempt: a } ==> 1 <= a <= 4
            && ((i == index && a == attempt + 1) || (i == index + 1 && a == 1)),
        attempt == 4 ==> (action matches SriovAction::Unbind { functions: _, index: i, attempt: _ }
            ==> i == index + 1),
{
}

} // verus!
