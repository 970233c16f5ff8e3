//! What is known of the machine at its start.
use crate::text;
use vstd::prelude::*;

verus! {

/// What is known of the machine.
#[derive(Debug)]
pub struct HostInfo {
    pub uptime: u64,
    pub ram_total: u64,
    pub ram_unused: u64,
    pub num_cores: u64,
    pub net_interfaces: Vec<Interface>,
}

/// A network interface of the machine.
#[derive(Debug)]
pub struct Interface {
    pub name: String,
    pub pci_address: Option<String>,
    pub mac_address: Option<String>,
}

impl Default for HostInfo {
    fn default() -> (r: HostInfo)
        ensures
            r.uptime == 0,
            r.ram_total == 0,
            r.ram_unused == 0,
            r.num_cores == 0,
            r.net_interfaces@.len() == 0,
    {
        HostInfo {
            uptime: 0,
            ram_total: 0,
            ram_unused: 0,
            num_cores: 0,
            net_interfaces: Vec::new(),
        }
    }
}

impl Default for Interface {
    fn default() -> (r: Interface)
        ensures
            r.name@.len() == 0,
            r.pci_address is None,
            r.mac_address is None,
    {
        Interface { name: String::new(), pci_address: None, mac_address: None }
    }
}

/// What the system says of its memory and of how long it runs.
#[derive(Clone, Copy, Debug)]
pub struct SystemInfo {
    pub uptime: u64,
    pub ram_total: u64,
    pub ram_unused: u64,
}

/// What the system shows of an interface: the path of its device, and its hardware
/// address as it is written.
pub struct InterfaceRead {
    pub name: String,
    pub device: Option<String>,
    pub address: Option<String>,
}

/// Whether this is the last part of the path of a device.
pub open spec fn names_device(name: Option<String>, device: Option<String>) -> bool {
    match device {
        Some(path) => match text::file_name(path@) {
            Some(last) => name matches Some(n) && n@ == last,
            None => name is None,
        },
        None => name is None,
    }
}

/// Whether this is the interface that the system shows.
pub open spec fn interface_is(i: Interface, read: InterfaceRead) -> bool {
    &&& i.name == read.name
    &&& names_device(i.pci_address, read.device)
    &&& match read.address {
        Some(mac) => i.mac_address matches Some(m) && m@ == text::trimmed(mac@),
        None => i.mac_address is None,
    }
}

/// The bus address of an interface, from the path of its device.
pub fn get_pci_address(device: Option<String>) -> (r: Option<String>)
    ensures
        names_device(r, device),
{
    match device {
        Some(path) => text::path_file_name(path.as_str()),
        None => None,
    }
}

/// The hardware address of an interface, from the file that holds it.
pub fn get_mac_address(content: Option<String>) -> (r: Option<String>)
    ensures
        match content {
            Some(mac) => r matches Some(m) && m@ == text::trimmed(mac@),
            None => r is None,
        },
{
    match content {
        Some(mac) => Some(text::trim(mac.as_str())),
        None => None,
    }
}

/// The interfaces that the system shows, in order.
pub fn get_interfaces(reads: Vec<InterfaceRead>) -> (r: Vec<Interface>)
    ensures
        r@.len() == reads@.len(),
        forall|i: int| 0 <= i < reads@.len() ==> interface_is(#[trigger] r@[i], reads@[i]),
{
    let ghost all = reads@;
    let mut rest = reads;
    let mut interfaces: Vec<Interface> = Vec::new();
    while rest.len() > 0
        invariant
            interfaces@.len() + rest@.len() == all.len(),
            rest@ == all.skip(interfaces@.len() as int),
            forall|i: int|
                0 <= i < interfaces@.len() ==> interface_is(#[trigger] interfaces@[i], all[i]),
        decreases rest@.len(),
    {
        let ghost k = interfaces@.len() as int;
        assert(rest@[0] == all[k]);
        let read = rest.remove(0);
        interfaces.push(
            Interface {
                name: read.name,
                pci_address: get_pci_address(read.device),
                mac_address: get_mac_address(read.address),
            },
        );
        assert(rest@ =~= all.skip(k + 1));
    }
    interfaces
}

/// What is known of the machine: what the system does not tell counts as nothing.
pub fn check_info(
    cores: Option<i64>,
    system: Option<SystemInfo>,
    interfaces: Option<Vec<Interface>>,
) -> (host: HostInfo)
    ensures
        host.num_cores == (match cores {
            Some(n) => if n >= 0 {
                n as u64
            } else {
                0
            },
            None => 0,
        }),
        match system {
            Some(s) => host.uptime == s.uptime && host.ram_total == s.ram_total && host.ram_unused
                == s.ram_unused,
            None => host.uptime == 0 && host.ram_total == 0 && host.ram_unused == 0,
        },
        match interfaces {
            Some(list) => host.net_interfaces == list,
            None => host.net_interfaces@.len() == 0,
        },
{
    let mut host = HostInfo::default();
    if let Some(num_cores) = cores {
        if num_cores >= 0 {
            host.num_cores = num_cores as u64;
        }
    }
    if let Some(info) = system {
        host.uptime = info.uptime;
        host.ram_total = info.ram_total;
        host.ram_unused = info.ram_unused;
    }
    if let Some(list) = interfaces {
        host.net_interfaces = list;
    }
    host
}

/// Whether a text names the hypervisor, in whatever case.
pub open spec fn names_hypervisor(content: Seq<char>) -> bool {
    text::occurs_in("cloud"@, text::lowered(content)) && text::occurs_in(
        "hypervisor"@,
        text::lowered(content),
    )
}

/// Whether the machine is a virtual one: both the name of the product and that of
/// its maker name the hypervisor. A file that cannot be read is an error; the first
/// one counts.
pub fn is_running_on_vm(
    product_name: Result<String, String>,
    sys_vendor: Result<String, String>,
) -> (r: Result<bool, String>)
    ensures
        match (product_name, sys_vendor) {
            (Err(e), _) => r == Err::<bool, String>(e),
            (_, Err(e)) => r == Err::<bool, String>(e),
            (Ok(product), Ok(vendor)) => r == Ok::<bool, String>(
                names_hypervisor(product@) && names_hypervisor(vendor@),
            ),
        },
{
    let product = match product_name {
        Ok(s) => s,
        Err(e) => {
            return Err(e);
        },
    };
    let vendor = match sys_vendor {
        Ok(s) => s,
        Err(e) => {
            return Err(e);
        },
    };
    let p = text::to_lowercase(product.as_str());
    let v = text::to_lowercase(vendor.as_str());
    Ok(
        text::contains(p.as_str(), "cloud") && text::contains(p.as_str(), "hypervisor")
            && text::contains(v.as_str(), "cloud") && text::contains(v.as_str(), "hypervisor"),
    )
}

} // verus!
