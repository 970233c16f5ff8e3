//! What holds of the hypervisor as a whole: that a virtual machine is made of what was
//! asked for, where its sockets are, and what is left once it is gone.
use crate::vm::ch_adapter::{
    self, build_vm_config, convert_net_config_to_ch, ApiReply, ChNetworkDevice, ChPing, ChVmConfig,
    ChVmState, CleanupStep, CloudHypervisorAdapter, CreationProgress, CreationStep, HealthAction,
    HealthEvent, NicStep, ProcessOutcome, VmDirs,
};
use crate::vm::guards::record_removed_nic;
use crate::vm::vmm::VmmError;
use crate::vm::{
    AttachNicRequest, Backend, NetConfig, PingVmResponse, RemoveNicRequest, VmConfig, VmInfo,
    VmState,
};
use vstd::prelude::*;

verus! {

/// A virtual machine has the processors that were asked for: as many at its start and as
/// many at most. A number of more than 31 bits stands for the number of the same bits.
pub proof fn processors_are_as_asked(
    vm_id: &str,
    config: VmConfig,
    image_uuid: &str,
    dirs: &VmDirs,
    ch: ChVmConfig,
)
    requires
        call_ensures(build_vm_config, (vm_id, config, image_uuid, dirs), Ok(ch)),
    ensures
        config.cpus is None <==> ch.cpus is None,
        config.cpus matches Some(asked) ==> {
            &&& asked.boot_vcpus <= i32::MAX ==> ch.cpus->Some_0.boot_vcpus == asked.boot_vcpus
            &&& asked.max_vcpus <= i32::MAX ==> ch.cpus->Some_0.max_vcpus == asked.max_vcpus
            &&& asked.boot_vcpus > i32::MAX ==> ch.cpus->Some_0.boot_vcpus == asked.boot_vcpus
                - 0x1_0000_0000
            &&& asked.max_vcpus > i32::MAX ==> ch.cpus->Some_0.max_vcpus == asked.max_vcpus
                - 0x1_0000_0000
        },
{
}

/// A virtual machine has the memory that was asked for, 1048576 bytes for each unit, and
/// in huge pages exactly where they were asked for. Its memory is shared, so that devices
/// outside of the hypervisor can reach it.
pub proof fn memory_is_as_asked(
    vm_id: &str,
    config: VmConfig,
    image_uuid: &str,
    dirs: &VmDirs,
    ch: ChVmConfig,
)
    requires
        call_ensures(build_vm_config, (vm_id, config, image_uuid, dirs), Ok(ch)),
    ensures
        config.memory is None <==> ch.memory is None,
        config.memory matches Some(asked) ==> {
            &&& asked.size_mib * 1048576 <= i64::MAX ==> ch.memory->Some_0.size == asked.size_mib
                * 1048576
            &&& ch.memory->Some_0.hugepages == asked.hugepages
            &&& ch.memory->Some_0.shared
        },
{
}

/// Every size of memory that can be written in bytes is taken.
pub proof fn usual_memory_fits(config: &VmConfig, r: bool)
    requires
        call_ensures(ch_adapter::memory_size_fits, (config,), r),
        config.memory matches Some(asked) ==> asked.size_mib * 1048576 <= i64::MAX,
    ensures
        r,
{
}

/// A virtual machine is told the ignition data that was asked for, and nothing else: it
/// gets the data unchanged where there is any, and no platform of its own otherwise.
pub proof fn ignition_is_handed_over(
    vm_id: &str,
    config: VmConfig,
    image_uuid: &str,
    dirs: &VmDirs,
    ch: ChVmConfig,
)
    requires
        call_ensures(build_vm_config, (vm_id, config, image_uuid, dirs), Ok(ch)),
    ensures
        (config.ignition matches Some(data) && data@.len() > 0) <==> ch.platform is Some,
        ch.platform matches Some(platform) ==> platform.num_pci_segments == 1
            && platform.oem_strings@.len() == 1 && platform.oem_strings@[0]@
            == config.ignition->Some_0@,
{
}

/// A virtual machine boots from the disk of its own image: the path of its disk lies in
/// the directory of the image, so that virtual machines of different images have different
/// disks; and its firmware is the one that is installed.
pub proof fn disk_is_that_of_the_image(
    vm_id: &str,
    config: VmConfig,
    image_uuid: &str,
    dirs: &VmDirs,
    ch: ChVmConfig,
)
    requires
        call_ensures(build_vm_config, (vm_id, config, image_uuid, dirs), Ok(ch)),
    ensures
        ch.disk_path@ == "/var/lib/feos/images/"@ + image_uuid@ + "/disk.image"@,
        ch.firmware@ == "/usr/share/cloud-hypervisor/hypervisor-fw"@,
{
    reveal_strlit("/var/lib/feos/images/");
    reveal_strlit("/var/lib/feos/images");
    reveal_strlit("/");
    assert("/var/lib/feos/images/"@ =~= "/var/lib/feos/images"@ + "/"@);
    assert(ch.disk_path@ =~= "/var/lib/feos/images/"@ + image_uuid@ + "/disk.image"@);
}

/// How many of the first network devices are connected to tap devices.
pub open spec fn taps_among(nics: Seq<NetConfig>, n: int) -> int
    decreases n,
{
    if n <= 0 {
        0
    } else {
        taps_among(nics, n - 1) + (if nics[n - 1].backend matches Some(Backend::Tap { .. }) {
            1int
        } else {
            0
        })
    }
}

/// How many of the first network devices are passed through.
pub open spec fn passed_among(nics: Seq<NetConfig>, n: int) -> int
    decreases n,
{
    if n <= 0 {
        0
    } else {
        passed_among(nics, n - 1) + (if nics[n - 1].backend matches Some(
            Backend::VfioPci { .. },
        ) {
            1int
        } else {
            0
        })
    }
}

proof fn lemma_places(nics: Seq<NetConfig>, n: int)
    requires
        0 <= n <= nics.len(),
    ensures
        ch_adapter::taps(nics.take(n)).len() == taps_among(nics, n),
        ch_adapter::passed_through(nics.take(n)).len() == passed_among(nics, n),
        forall|i: int|
            #![trigger nics[i]]
            0 <= i < n && (nics[i].backend matches Some(Backend::Tap { .. })) ==> 0 <= taps_among(
                nics,
                i,
            ) < taps_among(nics, n) && ch_adapter::taps(nics.take(n))[taps_among(nics, i)]
                == nics[i],
        forall|i: int|
            #![trigger nics[i]]
            0 <= i < n && (nics[i].backend matches Some(Backend::VfioPci { .. })) ==> 0
                <= passed_among(nics, i) < passed_among(nics, n) && ch_adapter::passed_through(
                nics.take(n),
            )[passed_among(nics, i)] == nics[i],
    decreases n,
{
    if n > 0 {
        lemma_places(nics, n - 1);
        let now = nics.take(n);
        assert(now.drop_last() =~= nics.take(n - 1));
        assert(now.last() == nics[n - 1]);
    } else {
        assert(nics.take(0) =~= Seq::<NetConfig>::empty());
    }
}

/// Every network device that was asked for is there, in the order in which it was asked
/// for among those of its kind, and there is no other: a device on a tap device has that
/// tap device and the hardware address that was asked for, if any; one that is passed
/// through is the device of that bus address. Each goes by its own name, or by that of
/// what it is connected to.
pub proof fn network_devices_are_as_asked(
    vm_id: &str,
    config: VmConfig,
    image_uuid: &str,
    dirs: &VmDirs,
    ch: ChVmConfig,
)
    requires
        call_ensures(build_vm_config, (vm_id, config, image_uuid, dirs), Ok(ch)),
    ensures
        ({
            let nics = config.net@;
            let n = nics.len() as int;
            &&& forall|i: int| 0 <= i < n ==> (#[trigger] nics[i]).backend is Some
            &&& ch.net is Some <==> taps_among(nics, n) > 0
            &&& ch.net matches Some(nets) ==> nets@.len() == taps_among(nics, n)
            &&& ch.devices is Some <==> passed_among(nics, n) > 0
            &&& ch.devices matches Some(devices) ==> devices@.len() == passed_among(nics, n)
            &&& forall|i: int|
                0 <= i < n ==> ((#[trigger] nics[i]).backend matches Some(Backend::Tap { tap_name })
                    ==> {
                    let net = ch.net->Some_0@[taps_among(nics, i)];
                    &&& net.tap matches Some(tap) && tap@ == tap_name@
                    &&& net.mac is Some <==> nics[i].mac_address@.len() > 0
                    &&& net.mac matches Some(mac) ==> mac@ == nics[i].mac_address@
                    &&& net.id matches Some(id) && id@ == (if nics[i].device_id@.len() > 0 {
                        nics[i].device_id@
                    } else {
                        tap_name@
                    })
                })
            &&& forall|i: int|
                0 <= i < n ==> ((#[trigger] nics[i]).backend matches Some(Backend::VfioPci { bdf })
                    ==> {
                    let device = ch.devices->Some_0@[passed_among(nics, i)];
                    &&& device.path@ == "/sys/bus/pci/devices/"@ + bdf@
                    &&& device.id matches Some(id) && id@ == (if nics[i].device_id@.len() > 0 {
                        nics[i].device_id@
                    } else {
                        "/sys/bus/pci/devices/"@ + bdf@
                    })
                })
        }),
{
    let nics = config.net@;
    let n = nics.len() as int;
    lemma_places(nics, n);
    assert(nics.take(n) =~= nics);
    assert forall|i: int| 0 <= i < n implies (#[trigger] nics[i]).backend is Some by {}
    assert forall|i: int|
        0 <= i < n && ((#[trigger] nics[i]).backend matches Some(Backend::Tap { .. })) implies ({
        let net = ch.net->Some_0@[taps_among(nics, i)];
        ch_adapter::connects(ChNetworkDevice::Net(net), nics[i])
    }) by {
        let k = taps_among(nics, i);
        assert(ch_adapter::taps(nics)[k] == nics[i]);
        assert(ch.net->Some_0@[k] == ch.net->Some_0@[k]);
    }
    assert forall|i: int|
        0 <= i < n && ((#[trigger] nics[i]).backend matches Some(Backend::VfioPci { .. })) implies ({
        let device = ch.devices->Some_0@[passed_among(nics, i)];
        ch_adapter::connects(ChNetworkDevice::Device(device), nics[i])
    }) by {
        let k = passed_among(nics, i);
        assert(ch_adapter::passed_through(nics)[k] == nics[i]);
        assert(ch.devices->Some_0@[k] == ch.devices->Some_0@[k]);
    }
}

/// A configuration is refused if and only if one of its network devices is connected to
/// nothing.
pub proof fn only_unconnected_devices_are_refused(
    vm_id: &str,
    config: VmConfig,
    image_uuid: &str,
    dirs: &VmDirs,
    r: Result<ChVmConfig, VmmError>,
)
    requires
        call_ensures(build_vm_config, (vm_id, config, image_uuid, dirs), r),
    ensures
        r is Err <==> exists|i: int|
            0 <= i < config.net@.len() && (#[trigger] config.net@[i]).backend is None,
        r matches Err(e) ==> e is InvalidConfig,
{
    if r is Err {
        assert(!ch_adapter::all_connected(config.net@));
    }
}

/// A network device that is added later is the same device as one that a virtual machine
/// is created with, and the client is told the name that the hypervisor knows it by.
pub proof fn added_device_is_as_asked(
    req: AttachNicRequest,
    nic: NetConfig,
    step: NicStep,
    converted: Result<ChNetworkDevice, VmmError>,
)
    requires
        req.nic == Some(nic),
        call_ensures(CloudHypervisorAdapter::attach_nic, (req, true), step),
        call_ensures(convert_net_config_to_ch, (&nic,), converted),
    ensures
        step is Add <==> nic.backend is Some,
        converted is Ok <==> nic.backend is Some,
        step matches NicStep::Add { device, device_id } ==> {
            &&& device.spec_id() matches Some(id) && id@ == device_id@
            &&& nic.device_id@.len() > 0 ==> device_id@ == nic.device_id@
            &&& nic.backend matches Some(Backend::Tap { tap_name }) ==> (device matches
                ChNetworkDevice::Net(net) && (net.tap matches Some(tap) && tap@ == tap_name@)
                && net.id->Some_0@ == device_id@ && (net.mac is Some <==> nic.mac_address@.len() > 0)
                && (net.mac matches Some(mac) ==> mac@ == nic.mac_address@) && (
            nic.device_id@.len() == 0 ==> device_id@ == tap_name@))
            &&& nic.backend matches Some(Backend::VfioPci { bdf }) ==> (device matches
                ChNetworkDevice::Device(dev) && dev.path@ == "/sys/bus/pci/devices/"@ + bdf@
                && dev.id->Some_0@ == device_id@ && (nic.device_id@.len() == 0 ==> device_id@
                == dev.path@))
        },
        converted matches Ok(device) ==> match step {
            NicStep::Add { device: added, device_id } => match (device, added) {
                (ChNetworkDevice::Net(a), ChNetworkDevice::Net(b)) => a.tap->Some_0@
                    == b.tap->Some_0@ && a.id->Some_0@ == device_id@,
                (ChNetworkDevice::Device(a), ChNetworkDevice::Device(b)) => a.path@ == b.path@
                    && a.id->Some_0@ == device_id@,
                _ => false,
            },
            NicStep::Fail(_) => false,
        },
{
}

/// A virtual machine without a hypervisor gets no device.
pub proof fn nothing_is_added_without_a_hypervisor(req: AttachNicRequest, step: NicStep)
    requires
        call_ensures(CloudHypervisorAdapter::attach_nic, (req, false), step),
    ensures
        step matches NicStep::Fail(VmmError::VmNotFound(id)) && id@ == req.vm_id@,
{
}

/// The devices of a removed name are gone from a configuration, and every other device is
/// still there, in the same order.
pub proof fn removed_device_is_gone(nics: Vec<NetConfig>, device_id: &str, r: Vec<NetConfig>)
    requires
        call_ensures(record_removed_nic, (nics, device_id), r),
    ensures
        forall|j: int| 0 <= j < r@.len() ==> (#[trigger] r@[j]).device_id@ != device_id@,
        forall|i: int|
            0 <= i < nics@.len() && (#[trigger] nics@[i]).device_id@ != device_id@ ==> r@.contains(
                nics@[i],
            ),
        forall|j: int| 0 <= j < r@.len() ==> nics@.contains(#[trigger] r@[j]),
        r@.len() == nics@.len() <==> forall|i: int|
            0 <= i < nics@.len() ==> (#[trigger] nics@[i]).device_id@ != device_id@,
{
    lemma_removed(nics@, device_id@);
}

proof fn lemma_removed(nics: Seq<NetConfig>, device_id: Seq<char>)
    ensures
        ({
            let r = crate::vm::guards::without_nic(nics, device_id);
            &&& r.len() <= nics.len()
            &&& forall|j: int| 0 <= j < r.len() ==> (#[trigger] r[j]).device_id@ != device_id
            &&& forall|i: int|
                0 <= i < nics.len() && (#[trigger] nics[i]).device_id@ != device_id ==> r.contains(
                    nics[i],
                )
            &&& forall|j: int| 0 <= j < r.len() ==> nics.contains(#[trigger] r[j])
            &&& r.len() == nics.len() <==> forall|i: int|
                0 <= i < nics.len() ==> (#[trigger] nics[i]).device_id@ != device_id
        }),
    decreases nics.len(),
{
    if nics.len() > 0 {
        let init = nics.drop_last();
        let last = nics.last();
        lemma_removed(init, device_id);
        let before = crate::vm::guards::without_nic(init, device_id);
        let r = crate::vm::guards::without_nic(nics, device_id);
        assert forall|i: int|
            0 <= i < nics.len() && (#[trigger] nics[i]).device_id@ != device_id implies r.contains(
            nics[i],
        ) by {
            if i < init.len() {
                assert(init[i] == nics[i]);
                let j = choose|j: int| 0 <= j < before.len() && before[j] == init[i];
                assert(r[j] == nics[i]);
            } else {
                assert(r[before.len() as int] == last);
            }
        }
        assert forall|j: int| 0 <= j < r.len() implies nics.contains(#[trigger] r[j]) by {
            if j < before.len() {
                assert(before[j] == r[j]);
                let i = choose|i: int| 0 <= i < init.len() && init[i] == before[j];
                assert(nics[i] == r[j]);
            } else {
                assert(nics[nics.len() - 1] == r[j]);
            }
        }
        assert(r.len() == nics.len() <==> forall|i: int|
            0 <= i < nics.len() ==> (#[trigger] nics[i]).device_id@ != device_id) by {
            if r.len() == nics.len() {
                assert(before.len() == init.len());
                assert forall|i: int| 0 <= i < nics.len() implies (#[trigger] nics[i]).device_id@
                    != device_id by {
                    if i < init.len() {
                        assert(init[i] == nics[i]);
                    }
                }
            }
            if forall|i: int|
                0 <= i < nics.len() ==> (#[trigger] nics[i]).device_id@ != device_id {
                assert forall|i: int| 0 <= i < init.len() implies (#[trigger] init[i]).device_id@
                    != device_id by {
                    assert(init[i] == nics[i]);
                }
                assert(nics[nics.len() - 1].device_id@ != device_id);
            }
        }
    }
}

/// Whether a text is the name of a directory, without a separator at its end.
pub open spec fn is_plain_dir(dir: Seq<char>) -> bool {
    dir.len() > 0 && dir.last() != '/'
}

/// Whether a text is the name of an entry of a directory.
pub open spec fn is_plain_name(name: Seq<char>) -> bool {
    name.len() > 0 && name[0] != '/'
}

/// The console that a client is given is the one that the virtual machine writes to, and
/// it lies in the directory that was made for consoles.
pub proof fn console_is_that_of_the_machine(
    vm_id: &str,
    config: VmConfig,
    image_uuid: &str,
    dirs: &VmDirs,
    ch: ChVmConfig,
    located: Result<String, VmmError>,
)
    requires
        is_plain_dir(dirs.consoles@),
        is_plain_name(vm_id@),
        call_ensures(build_vm_config, (vm_id, config, image_uuid, dirs), Ok(ch)),
        call_ensures(
            CloudHypervisorAdapter::get_console_socket_path,
            (vm_id, dirs, Ok(true)),
            located,
        ),
    ensures
        located matches Ok(path) && path@ == ch.serial_socket@,
        ch.serial_socket@ == dirs.consoles@ + seq!['/'] + vm_id@ + ".console"@,
{
    reveal_strlit("/");
    assert("/"@ =~= seq!['/']);
    let name = vm_id@ + ".console"@;
    assert(name[0] == vm_id@[0]);
    assert(ch.serial_socket@ =~= dirs.consoles@ + seq!['/'] + name);
    assert(ch.serial_socket@ =~= dirs.consoles@ + seq!['/'] + vm_id@ + ".console"@);
}

/// The order of a creation in a started hypervisor: its socket is awaited and seen, the
/// directory of the consoles is made, and only then the hypervisor is given the
/// configuration, the one that the creation began with. The creation succeeds only after
/// the hypervisor has taken it.
pub proof fn creation_goes_in_order(
    vm_id: &str,
    image_uuid: &str,
    dirs: &VmDirs,
    config: VmConfig,
    begun: CreationStep,
    waited: CreationStep,
    checked: CreationStep,
    made: CreationStep,
    built: Result<ChVmConfig, VmmError>,
)
    requires
        is_plain_dir(dirs.api_sockets@),
        is_plain_name(vm_id@),
        call_ensures(
            CloudHypervisorAdapter::perform_vm_creation,
            (vm_id, image_uuid, dirs, CreationProgress::Started(config)),
            begun,
        ),
        begun matches CreationStep::WaitForSocket { path: _, config: c } && call_ensures(
            CloudHypervisorAdapter::perform_vm_creation,
            (vm_id, image_uuid, dirs, CreationProgress::SocketWaited { config: c, appeared: true }),
            waited,
        ),
        waited matches CreationStep::CheckSocket { path: _, config: c } && call_ensures(
            CloudHypervisorAdapter::perform_vm_creation,
            (vm_id, image_uuid, dirs, CreationProgress::SocketChecked { config: c, present: true }),
            checked,
        ),
        checked matches CreationStep::MakeConsoleDir { path: _, config: c } && call_ensures(
            CloudHypervisorAdapter::perform_vm_creation,
            (vm_id, image_uuid, dirs, CreationProgress::ConsoleDirMade { config: c, made: Ok(()) }),
            made,
        ) && call_ensures(build_vm_config, (vm_id, c, image_uuid, dirs), built),
    ensures
        begun matches CreationStep::WaitForSocket { path, config: _ } && path@
            == dirs.api_sockets@ + seq!['/'] + vm_id@,
        waited matches CreationStep::CheckSocket { path, config: _ } && path@ == dirs.api_sockets@
            + seq!['/'] + vm_id@,
        checked matches CreationStep::MakeConsoleDir { path, config: c } && path@ == dirs.consoles@
            && c == config,
        made is Configure <==> built is Ok,
        made matches CreationStep::Configure(ch) ==> (config.cpus matches Some(asked) ==> (
        asked.boot_vcpus <= i32::MAX ==> ch.cpus->Some_0.boot_vcpus == asked.boot_vcpus) && (
        asked.max_vcpus <= i32::MAX ==> ch.cpus->Some_0.max_vcpus == asked.max_vcpus)) && (
        config.memory matches Some(asked) ==> (asked.size_mib * 1048576 <= i64::MAX
            ==> ch.memory->Some_0.size == asked.size_mib * 1048576) && ch.memory->Some_0.hugepages
            == asked.hugepages) && ch.disk_path@ == built->Ok_0.disk_path@ && ch.serial_socket@
            == built->Ok_0.serial_socket@,
{
}

/// A creation fails where the socket does not come or goes again, where there is no place
/// for consoles and where the hypervisor refuses, and it succeeds only where the hypervisor
/// has taken the configuration.
pub proof fn creation_succeeds_only_when_configured(
    vm_id: &str,
    image_uuid: &str,
    dirs: &VmDirs,
    progress: CreationProgress,
    step: CreationStep,
)
    requires
        call_ensures(
            CloudHypervisorAdapter::perform_vm_creation,
            (vm_id, image_uuid, dirs, progress),
            step,
        ),
    ensures
        step == CreationStep::Finish(Ok(())) <==> (progress matches CreationProgress::Configured(
            Ok(_),
        )),
        step is Configure ==> (progress matches CreationProgress::ConsoleDirMade {
            config: _,
            made: Ok(_),
        }),
        (progress matches CreationProgress::SocketWaited { config: _, appeared: false }) ==> (step
            matches CreationStep::Finish(Err(VmmError::ApiConnectionFailed(_)))),
        (progress matches CreationProgress::SocketChecked { config: _, present: false }) ==> (step
            matches CreationStep::Finish(Err(VmmError::VmNotFound(id))) && id@ == vm_id@),
        (progress matches CreationProgress::ConsoleDirMade { config: _, made: Err(_) }) ==> (step
            matches CreationStep::Finish(Err(VmmError::Internal(_)))),
        (progress matches CreationProgress::Configured(Err(_))) ==> (step
            matches CreationStep::Finish(Err(VmmError::ApiOperationFailed(_)))),
{
}

/// A virtual machine counts as created, under the process of its hypervisor, if and only
/// if the hypervisor runs and has taken it; and a hypervisor that runs in vain, and no
/// other, is killed.
pub proof fn failed_hypervisor_is_killed(
    outcome: ProcessOutcome,
    r: (Result<Option<i64>, VmmError>, bool),
)
    requires
        call_ensures(CloudHypervisorAdapter::create_vm, (outcome,), r),
    ensures
        r.0 is Ok <==> (outcome matches ProcessOutcome::Created { pid: _, result: Ok(_) }),
        r.1 <==> (outcome matches ProcessOutcome::Created { pid: _, result: Err(_) }),
        outcome matches ProcessOutcome::Created { pid, result: Ok(_) } ==> match pid {
            Some(p) => r.0->Ok_0 matches Some(q) && q == p,
            None => r.0->Ok_0 is None,
        },
        outcome matches ProcessOutcome::Created { pid: _, result: Err(e) } ==> r.0 == Err::<
            Option<i64>,
            VmmError,
        >(e),
        !(outcome is Created) ==> (r.0 matches Err(VmmError::ProcessSpawnFailed(_))),
{
}

/// What a creation makes is removed: a deletion asks the hypervisor at the socket that the
/// creation waited for, kills its process where it is known, and removes that socket and
/// the one of the console; nothing else is removed and no other process is killed.
pub proof fn deletion_removes_what_creation_made(
    vm_id: &str,
    config: VmConfig,
    image_uuid: &str,
    dirs: &VmDirs,
    begun: CreationStep,
    ch: ChVmConfig,
    process_id: Option<i64>,
    steps: Vec<CleanupStep>,
)
    requires
        is_plain_dir(dirs.consoles@),
        is_plain_name(vm_id@),
        call_ensures(
            CloudHypervisorAdapter::perform_vm_creation,
            (vm_id, image_uuid, dirs, CreationProgress::Started(config)),
            begun,
        ),
        call_ensures(build_vm_config, (vm_id, config, image_uuid, dirs), Ok(ch)),
        call_ensures(CloudHypervisorAdapter::delete_vm, (vm_id, process_id, dirs), steps),
    ensures
        ({
            let s = steps@;
            let n = s.len() as int;
            let socket = begun->WaitForSocket_path@;
            &&& begun is WaitForSocket
            &&& n == (if process_id is Some {
                4int
            } else {
                3
            })
            &&& s[0] matches CleanupStep::DeleteViaApi { socket: at } && at@ == socket
            &&& s[n - 2] matches CleanupStep::RemoveSocket { path } && path@ == socket
            &&& s[n - 1] matches CleanupStep::RemoveSocket { path } && path@ == ch.serial_socket@
            &&& process_id matches Some(known) ==> (s[1] matches CleanupStep::Kill { pid } && (
            i32::MIN <= known <= i32::MAX ==> pid == known))
        }),
{
    reveal_strlit("/");
    assert("/"@ =~= seq!['/']);
    let name = vm_id@ + ".console"@;
    assert(name[0] == vm_id@[0]);
    assert(ch.serial_socket@ =~= dirs.consoles@ + seq!['/'] + name);
}

/// The state that a client is told of a virtual machine is the one that the hypervisor has
/// it in: what was shut down counts as stopped. Different states of the hypervisor are told
/// as different states.
pub proof fn told_state_is_that_of_the_hypervisor(
    vm_id: String,
    state: ChVmState,
    r: Result<VmInfo, VmmError>,
)
    requires
        call_ensures(CloudHypervisorAdapter::get_vm, (vm_id, ApiReply::Done(state)), r),
    ensures
        r matches Ok(info) && info.vm_id@ == vm_id@ && (info.state == VmState::Running <==> state
            == ChVmState::Running) && (info.state == VmState::Paused <==> state
            == ChVmState::Paused) && (info.state == VmState::Created <==> state
            == ChVmState::Created) && (info.state == VmState::Stopped <==> state
            == ChVmState::Shutdown),
{
}

/// A ping is answered with what the hypervisor says of itself; what it leaves out is empty.
pub proof fn ping_is_answered_as_it_came(
    vm_id: &str,
    ping: ChPing,
    r: Result<PingVmResponse, VmmError>,
)
    requires
        call_ensures(CloudHypervisorAdapter::ping_vm, (vm_id, ApiReply::Done(ping)), r),
    ensures
        r is Ok,
        r->Ok_0.version@ == ping.version@,
        ping.pid matches Some(pid) ==> r->Ok_0.pid == pid,
        ping.pid is None ==> r->Ok_0.pid == 0,
        ping.build_version matches Some(v) ==> r->Ok_0.build_version@ == v@,
        ping.build_version is None ==> r->Ok_0.build_version@.len() == 0,
        ping.features matches Some(f) ==> r->Ok_0.features@ == f@,
        ping.features is None ==> r->Ok_0.features@.len() == 0,
{
}

/// A command succeeds if and only if the hypervisor has carried it out; one that has no
/// hypervisor is told so by the name of the virtual machine.
pub proof fn commands_succeed_where_the_hypervisor_does(
    vm_id: &str,
    reply: ApiReply<()>,
    started: Result<(), VmmError>,
    stopped: Result<(), VmmError>,
    paused: Result<(), VmmError>,
    resumed: Result<(), VmmError>,
    nic: RemoveNicRequest,
    removed: Result<(), VmmError>,
)
    requires
        call_ensures(CloudHypervisorAdapter::start_vm, (vm_id, reply), started),
        call_ensures(CloudHypervisorAdapter::shutdown_vm, (vm_id, reply), stopped),
        call_ensures(CloudHypervisorAdapter::pause_vm, (vm_id, reply), paused),
        call_ensures(CloudHypervisorAdapter::resume_vm, (vm_id, reply), resumed),
        call_ensures(CloudHypervisorAdapter::remove_nic, (&nic, reply), removed),
    ensures
        started is Ok <==> reply is Done,
        stopped is Ok <==> reply is Done,
        paused is Ok <==> reply is Done,
        resumed is Ok <==> reply is Done,
        removed is Ok <==> reply is Done,
        reply is NoSocket ==> (started matches Err(VmmError::VmNotFound(id)) && id@ == vm_id@),
        reply is NoSocket ==> (stopped matches Err(VmmError::VmNotFound(id)) && id@ == vm_id@),
        reply is NoSocket ==> (paused matches Err(VmmError::VmNotFound(id)) && id@ == vm_id@),
        reply is NoSocket ==> (resumed matches Err(VmmError::VmNotFound(id)) && id@ == vm_id@),
        reply is NoSocket ==> (removed matches Err(VmmError::VmNotFound(id)) && id@ == nic.vm_id@),
        reply is Failed ==> (started matches Err(VmmError::ApiOperationFailed(_))) && (
        stopped matches Err(VmmError::ApiOperationFailed(_))) && (paused matches Err(
            VmmError::ApiOperationFailed(_),
        )) && (resumed matches Err(VmmError::ApiOperationFailed(_))) && (removed matches Err(
            VmmError::ApiOperationFailed(_),
        )),
{
}

/// A virtual machine is reported as crashed if and only if a ping of it failed, and its
/// monitor then ends; otherwise it ends only where that virtual machine is to be watched no
/// more.
pub proof fn crash_is_reported_when_a_ping_fails(
    vm_id: &str,
    id: u128,
    event: HealthEvent,
    action: HealthAction,
)
    requires
        call_ensures(CloudHypervisorAdapter::healthcheck_vm, (vm_id, id, event), action),
    ensures
        action is Report <==> (event matches HealthEvent::Pinged(Err(_))),
        action == HealthAction::Stop <==> event == HealthEvent::Cancelled(id),
        action matches HealthAction::Report(w) ==> w.event.vm_id@ == vm_id@ && w.process_id is None
            && (w.event.data matches Some(data) && data.change.new_state == VmState::Crashed),
{
}

} // verus!
