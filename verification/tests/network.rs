use feos::network::pci::{
    format_mac, format_pci_address, nth_next_pci_address, parse_pci_address,
};
use feos::network::setup::{
    configure_network_devices, enable_ipv6_forwarding, Lease, Prefix, SetupAction, SetupProgress,
};
use feos::network::sriov::{
    all_functions_fit, bind_device, can_cut, configure_sriov, get_device_information,
    unbind_device, vfio_bind, vfio_new_id, virtual_functions, BindHow, SriovAction, SriovProgress,
    WriteOutcome,
};

#[test]
fn pci_addresses_are_read() {
    assert_eq!(parse_pci_address("0000:03:00.1"), Ok((0, 3, 0, 1)));
    assert_eq!(parse_pci_address("ffff ff ff ff"), Ok((0xffff, 0xff, 0xff, 0xff)));
    let failed = |s: &str| parse_pci_address(s).unwrap_err();
    assert_eq!(failed("00:03.0"), "Invalid PCI address format");
    assert_eq!(failed("10000:03:00.1"), "Invalid domain");
    assert_eq!(failed("0000:100:00.1"), "Invalid bus");
    assert_eq!(failed("0000:03:xx.1"), "Invalid slot");
    assert_eq!(failed("0000:03:00."), "Invalid function");
}

#[test]
fn pci_addresses_are_counted_on() {
    assert_eq!(nth_next_pci_address((0, 3, 0, 0), 1), (0, 3, 0, 1));
    assert_eq!(nth_next_pci_address((0, 3, 0, 7), 1), (0, 3, 1, 0));
    assert_eq!(nth_next_pci_address((0, 3, 31, 7), 1), (0, 4, 0, 0));
    assert_eq!(nth_next_pci_address((0, 255, 31, 7), 1), (1, 0, 0, 0));
    let twice = nth_next_pci_address(nth_next_pci_address((0, 3, 0, 0), 13), 29);
    assert_eq!(twice, nth_next_pci_address((0, 3, 0, 0), 42));
}

#[test]
fn written_pci_addresses_read_back() {
    assert_eq!(format_pci_address((0, 0xaf, 2, 7)), "0000:af:02.7");
    for address in [(0, 3, 0, 1), (0xffff, 0xff, 0x1f, 7), (0x10, 0, 0xff, 9)] {
        assert_eq!(parse_pci_address(&format_pci_address(address)), Ok(address));
    }
    // A function of two digits is written in decimal and read in hexadecimal.
    assert_eq!(parse_pci_address(&format_pci_address((0, 0, 0, 10))), Ok((0, 0, 0, 16)));
}

#[test]
fn hardware_addresses_are_written() {
    assert_eq!(format_mac(vec![0x52, 0x54, 0, 0x12, 0xab, 0xff]), "52:54:00:12:ab:ff");
    assert_eq!(format_mac(Vec::new()), "");
}

#[test]
fn virtual_functions_follow_the_card() {
    assert_eq!(
        virtual_functions((0, 3, 0, 0), 6, 4),
        vec!["0000:03:00.6", "0000:03:00.7", "0000:03:01.0", "0000:03:01.1"]
    );
    assert!(virtual_functions((0, 3, 0, 0), 6, 0).is_empty());
}

#[test]
fn virtual_functions_are_set_up() {
    match configure_sriov(2, SriovProgress::Started) {
        SriovAction::WriteNumber { path, value } => {
            assert_eq!(path, "/sys/class/net/eth0/device/sriov_numvfs");
            assert_eq!(value, "2\n");
        }
        _ => panic!(),
    }
    match configure_sriov(2, SriovProgress::NumberWritten(WriteOutcome::Written)) {
        SriovAction::ReadLink { path } => assert_eq!(path, "/sys/class/net/eth0/device"),
        _ => panic!(),
    }
    match configure_sriov(2, SriovProgress::LinkRead(Ok("../../0000:03:00.0".to_string()))) {
        SriovAction::ReadOffset { path, pci_address } => {
            assert_eq!(path, "/sys/bus/pci/devices/0000:03:00.0/sriov_offset");
            assert_eq!(pci_address, "0000:03:00.0");
        }
        _ => panic!(),
    }
    assert!(all_functions_fit("0000:03:00.0", "1\n", 2));
    assert!(!all_functions_fit("ffff:ff:ff.7", "4294967295", 2));
    let offset = SriovProgress::OffsetRead {
        pci_address: "0000:03:00.0".to_string(),
        content: Ok("1\n".to_string()),
    };
    let functions = match configure_sriov(2, offset) {
        SriovAction::Unbind { functions, index: 0, attempt: 1 } => functions,
        _ => panic!(),
    };
    assert_eq!(functions, vec!["0000:03:00.1", "0000:03:00.2"]);
    let unbound = SriovProgress::Unbound { functions, index: 0, attempt: 1, done: true };
    let functions = match configure_sriov(2, unbound) {
        SriovAction::Bind { functions, index: 0, how: BindHow::NewId } => functions,
        _ => panic!(),
    };
    let bound = SriovProgress::Bound { functions, index: 0 };
    let mut functions = match configure_sriov(2, bound) {
        SriovAction::Unbind { functions, index: 1, attempt: 1 } => functions,
        _ => panic!(),
    };
    for attempt in 1..4 {
        let failed = SriovProgress::Unbound { functions, index: 1, attempt, done: false };
        functions = match configure_sriov(2, failed) {
            SriovAction::Sleep { functions, .. } => functions,
            _ => panic!(),
        };
        let slept = SriovProgress::Slept { functions, index: 1, attempt };
        functions = match configure_sriov(2, slept) {
            SriovAction::Unbind { functions, index: 1, attempt: next } => {
                assert_eq!(next, attempt + 1);
                functions
            }
            _ => panic!(),
        };
    }
    let slept = SriovProgress::Slept { functions, index: 1, attempt: 4 };
    assert!(matches!(configure_sriov(2, slept), SriovAction::Finish(Ok(()))));
}

#[test]
fn failed_virtual_functions() {
    let failed = |progress| match configure_sriov(2, progress) {
        SriovAction::Finish(Err(e)) => e,
        _ => panic!(),
    };
    let unwritten = WriteOutcome::NotWritten("EBUSY".to_string());
    assert_eq!(
        failed(SriovProgress::NumberWritten(unwritten)),
        "Failed to write to the file: EBUSY"
    );
    let unopened = WriteOutcome::NotOpened("ENOENT".to_string());
    assert_eq!(failed(SriovProgress::NumberWritten(unopened)), "ENOENT");
    assert_eq!(failed(SriovProgress::LinkRead(Ok("..".to_string()))), "No PCI address found");
    let offset = |pci: &str, content: &str| SriovProgress::OffsetRead {
        pci_address: pci.to_string(),
        content: Ok(content.to_string()),
    };
    assert_eq!(failed(offset("0000:03:00.0", "x")), "invalid digit found in string");
    assert_eq!(failed(offset("eth0", "1")), "Invalid PCI address format");
}

#[test]
fn devices_are_handed_over() {
    assert!(matches!(bind_device(0), BindHow::NewId));
    assert!(matches!(bind_device(1), BindHow::Bind));
    assert_eq!(unbind_device("p"), "/sys/bus/pci/devices/p/driver/unbind");
    let vendor = get_device_information("0x8086\n");
    let device = get_device_information("0x1572\n");
    assert!(can_cut(&vendor));
    assert_eq!(vfio_new_id(&vendor, &device), "8086 1572");
    assert!(!can_cut("0"));
    assert!(!can_cut("\u{20ac}"));
    assert!(can_cut("\u{e9}x"));
    assert_eq!(vfio_new_id("\u{e9}x", "ab"), "x ");
    assert_eq!(vfio_bind("0000:03:00.1"), "0000:03:00.1");
}

#[test]
fn networks_are_set_up() {
    let prefix = Prefix { address: 0x2001_0db8 << 96, length: 64 };
    let lease = Lease { address: 1, prefix: Some(prefix) };
    assert_eq!(
        enable_ipv6_forwarding(),
        ("/proc/sys/net/ipv6/conf/all/forwarding", b'1')
    );
    let step = configure_network_devices;
    assert!(matches!(step(SetupProgress::Started), SetupAction::EnableForwarding));
    match step(SetupProgress::Forwarding(Ok(()))) {
        SetupAction::FindLink { name } => assert_eq!(name, "eth0"),
        _ => panic!(),
    }
    assert!(matches!(
        step(SetupProgress::LinkFound(Ok(Some(2)))),
        SetupAction::SetLinkUp { index: 2 }
    ));
    assert!(matches!(
        step(SetupProgress::LinkUp(Ok(()))),
        SetupAction::AwaitAdvertisement { ignore_flags: true }
    ));
    assert!(matches!(
        step(SetupProgress::Advertised(Some(7))),
        SetupAction::Sleep { seconds: 4, gateway: 7 }
    ));
    assert!(matches!(
        step(SetupProgress::Waited { gateway: 7 }),
        SetupAction::RequestLease { gateway: 7 }
    ));
    assert!(matches!(
        step(SetupProgress::Leased { gateway: 7, lease: Ok(lease) }),
        SetupAction::Solicit { gateway: 7, address: 1, prefix: Some(_) }
    ));
    assert!(matches!(
        step(SetupProgress::Solicited { gateway: 7, prefix: Some(prefix) }),
        SetupAction::AddUnreachableRoute { metric: 1024, gateway: 7, .. }
    ));
    assert!(matches!(
        step(SetupProgress::Solicited { gateway: 7, prefix: None }),
        SetupAction::SetGateway { gateway: 7, prefix: None }
    ));
    match step(SetupProgress::GatewaySet { prefix: Some(prefix) }) {
        SetupAction::Finish(Ok(Some(given))) => assert_eq!(given, prefix),
        _ => panic!(),
    }
    assert!(matches!(
        step(SetupProgress::Leased { gateway: 7, lease: Err("e".to_string()) }),
        SetupAction::Finish(Ok(None))
    ));
}

#[test]
fn failed_networks() {
    let failed = |progress| match configure_network_devices(progress) {
        SetupAction::Finish(Err(e)) => e,
        _ => panic!(),
    };
    assert_eq!(
        failed(SetupProgress::Forwarding(Err("EROFS".to_string()))),
        "Failed to enable ipv6 forwarding: EROFS"
    );
    assert_eq!(failed(SetupProgress::LinkFound(Err("e".to_string()))), "eth0 not found: e");
    assert_eq!(failed(SetupProgress::LinkFound(Ok(None))), "Link not found");
    assert_eq!(
        failed(SetupProgress::LinkUp(Err("e".to_string()))),
        "eth0 can not be set up: e"
    );
}
