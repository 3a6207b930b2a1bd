//! What listeners do with packets, and how failures are told.

use carbide_dhcp::address::Ipv4Addr;
use carbide_dhcp::config::{
    Config, DhcpConfig, ForgeClientConfig, HostConfig, HostInterfaces, InterfaceInfo,
};
use carbide_dhcp::errors::DhcpError;
use carbide_dhcp::listener::{
    admit_v4, admit_v6, check_v4_packet, dispose_v6, dropped_v4, not_from_ipv6, receive_v4,
    receive_v6, sent_v6, timestamped_interface, unsent_v4, v6_socket_unavailable, ReceiveEvent,
    SocketOccasion, V4ReceiveAction, V6Disposition, V6ReceiveAction, V6SendEvent,
    MAX_PARALLEL_PACKET_HANDLING_ALLOWED, MINIMUM_DHCP_PKT_SIZE,
};
use carbide_dhcp::message::{MessageType, MessageTypeV4, OptionCode};
use carbide_dhcp::metrics::{
    DhcpV6ListenerUnavailable, DropReason, V6DropReason, V6ReplyMessageType,
};
use carbide_dhcp::modes::DhcpRecord;
use carbide_dhcp::names::encode_domain_name;
use carbide_dhcp::text::{bytes_to_hex, push_decimal, push_signed};
use carbide_dhcp::util::{
    machine_get_filename, u8_to_hex_string, v6_attempts_left, MachineArchitecture, VendorClass,
    DHCPV6_SOCKET_SETUP_ATTEMPTS,
};

fn config(host_config: Option<HostConfig>) -> Config {
    let address = Ipv4Addr { octets: [10, 20, 30, 40] };
    let dhcp_config = DhcpConfig {
        carbide_nameservers_v6: Vec::new(),
        carbide_ntpservers_v6: Vec::new(),
        carbide_dhcp_server: address,
        carbide_provisioning_server_ipv4: address,
        dhcpv6_preferred_lifetime_secs: 1,
        dhcpv6_valid_lifetime_secs: 1,
    };
    let forge = ForgeClientConfig { root_ca_path: String::new(), client_cert: None };
    Config::new(dhcp_config, host_config, 67, forge)
}

#[test]
fn dhcpv4_packets_are_taken_in_when_there_is_room_and_they_are_whole() {
    assert_eq!(MAX_PARALLEL_PACKET_HANDLING_ALLOWED, 128);
    assert!(admit_v4(true, MINIMUM_DHCP_PKT_SIZE).is_ok());
    let short = admit_v4(true, 235).expect_err("one octet is missing");
    assert_eq!(short.reason, DropReason::TooShort);
    assert_eq!(short.error, "235 bytes is below the 236-byte minimum");
    let full = admit_v4(false, 1).expect_err("there is no room");
    assert_eq!(full.reason, DropReason::RateLimited);
    assert_eq!(full.error, "parallel packet handling limit reached");
}

#[test]
fn dhcpv4_packets_come_from_ipv4() {
    assert!(matches!(check_v4_packet("192.0.2.1:68", true, &[1, 2]), Ok(1)));
    let foreign = check_v4_packet("[::1]:68", false, &[1]).expect_err("another family");
    assert_eq!(foreign.reason, DropReason::NotIpv4);
    assert_eq!(foreign.error, "source address [::1]:68 is not IPv4");
    let empty = check_v4_packet("192.0.2.1:68", true, &[]).expect_err("nothing there");
    assert_eq!(empty.error, "0 bytes is below the 236-byte minimum");
}

#[test]
fn dhcpv6_packets_are_taken_in_when_there_is_room() {
    assert!(admit_v6(true).is_ok());
    let full = admit_v6(false).expect_err("there is no room");
    assert_eq!(full.reason, V6DropReason::RateLimited);
    let foreign = not_from_ipv6("192.0.2.1:546");
    assert_eq!(foreign.reason, V6DropReason::InvalidPacket);
    assert_eq!(foreign.error, "source address 192.0.2.1:546 is not IPv6");
}

#[test]
fn receiving_decides_what_a_listener_does() {
    assert!(matches!(receive_v4(ReceiveEvent::Cancelled), V4ReceiveAction::Stop));
    assert!(matches!(receive_v4(ReceiveEvent::Failed), V4ReceiveAction::RecreateSocket));
    let received = |has_room: bool, length: usize| ReceiveEvent::Received { has_room, length };
    assert!(matches!(receive_v4(received(true, 236)), V4ReceiveAction::Serve));
    assert!(matches!(receive_v4(received(true, 10)), V4ReceiveAction::Drop(_)));
    assert!(matches!(receive_v6(ReceiveEvent::Cancelled), V6ReceiveAction::Stop));
    assert!(matches!(receive_v6(ReceiveEvent::Failed), V6ReceiveAction::RecreateSocket));
    assert!(matches!(receive_v6(received(true, 4)), V6ReceiveAction::Serve));
    assert!(matches!(receive_v6(received(false, 4)), V6ReceiveAction::Drop(_)));
}

#[test]
fn outcomes_become_events() {
    let dropped = dropped_v4(&DhcpError::UnknownPacket(7));
    assert_eq!(dropped.reason, DropReason::UnknownPacket);
    assert_eq!(dropped.error, "unknown packet: 7");
    assert_eq!(unsent_v4("no route".to_string()).reason, DropReason::SendFailed);
    assert!(matches!(dispose_v6(Ok(None)), V6Disposition::Discard));
    match dispose_v6(Err(DhcpError::MalformedDuid)) {
        V6Disposition::Drop(event) => {
            assert_eq!(event.reason, V6DropReason::MalformedDuid);
            assert_eq!(event.error, "malformed DHCPv6 client DUID");
        }
        other => panic!("expected a drop, got {other:?}"),
    }
    match sent_v6(V6ReplyMessageType::Advertise, None) {
        V6SendEvent::Sent(event) => {
            assert_eq!(event.message_type, V6ReplyMessageType::Advertise);
        }
        other => panic!("expected a reply, got {other:?}"),
    }
    match sent_v6(V6ReplyMessageType::Reply, Some("no route".to_string())) {
        V6SendEvent::Failed(event) => {
            assert_eq!(event.reason, V6DropReason::SendFailed);
            assert_eq!(event.error, "no route");
        }
        other => panic!("expected a failure, got {other:?}"),
    }
    let unavailable =
        v6_socket_unavailable(SocketOccasion::Start, "eth0".to_string(), "gone".to_string());
    assert!(matches!(
        unavailable,
        DhcpV6ListenerUnavailable::InitialSocketSetup { interface_name, .. }
            if interface_name == "eth0"
    ));
    let unavailable =
        v6_socket_unavailable(SocketOccasion::Recreation, "eth1".to_string(), "gone".to_string());
    assert!(matches!(
        unavailable,
        DhcpV6ListenerUnavailable::SocketRecreation { error, .. } if error == "gone"
    ));
}

#[test]
fn attempts_at_a_dhcpv6_socket_run_out() {
    let mut attempts = 1;
    let mut left = DHCPV6_SOCKET_SETUP_ATTEMPTS;
    while let Some(fewer) = v6_attempts_left(left) {
        assert_eq!(fewer, left - 1);
        left = fewer;
        attempts += 1;
    }
    assert_eq!(attempts, 10);
}

#[test]
fn only_a_dpu_records_times() {
    let host = HostConfig {
        host_interface_id: "an-id".to_string(),
        host_ip_addresses: HostInterfaces::new(),
    };
    assert_eq!(timestamped_interface(&config(Some(host))).as_deref(), Some("an-id"));
    assert_eq!(timestamped_interface(&config(None)), None);
}

#[test]
fn interfaces_are_found_by_name() {
    let info = |prefix: &str| InterfaceInfo {
        address: Ipv4Addr { octets: [1, 2, 3, 4] },
        gateway: Ipv4Addr { octets: [1, 2, 3, 1] },
        prefix: prefix.to_string(),
        fqdn: String::new(),
        booturl: None,
        mtu: None,
        ipv6: None,
    };
    let interfaces = HostInterfaces::new()
        .insert("a".to_string(), info("first"))
        .insert("b".to_string(), info("second"))
        .insert("a".to_string(), info("third"));
    assert_eq!(interfaces.get("a").map(|found| found.prefix.as_str()), Some("third"));
    assert_eq!(interfaces.get("b").map(|found| found.prefix.as_str()), Some("second"));
    assert!(interfaces.get("c").is_none());
}

#[test]
fn every_error_is_told() {
    let text = |text: &str| text.to_string();
    let rows = [
        (DhcpError::IoError(text("e")), "IO error: e"),
        (DhcpError::SerdeYaml(text("e")), "serde_yaml: e"),
        (DhcpError::MissingArgument(text("e")), "missing argument: e"),
        (DhcpError::MissingOption(text("MessageType")), "missing option: MessageType"),
        (
            DhcpError::UnhandledMessageType(MessageTypeV4::Unknown(9)),
            "missing message type: Unknown(9)",
        ),
        (
            DhcpError::DhcpDeclineMessage(text("10.0.0.1"), text("a\"b")),
            "DhcpDecline message received for IP: 10.0.0.1, mac: \"a\\\"b\"",
        ),
        (DhcpError::MissingRelayCode(text("LinkSelection")), "missing relay code: LinkSelection"),
        (DhcpError::InvalidInput(text("e")), "invalid input: e"),
        (DhcpError::GenericError(text("e")), "generic error: e"),
        (DhcpError::TonicStatusError(text("e")), "GRPC failure: e"),
        (DhcpError::Utf8Error(text("e")), "utf8 decoding failure: e"),
        (DhcpError::PacketDecodeFailure(text("e")), "utf8 decoding failure: e"),
        (DhcpError::PacketEncodeFailure(text("e")), "utf8 decoding failure: e"),
        (DhcpError::AddressParseError(text("e")), "utf8 decoding failure: e"),
        (
            DhcpError::NonRelayedPacket(Ipv4Addr { octets: [192, 0, 2, 255] }),
            "non relayed packet received: 192.0.2.255. dropping!",
        ),
        (DhcpError::UnknownPacket(255), "unknown packet: 255"),
        (DhcpError::NotMyPacket(text("e")), "packet received for other server: e"),
        (DhcpError::VendorClassParseError(text("e\n")), "vendor class parse error: \"e\\n\""),
        (
            DhcpError::MultipleInterfacesProvidedOneSupported(12),
            "multiple interfaces are provided, but only 1 is supported: 12",
        ),
        (DhcpError::MissingOptionV6(OptionCode::IANA), "missing DHCPv6 option: IANA"),
        (
            DhcpError::UnhandledMessageTypeV6(MessageType::RelayRepl),
            "unhandled DHCPv6 message type: RelayRepl",
        ),
        (DhcpError::MalformedDuid, "malformed DHCPv6 client DUID"),
        (DhcpError::UnsupportedDuidType(258), "unsupported DHCPv6 DUID type: 258"),
        (
            DhcpError::NoMacNoOption79,
            "DHCPv6 client identity has no MAC and relay option 79 is absent",
        ),
        (DhcpError::NestedRelayV6, "nested DHCPv6 relay messages are unsupported"),
        (
            DhcpError::RelayHopCountExceededV6(3),
            "DHCPv6 relay hop count 3 is invalid for the supported single-envelope path",
        ),
    ];
    for (error, expected) in rows {
        assert_eq!(error.message(), expected);
    }
}

#[test]
fn names_are_written_as_labels() {
    let encoded = encode_domain_name("host.example.com.").expect("a name");
    assert_eq!(encoded, b"\x04host\x07example\x03com\0");
    assert_eq!(encode_domain_name("host.example.com").expect("a name"), encoded);
    let long = "a".repeat(64);
    for bad in ["", ".", "a..b", ".a", long.as_str()] {
        let error = encode_domain_name(bad).expect_err("no name");
        assert!(matches!(error, DhcpError::InvalidInput(_)), "{bad:?}");
    }
    assert_eq!(encode_domain_name(&"a".repeat(63)).expect("a label").len(), 65);
}

#[test]
fn numbers_and_octets_become_text() {
    let mut text = String::new();
    push_decimal(&mut text, 0);
    text.push(' ');
    push_decimal(&mut text, u64::MAX);
    text.push(' ');
    push_signed(&mut text, i32::MIN);
    text.push(' ');
    push_signed(&mut text, 17);
    assert_eq!(text, "0 18446744073709551615 -2147483648 17");
    assert_eq!(bytes_to_hex(&[0, 0x0f, 0xa0, 0xff]), "000fa0ff");
    assert_eq!(u8_to_hex_string("naïve".as_bytes()).expect("text"), "naïve");
    assert!(matches!(u8_to_hex_string(&[0x80]), Err(DhcpError::Utf8Error(_))));
}

#[test]
fn machines_boot_from_where_they_are_told() {
    let config = config(None);
    let record = |booturl: Option<&str>| DhcpRecord {
        machine_id: None,
        machine_interface_id: None,
        segment_id: None,
        subdomain_id: None,
        fqdn: String::new(),
        mac_address: String::new(),
        address: String::new(),
        mtu: 0,
        prefix: String::new(),
        gateway: None,
        booturl: booturl.map(str::to_string),
        last_invalidation_time: None,
        ntp_servers: Vec::new(),
    };
    let filename = |booturl: Option<&str>, netboot: bool, arch: MachineArchitecture| {
        let octets = machine_get_filename(&record(booturl), &VendorClass { netboot, arch }, &config);
        String::from_utf8(octets).expect("a URL is text")
    };
    assert_eq!(
        filename(None, true, MachineArchitecture::EfiX64),
        "http://10.20.30.40:8080/public/blobs/internal/x86_64/ipxe.efi"
    );
    assert_eq!(
        filename(None, true, MachineArchitecture::Arm64),
        "http://10.20.30.40:8080/public/blobs/internal/aarch64/ipxe.efi"
    );
    assert_eq!(filename(None, true, MachineArchitecture::BiosX86), "");
    assert_eq!(filename(None, true, MachineArchitecture::Unknown), "");
    assert_eq!(filename(None, false, MachineArchitecture::EfiX64), "");
    assert_eq!(filename(Some("tftp://x"), false, MachineArchitecture::Unknown), "tftp://x");
}
