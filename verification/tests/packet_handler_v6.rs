//! Serving DHCPv6 packets.

use carbide_dhcp::address::{Ipv4Addr, Ipv6Addr};
use carbide_dhcp::codec::Message;
use carbide_dhcp::config::{
    Config, DhcpConfig, ForgeClientConfig, HostConfig, HostInterfaces, InterfaceInfo,
    InterfaceInfoV6,
};
use carbide_dhcp::duid::{extract_mac_from_duid, DuidMac};
use carbide_dhcp::errors::DhcpError;
use carbide_dhcp::message::{MessageType, RELAY_FORWARD, RELAY_REPLY};
use carbide_dhcp::metrics::{MessageTypeLabel, V6ReplyMessageType};
use carbide_dhcp::modes::{
    AddressFamily, DhcpDiscovery, DhcpMode, DhcpRecord, Dpu, MessageKind, RequestedKind, V6Outcome,
};
use carbide_dhcp::options::{ClientOption, OptionList, ServerOption};
use carbide_dhcp::listener::received_v6;
use carbide_dhcp::packet_handler_v6::{
    due_warning, finish_request, process_packet, start_request, Step,
};
use carbide_dhcp::decode::RelayEnvelope;
use carbide_dhcp::raw::parse_raw_options;
use carbide_dhcp::reply::{add_config_options, can_encode, wrap_relay_reply, PacketV6};
use carbide_dhcp::request::{
    client_identifier, ensure_server_identifier, server_identifier, DecodedPacketV6,
    IdentityWarning,
};
use dhcproto::v6;
use dhcproto::v6::{DhcpOption, DhcpOptions, OptionCode, Status};
use dhcproto::{Decodable, Decoder, Encodable, Encoder};

const DUID_LL: &[u8] = &[0, 3, 0, 1, 2, 0xaa, 0xbb, 0xcc, 0xdd, 0xee];
const DUID_UUID: &[u8] = &[0, 4, 0, 1, 2, 3, 4, 5, 6, 7, 8, 9, 10, 11, 12, 13, 14, 15];
const IAID: u32 = 0x0102_0304;
const SERVER_IDENTIFIER: &[u8] = &[0, 2, 0, 0, 0x16, 0x47, 127, 0, 0, 1];
const OPTION79: &[u8] = &[0, 1, 2, 0xaa, 0xbb, 0xcc, 0xdd, 0xee];
const INTERFACE: &str = "eth0";

fn outside_address(text: &str) -> core::net::Ipv6Addr {
    text.parse().expect("an IPv6 address")
}

fn address(text: &str) -> Ipv6Addr {
    Ipv6Addr { octets: outside_address(text).octets() }
}

fn base_dhcp_config() -> DhcpConfig {
    DhcpConfig {
        carbide_nameservers_v6: vec![address("2001:db8::53")],
        carbide_ntpservers_v6: vec![address("2001:db8::123")],
        carbide_dhcp_server: Ipv4Addr { octets: [127, 0, 0, 1] },
        carbide_provisioning_server_ipv4: Ipv4Addr { octets: [127, 0, 0, 1] },
        dhcpv6_preferred_lifetime_secs: 3600,
        dhcpv6_valid_lifetime_secs: 7200,
    }
}

fn forge_config() -> ForgeClientConfig {
    ForgeClientConfig { root_ca_path: String::new(), client_cert: None }
}

fn interface_info(ipv6: Option<InterfaceInfoV6>) -> InterfaceInfo {
    InterfaceInfo {
        address: Ipv4Addr { octets: [192, 0, 2, 20] },
        gateway: Ipv4Addr { octets: [192, 0, 2, 1] },
        prefix: "192.0.2.0/24".to_string(),
        fqdn: "host.example.com".to_string(),
        booturl: None,
        mtu: Some(9000),
        ipv6,
    }
}

fn interface_v6(assigned: Option<&str>, prefix: &str) -> InterfaceInfoV6 {
    InterfaceInfoV6 { address: assigned.map(address), prefix: prefix.to_string() }
}

fn dpu_config_with_bindings(host_ip_addresses: HostInterfaces) -> Config {
    let host_config = HostConfig {
        host_interface_id: "0fd6e9a3-06fc-4a22-ad29-aca299677b00".to_string(),
        host_ip_addresses,
    };
    Config::new(base_dhcp_config(), Some(host_config), 67, forge_config())
}

fn dpu_config(interface: &str, ipv6: InterfaceInfoV6) -> Config {
    dpu_config_with_bindings(
        HostInterfaces::new().insert(interface.to_string(), interface_info(Some(ipv6))),
    )
}

/// A DPU with an address on `eth0` and another on `eth1`.
fn two_interfaces() -> Config {
    dpu_config_with_bindings(
        HostInterfaces::new()
            .insert(
                "eth0".to_string(),
                interface_info(Some(interface_v6(Some("2001:db8::20"), "2001:db8::/64"))),
            )
            .insert(
                "eth1".to_string(),
                interface_info(Some(interface_v6(Some("2001:db8:1::20"), "2001:db8:1::/64"))),
            ),
    )
}

fn controller_config_with_lifetimes(preferred_lifetime: u32, valid_lifetime: u32) -> Config {
    let mut dhcp_config = base_dhcp_config();
    dhcp_config.dhcpv6_preferred_lifetime_secs = preferred_lifetime;
    dhcp_config.dhcpv6_valid_lifetime_secs = valid_lifetime;
    Config::new(dhcp_config, None, 67, forge_config())
}

fn controller_config() -> Config {
    controller_config_with_lifetimes(3600, 7200)
}

/// A controller whose API answers every question alike, and which keeps the questions.
struct Controller {
    fails: bool,
    asked: core::cell::RefCell<Vec<DhcpDiscovery>>,
}

impl Controller {
    fn new() -> Self {
        Controller { fails: false, asked: core::cell::RefCell::new(Vec::new()) }
    }
}

impl DhcpMode for Controller {
    fn discover_dhcp_v6(
        &self,
        discovery_request: DhcpDiscovery,
        _config: &Config,
    ) -> Result<V6Outcome, DhcpError> {
        let mac_address = discovery_request.mac_address.clone();
        self.asked.borrow_mut().push(discovery_request);
        if self.fails {
            return Err(DhcpError::GenericError("the API is gone".to_string()));
        }
        Ok(V6Outcome::Stateful(record("2001:db8::ee", "host.example.com", &mac_address)))
    }

    fn discover_dhcp(
        &self,
        _discovery_request: DhcpDiscovery,
        _config: &Config,
    ) -> Result<DhcpRecord, DhcpError> {
        Ok(record("192.0.2.30", "host.example.com", ""))
    }
}

fn record(address: &str, fqdn: &str, mac_address: &str) -> DhcpRecord {
    DhcpRecord {
        machine_id: None,
        machine_interface_id: None,
        segment_id: None,
        subdomain_id: None,
        fqdn: fqdn.to_string(),
        mac_address: mac_address.to_string(),
        address: address.to_string(),
        mtu: 0,
        prefix: "2001:db8::/64".to_string(),
        gateway: None,
        booturl: None,
        last_invalidation_time: None,
        ntp_servers: Vec::new(),
    }
}

/// A client's message. An identity association is in it when `address` is there, or when the
/// message is a SOLICIT or a REQUEST.
fn client_message(
    message_type: v6::MessageType,
    duid: &[u8],
    address: Option<&str>,
    server_id: Option<&[u8]>,
) -> v6::Message {
    let mut message = v6::Message::new_with_id(message_type, [0xaa, 0xbb, 0xcc]);
    message.opts_mut().insert(DhcpOption::ClientId(duid.to_vec()));
    if let Some(server_id) = server_id {
        message.opts_mut().insert(DhcpOption::ServerId(server_id.to_vec()));
    }
    if address.is_some()
        || matches!(message_type, v6::MessageType::Solicit | v6::MessageType::Request)
    {
        let mut options = DhcpOptions::new();
        if let Some(address) = address {
            options.insert(DhcpOption::IAAddr(v6::IAAddr {
                addr: outside_address(address),
                preferred_life: 300,
                valid_life: 600,
                opts: DhcpOptions::new(),
            }));
        }
        message.opts_mut().insert(association(options));
    }
    message
}

fn association(opts: DhcpOptions) -> DhcpOption {
    DhcpOption::IANA(v6::IANA { id: IAID, t1: 0, t2: 0, opts })
}

fn encode(message: &v6::Message) -> Vec<u8> {
    let mut packet = Vec::new();
    message.encode(&mut Encoder::new(&mut packet)).expect("the message encodes");
    packet
}

fn decode_message(packet: &[u8]) -> v6::Message {
    v6::Message::decode(&mut Decoder::new(packet)).expect("the response decodes")
}

fn decode_response(packet: &PacketV6) -> v6::Message {
    decode_message(packet.encoded_packet())
}

fn response_ia_na(response: &v6::Message) -> &v6::IANA {
    match response.opts().get(OptionCode::IANA) {
        Some(DhcpOption::IANA(association)) => association,
        other => panic!("expected response IA_NA, got {other:?}"),
    }
}

fn response_address(response: &v6::Message) -> &v6::IAAddr {
    match response_ia_na(response).opts.get(OptionCode::IAAddr) {
        Some(DhcpOption::IAAddr(address)) => address,
        other => panic!("expected an address, got {other:?}"),
    }
}

fn assert_ia_na_failure(response: &v6::Message, expected_status: Status) {
    assert!(response.opts().get(OptionCode::StatusCode).is_none());
    let association = response_ia_na(response);
    assert_eq!(association.id, IAID);
    assert!(association.opts.get(OptionCode::IAAddr).is_none());
    match association.opts.get(OptionCode::StatusCode) {
        Some(DhcpOption::StatusCode(status)) => assert_eq!(status.status, expected_status),
        other => panic!("expected nested IA_NA status, got {other:?}"),
    }
}

fn response_status(response: &v6::Message) -> Status {
    match response.opts().get(OptionCode::StatusCode) {
        Some(DhcpOption::StatusCode(status)) => status.status,
        other => panic!("expected response status, got {other:?}"),
    }
}

fn raw_option(code: u16, payload: &[u8]) -> Vec<u8> {
    let mut option = Vec::new();
    option.extend_from_slice(&code.to_be_bytes());
    option.extend_from_slice(&(payload.len() as u16).to_be_bytes());
    option.extend_from_slice(payload);
    option
}

/// A one-hop Relay-Forward envelope. Empty metadata is left out.
fn relay_forward(inner: &[u8], interface_id: &[u8], option79: &[u8]) -> Vec<u8> {
    let mut relay = vec![RELAY_FORWARD, 0];
    relay.extend_from_slice(&outside_address("2001:db8::1").octets());
    relay.extend_from_slice(&outside_address("fe80::1").octets());
    if !interface_id.is_empty() {
        relay.extend(raw_option(18, interface_id));
    }
    if !option79.is_empty() {
        relay.extend(raw_option(79, option79));
    }
    relay.extend(raw_option(9, inner));
    relay
}

/// The payload of an option of a relay envelope.
fn relay_option(packet: &[u8], code: u16) -> &[u8] {
    let mut options = &packet[34..];
    while !options.is_empty() {
        let current = u16::from_be_bytes([options[0], options[1]]);
        let length = u16::from_be_bytes([options[2], options[3]]) as usize;
        let (payload, rest) = options[4..].split_at(length);
        if current == code {
            return payload;
        }
        options = rest;
    }
    panic!("relay option {code} is absent")
}

/// Serve a packet in DPU mode.
fn serve(packet: &[u8], config: &Config, interface: &str) -> Result<Option<PacketV6>, DhcpError> {
    process_packet(packet, address("fe80::20"), config, interface, &Dpu {})
}

fn served(message: &v6::Message, config: &Config) -> v6::Message {
    let packet = serve(&encode(message), config, INTERFACE)
        .expect("the request is valid")
        .expect("the request is answered");
    decode_response(&packet)
}

#[test]
fn client_identifier_requires_one_nonempty_option() {
    let client_id = vec![0, 3, 0, 1, 2, 3, 4, 5, 6, 7];
    let other_client_id = vec![0, 3, 10, 11, 12, 13, 14, 15, 16, 17];
    let rows: [(Vec<Vec<u8>>, Option<Vec<u8>>); 7] = [
        (vec![client_id.clone()], Some(client_id.clone())),
        (vec![], None),
        (vec![Vec::new()], None),
        (vec![vec![0, 3]], None),
        (vec![vec![0]], None),
        (vec![client_id.clone(), client_id.clone()], None),
        (vec![client_id, other_client_id], None),
    ];
    for (identifiers, expected) in rows {
        let mut options = OptionList::new();
        for identifier in &identifiers {
            options = options.insert(ServerOption::ClientId(identifier.clone()));
        }
        let message = Message { msg_type: MessageType::Solicit, xid: [0, 0, 0], options };
        let found = client_identifier(&message).ok().map(|(duid, _)| duid);
        assert_eq!(found, expected, "{identifiers:?}");
    }
}

#[test]
fn server_identifier_enforces_message_presence_matrix_and_cardinality() {
    let config = controller_config();
    let own = server_identifier(&config);
    let other = vec![0xff];
    let absent: Vec<Vec<u8>> = vec![];
    let this_server = vec![own.clone()];
    let other_server = vec![other.clone()];
    let duplicate_same = vec![own.clone(), own.clone()];
    let duplicate_mixed = vec![own.clone(), other];

    let rows = [
        (MessageType::Solicit, &absent, true),
        (MessageType::Solicit, &this_server, false),
        (MessageType::Request, &this_server, true),
        (MessageType::Request, &absent, false),
        (MessageType::Request, &other_server, false),
        (MessageType::Confirm, &absent, true),
        (MessageType::Confirm, &this_server, false),
        (MessageType::Renew, &this_server, true),
        (MessageType::Renew, &absent, false),
        (MessageType::Renew, &other_server, false),
        (MessageType::Rebind, &absent, true),
        (MessageType::Rebind, &this_server, false),
        (MessageType::Release, &this_server, true),
        (MessageType::Release, &absent, false),
        (MessageType::Release, &other_server, false),
        (MessageType::Decline, &this_server, true),
        (MessageType::Decline, &absent, false),
        (MessageType::Decline, &other_server, false),
        (MessageType::InformationRequest, &absent, true),
        (MessageType::InformationRequest, &this_server, true),
        (MessageType::InformationRequest, &other_server, false),
        (MessageType::Request, &duplicate_same, false),
        (MessageType::Request, &duplicate_mixed, false),
    ];
    for (msg_type, identifiers, accepted) in rows {
        let mut options = OptionList::new();
        for identifier in identifiers {
            options = options.insert(ServerOption::ServerId(identifier.clone()));
        }
        let message = Message { msg_type, xid: [0, 0, 0], options };
        assert_eq!(
            ensure_server_identifier(&message, &config).is_ok(),
            accepted,
            "{msg_type:?} {identifiers:?}"
        );
    }
}

#[test]
fn enforces_dns_name_wire_limit_separately_from_client_fqdn_flags() {
    let three_maximum_labels = ["a".repeat(63), "b".repeat(63), "c".repeat(63)].join(".");
    let maximum_name = format!("{three_maximum_labels}.{}", "d".repeat(61));
    let overlong_name = format!("{three_maximum_labels}.{}", "d".repeat(62));
    let mut config = controller_config();
    config.dhcp_config.carbide_nameservers_v6 = Vec::new();
    config.dhcp_config.carbide_ntpservers_v6 = Vec::new();

    let rows = [(maximum_name, Some((256, Some(1), Some(0)))), (overlong_name, None)];
    for (fqdn, expected) in rows {
        let found = match add_config_options(OptionList::new(), Some(&fqdn), Some(1), &config) {
            Ok(list) => match &list.get_all(39)[..] {
                [ClientOption::Unknown(payload)] => {
                    Some((payload.len(), payload.first().copied(), payload.last().copied()))
                }
                other => panic!("expected one client name, got {other:?}"),
            },
            Err(_) => None,
        };
        assert_eq!(found, expected, "{fqdn}");
    }
}

#[test]
fn stateful_solicit_returns_advertise_with_binding_identity() {
    let config = dpu_config("lo", interface_v6(Some("2001:db8::20"), "2001:db8::/64"));
    let request = client_message(v6::MessageType::Solicit, DUID_LL, None, None);
    let packet = process_packet(&encode(&request), address("::1"), &config, "lo", &Dpu {})
        .expect("stateful SOLICIT is valid")
        .expect("stateful SOLICIT receives a response");
    assert_eq!(packet.message_type, V6ReplyMessageType::Advertise);
    let response = decode_response(&packet);

    assert_eq!(response.msg_type(), v6::MessageType::Advertise);
    assert_eq!(response.xid(), [0xaa, 0xbb, 0xcc]);
    assert_eq!(
        response.opts().get(OptionCode::ServerId),
        Some(&DhcpOption::ServerId(SERVER_IDENTIFIER.to_vec()))
    );
    assert_eq!(
        response.opts().get(OptionCode::ClientId),
        Some(&DhcpOption::ClientId(DUID_LL.to_vec()))
    );
    assert_eq!(response_ia_na(&response).id, IAID);
    let assigned = response_address(&response);
    assert_eq!(assigned.addr, outside_address("2001:db8::20"));
    assert_eq!(assigned.preferred_life, 3600);
    assert_eq!(assigned.valid_life, 7200);
}

#[test]
fn fqdn_options_follow_client_negotiation_and_api_ownership() {
    let config = dpu_config(INTERFACE, interface_v6(Some("2001:db8::20"), "2001:db8::/64"));
    let rows: [(v6::MessageType, Option<&[u8]>, Option<&[u8]>); 3] = [
        (v6::MessageType::Solicit, None, None),
        (v6::MessageType::InformationRequest, Some(b""), None),
        (
            v6::MessageType::InformationRequest,
            Some(b"\x01\x06client\x07invalid\0"),
            Some(b"\x01\x04host\x07example\x03com\0"),
        ),
    ];
    for (message_type, client_fqdn, expected) in rows {
        let mut request = client_message(message_type, DUID_LL, None, None);
        if let Some(client_fqdn) = client_fqdn {
            request.opts_mut().insert(DhcpOption::Unknown(v6::UnknownOption::new(
                OptionCode::ClientFqdn,
                client_fqdn.to_vec(),
            )));
        }
        let response = served(&request, &config);
        match response.opts().get(OptionCode::DomainSearchList) {
            Some(DhcpOption::DomainSearchList(domains)) => {
                let domains: Vec<String> = domains.iter().map(|domain| domain.to_ascii()).collect();
                assert_eq!(domains, ["example.com."]);
            }
            other => panic!("expected domain-search option, got {other:?}"),
        }
        let told = match response.opts().get(OptionCode::ClientFqdn) {
            Some(DhcpOption::Unknown(option)) => Some(option.data()),
            None => None,
            other => panic!("expected raw client-FQDN option, got {other:?}"),
        };
        assert_eq!(told, expected, "{message_type:?} {client_fqdn:?}");
    }
}

#[test]
fn dpu_confirm_with_known_prefix_returns_success() {
    let config = dpu_config(INTERFACE, interface_v6(Some("2001:db8::20"), "2001:db8::/64"));
    let request = client_message(v6::MessageType::Confirm, DUID_LL, Some("2001:db8::99"), None);
    assert_eq!(response_status(&served(&request, &config)), Status::Success);
}

#[test]
fn slaac_only_interface_separates_stateful_and_information_requests() {
    let config = dpu_config(INTERFACE, interface_v6(None, "2001:db8::/64"));
    let solicit = client_message(v6::MessageType::Solicit, DUID_LL, None, None);
    let advertise = served(&solicit, &config);
    assert_eq!(advertise.msg_type(), v6::MessageType::Advertise);
    assert_ia_na_failure(&advertise, Status::NoAddrsAvail);

    let information = client_message(v6::MessageType::InformationRequest, DUID_LL, None, None);
    let response = served(&information, &config);
    assert_eq!(response.msg_type(), v6::MessageType::Reply);
    assert!(response.opts().get(OptionCode::IANA).is_none());
    assert_eq!(
        response.opts().get(OptionCode::DomainNameServers),
        Some(&DhcpOption::DomainNameServers(vec![outside_address("2001:db8::53")]))
    );
    assert_eq!(
        response.opts().get(OptionCode::NtpServer),
        Some(&DhcpOption::NtpServer(vec![v6::NtpSuboption::ServerAddress(outside_address(
            "2001:db8::123"
        ))]))
    );
}

#[test]
fn renew_for_unknown_address_returns_no_binding() {
    let config = dpu_config(INTERFACE, interface_v6(Some("2001:db8::20"), "2001:db8::/64"));
    let renew = client_message(
        v6::MessageType::Renew,
        DUID_LL,
        Some("2001:db8::99"),
        Some(SERVER_IDENTIFIER),
    );
    assert_ia_na_failure(&served(&renew, &config), Status::NoBinding);
}

#[test]
fn addressless_renew_and_rebind_return_no_binding() {
    let config = dpu_config(INTERFACE, interface_v6(Some("2001:db8::20"), "2001:db8::/64"));
    let rows = [
        (v6::MessageType::Renew, Some(SERVER_IDENTIFIER)),
        (v6::MessageType::Rebind, None),
    ];
    for (message_type, server_id) in rows {
        let mut refresh = client_message(message_type, DUID_LL, None, server_id);
        refresh.opts_mut().insert(association(DhcpOptions::new()));
        assert_ia_na_failure(&served(&refresh, &config), Status::NoBinding);
    }
}

#[test]
fn slaac_only_binding_returns_message_specific_failure() {
    let config = dpu_config(INTERFACE, interface_v6(None, "2001:db8::/64"));
    let rows = [
        (v6::MessageType::Request, Status::NoAddrsAvail),
        (v6::MessageType::Renew, Status::NoBinding),
    ];
    for (message_type, expected_status) in rows {
        let request =
            client_message(message_type, DUID_LL, Some("2001:db8::99"), Some(SERVER_IDENTIFIER));
        assert_ia_na_failure(&served(&request, &config), expected_status);
    }
}

#[test]
fn direct_non_mac_duid_uses_ingress_interface() {
    let request = client_message(v6::MessageType::Solicit, DUID_UUID, None, None);
    let response = served(&request, &two_interfaces());
    assert_eq!(response.msg_type(), v6::MessageType::Advertise);
    assert_eq!(response_address(&response).addr, outside_address("2001:db8::20"));
}

#[test]
fn direct_malformed_duid_is_rejected_before_ingress_lookup() {
    let request = encode(&client_message(v6::MessageType::Solicit, &[0], None, None));
    let error = serve(&request, &two_interfaces(), INTERFACE)
        .expect_err("malformed DUID must fail before DPU binding selection");
    assert!(matches!(error, DhcpError::MalformedDuid));
}

#[test]
fn dpu_rejects_relay_forward() {
    let inner = encode(&client_message(v6::MessageType::Solicit, DUID_UUID, None, None));
    let request = relay_forward(&inner, b"eth1", &[]);
    let error = serve(&request, &two_interfaces(), INTERFACE)
        .expect_err("DPU mode must reject relayed DHCPv6");
    assert!(matches!(
        error,
        DhcpError::InvalidInput(message) if message == "DPU mode requires a direct DHCPv6 packet"
    ));
}

#[test]
fn controller_lease_end_messages_require_selected_mac_identity() {
    let config = controller_config();
    for message_type in [v6::MessageType::Release, v6::MessageType::Decline] {
        let inner = encode(&client_message(
            message_type,
            DUID_UUID,
            Some("2001:db8::20"),
            Some(SERVER_IDENTIFIER),
        ));
        let controller = Controller::new();
        let without_identity = relay_forward(&inner, b"swp1", &[]);
        let error =
            process_packet(&without_identity, address("fe80::20"), &config, "eth0", &controller)
                .expect_err("controller lease-end identity requires a usable MAC source");
        assert!(matches!(error, DhcpError::NoMacNoOption79));

        let with_identity = relay_forward(&inner, b"swp1", OPTION79);
        let packet =
            process_packet(&with_identity, address("fe80::20"), &config, "eth0", &controller)
                .expect("relay option 79 provides controller lease-end identity")
                .expect("controller returns a local lease-end reply");
        let response = decode_message(relay_option(packet.encoded_packet(), 9));
        assert_eq!(response.msg_type(), v6::MessageType::Reply);
        assert_eq!(response_status(&response), Status::Success);
        assert!(controller.asked.borrow().is_empty());
    }
}

#[test]
fn dpu_lease_end_messages_keep_ingress_identity_policy() {
    let config = two_interfaces();
    for message_type in [v6::MessageType::Release, v6::MessageType::Decline] {
        let request = client_message(
            message_type,
            DUID_UUID,
            Some("2001:db8::20"),
            Some(SERVER_IDENTIFIER),
        );
        let response = served(&request, &config);
        assert_eq!(response.msg_type(), v6::MessageType::Reply);
        assert_eq!(response_status(&response), Status::Success);
    }
}

#[test]
fn local_replies_do_not_acknowledge_temporary_or_prefix_associations() {
    let config = two_interfaces();
    let temporary = DhcpOption::IATA(v6::IATA { id: 7, opts: DhcpOptions::new() });
    let prefix = DhcpOption::IAPD(v6::IAPD { id: 7, t1: 0, t2: 0, opts: DhcpOptions::new() });
    let rows = [
        (v6::MessageType::Confirm, MessageType::Confirm, &temporary),
        (v6::MessageType::Release, MessageType::Release, &prefix),
        (v6::MessageType::Decline, MessageType::Decline, &temporary),
    ];
    for (wire_type, message_type, unsupported) in rows {
        let server_id = match message_type {
            MessageType::Confirm => None,
            _ => Some(SERVER_IDENTIFIER),
        };
        let mut message = client_message(wire_type, DUID_UUID, Some("2001:db8::20"), server_id);
        message.opts_mut().insert(unsupported.clone());
        let error = serve(&encode(&message), &config, INTERFACE)
            .expect_err("unsupported association must not receive a local success reply");
        assert!(
            matches!(&error, DhcpError::UnhandledMessageTypeV6(actual) if *actual == message_type),
            "{message_type:?} returned {error:?}"
        );
    }
}

#[test]
fn controller_non_mac_duids_require_relay_identity() {
    let config = controller_config();
    for duid in [DUID_UUID, &[0, 99, 0, 1, 2, 3]] {
        let inner = encode(&client_message(v6::MessageType::Solicit, duid, None, None));
        let request = relay_forward(&inner, b"swp1", &[]);
        let controller = Controller::new();
        let error = process_packet(&request, address("fe80::20"), &config, "eth0", &controller)
            .expect_err("controller identity requires a usable MAC source");
        assert!(matches!(error, DhcpError::NoMacNoOption79));
        assert!(controller.asked.borrow().is_empty());
    }
}

#[test]
fn unsupported_relay_depth_is_rejected() {
    let config = two_interfaces();
    let inner = encode(&client_message(v6::MessageType::Solicit, DUID_UUID, None, None));
    let nested = relay_forward(&relay_forward(&inner, b"swp1", OPTION79), b"swp2", OPTION79);
    let error = serve(&nested, &config, INTERFACE).expect_err("nested relay must be rejected");
    assert!(matches!(error, DhcpError::NestedRelayV6));

    let mut nonzero_hop = relay_forward(&inner, b"swp1", OPTION79);
    nonzero_hop[1] = 1;
    let error =
        serve(&nonzero_hop, &config, INTERFACE).expect_err("nonzero relay hop count is rejected");
    assert!(matches!(error, DhcpError::RelayHopCountExceededV6(1)));
}

#[test]
fn relayed_solicit_round_trips_through_controller_api() {
    let config = controller_config();
    let inner = encode(&client_message(v6::MessageType::Solicit, DUID_UUID, None, None));
    let request = relay_forward(&inner, b"swp1", OPTION79);
    let controller = Controller::new();
    let packet = process_packet(&request, address("fe80::100"), &config, "eth0", &controller)
        .expect("relayed controller SOLICIT is valid")
        .expect("relayed controller SOLICIT is served");

    assert_eq!(packet.message_type(), V6ReplyMessageType::Advertise);
    let octets = packet.encoded_packet();
    assert_eq!(octets[0], RELAY_REPLY);
    assert_eq!(octets[1..34], request[1..34]);
    assert_eq!(relay_option(octets, 18), b"swp1");
    let response = decode_message(relay_option(octets, 9));
    assert_eq!(response.msg_type(), v6::MessageType::Advertise);
    assert_eq!(response_address(&response).addr, outside_address("2001:db8::ee"));

    let asked = controller.asked.borrow();
    assert_eq!(asked.len(), 1);
    assert_eq!(asked[0].address_family, Some(AddressFamily::V6));
    assert_eq!(asked[0].message_kind, Some(RequestedKind::Listed(MessageKind::V6Solicit)));
    assert_eq!(asked[0].duid.as_deref(), Some(DUID_UUID));
    assert_eq!(asked[0].mac_address, "02:aa:bb:cc:dd:ee");
    assert_eq!(asked[0].circuit_id.as_deref(), Some("73777031"));
    assert_eq!(asked[0].link_address.as_deref(), Some("2001:db8::1"));
    assert_eq!(asked[0].relay_address, "2001:db8::1");
}

#[test]
fn relayed_confirm_without_link_knowledge_is_ignored() {
    let config = controller_config();
    let inner = encode(&client_message(
        v6::MessageType::Confirm,
        DUID_UUID,
        Some("2001:db8::20"),
        None,
    ));
    let request = relay_forward(&inner, &[], OPTION79);
    let controller = Controller::new();
    let response = process_packet(&request, address("fe80::100"), &config, "eth0", &controller)
        .expect("relayed CONFIRM is valid");
    assert!(response.is_none());
}

#[test]
fn invalid_stateful_lifetimes_fail_before_controller_discovery() {
    let config = controller_config_with_lifetimes(0, 7200);
    let inner = encode(&client_message(v6::MessageType::Solicit, DUID_UUID, None, None));
    let request = relay_forward(&inner, b"swp1", OPTION79);
    let controller = Controller::new();
    let result = process_packet(&request, address("fe80::100"), &config, "eth0", &controller);
    assert!(matches!(
        result,
        Err(DhcpError::InvalidInput(error))
            if error == "DHCPv6 lifetimes must be nonzero with preferred not exceeding valid"
    ));
    assert!(controller.asked.borrow().is_empty());
}

#[test]
fn the_whole_reply_is_known() {
    let config = dpu_config(INTERFACE, interface_v6(Some("2001:db8::20"), "2001:db8::/64"));
    let mut request = client_message(v6::MessageType::Solicit, DUID_LL, None, None);
    request.opts_mut().insert(DhcpOption::Unknown(v6::UnknownOption::new(
        OptionCode::ClientFqdn,
        vec![3, 0],
    )));
    let packet = serve(&encode(&request), &config, INTERFACE)
        .expect("the request is valid")
        .expect("the request is answered");
    let mut expected = vec![2, 0xaa, 0xbb, 0xcc];
    expected.extend(raw_option(1, DUID_LL));
    expected.extend(raw_option(2, SERVER_IDENTIFIER));
    let mut assigned = outside_address("2001:db8::20").octets().to_vec();
    assigned.extend_from_slice(&3600u32.to_be_bytes());
    assigned.extend_from_slice(&7200u32.to_be_bytes());
    let mut ia = IAID.to_be_bytes().to_vec();
    ia.extend_from_slice(&[0; 8]);
    ia.extend(raw_option(5, &assigned));
    expected.extend(raw_option(3, &ia));
    expected.extend(raw_option(23, &outside_address("2001:db8::53").octets()));
    expected.extend(raw_option(24, b"\x07example\x03com\0"));
    expected.extend(raw_option(39, b"\x03\x04host\x07example\x03com\0"));
    expected.extend(raw_option(56, &raw_option(1, &outside_address("2001:db8::123").octets())));
    assert_eq!(packet.encoded_packet(), expected);
}

#[test]
fn multicast_time_servers_have_their_own_suboption() {
    let mut config = dpu_config(INTERFACE, interface_v6(None, "2001:db8::/64"));
    config.dhcp_config.carbide_nameservers_v6 = Vec::new();
    config.dhcp_config.carbide_ntpservers_v6 = vec![address("ff05::101")];
    let request = client_message(v6::MessageType::InformationRequest, DUID_LL, None, None);
    let packet = serve(&encode(&request), &config, INTERFACE)
        .expect("the request is valid")
        .expect("the request is answered");
    let suboption = raw_option(2, &outside_address("ff05::101").octets());
    let option = raw_option(56, &suboption);
    assert!(packet.encoded_packet().ends_with(&option));
}

#[test]
fn confirm_is_decided_by_the_prefix() {
    let config = dpu_config(INTERFACE, interface_v6(None, "2001:db8:0:f0::/60"));
    let confirm = |assigned: &str| {
        let request = client_message(v6::MessageType::Confirm, DUID_LL, Some(assigned), None);
        response_status(&served(&request, &config))
    };
    assert_eq!(confirm("2001:db8:0:ff::1"), Status::Success);
    assert_eq!(confirm("2001:db8:0:e0::1"), Status::NotOnLink);

    // Every address counts, not only the first.
    let mut both = DhcpOptions::new();
    for assigned in ["2001:db8:0:f1::1", "2001:db8:1::1"] {
        both.insert(DhcpOption::IAAddr(v6::IAAddr {
            addr: outside_address(assigned),
            preferred_life: 0,
            valid_life: 0,
            opts: DhcpOptions::new(),
        }));
    }
    let mut request = client_message(v6::MessageType::Confirm, DUID_LL, None, None);
    request.opts_mut().insert(association(both));
    assert_eq!(response_status(&served(&request, &config)), Status::NotOnLink);
}

#[test]
fn confirm_without_link_knowledge_is_met_with_silence() {
    let request =
        encode(&client_message(v6::MessageType::Confirm, DUID_LL, Some("2001:db8::1"), None));
    let bad_prefix = dpu_config(INTERFACE, interface_v6(None, "no prefix"));
    assert!(serve(&request, &bad_prefix, INTERFACE).expect("a valid request").is_none());
    let elsewhere = dpu_config("eth9", interface_v6(None, "2001:db8::/64"));
    assert!(serve(&request, &elsewhere, INTERFACE).expect("a valid request").is_none());
    let known = dpu_config(INTERFACE, interface_v6(None, "2001:db8::/64"));
    let without_address = encode(&client_message(v6::MessageType::Confirm, DUID_LL, None, None));
    assert!(serve(&without_address, &known, INTERFACE).expect("a valid request").is_none());
}

#[test]
fn renew_and_rebind_of_the_bound_address_are_granted() {
    let config = dpu_config(INTERFACE, interface_v6(Some("2001:db8::20"), "2001:db8::/64"));
    let rows = [
        (v6::MessageType::Renew, Some(SERVER_IDENTIFIER)),
        (v6::MessageType::Rebind, None),
    ];
    for (message_type, server_id) in rows {
        let request = client_message(message_type, DUID_LL, Some("2001:db8::20"), server_id);
        let response = served(&request, &config);
        assert_eq!(response.msg_type(), v6::MessageType::Reply);
        assert_eq!(response_address(&response).addr, outside_address("2001:db8::20"));
    }
}

#[test]
fn messages_that_are_not_served_are_refused() {
    let config = dpu_config(INTERFACE, interface_v6(Some("2001:db8::20"), "2001:db8::/64"));
    for wire_type in [v6::MessageType::Advertise, v6::MessageType::Reply] {
        let request = encode(&client_message(wire_type, DUID_LL, None, None));
        let error = serve(&request, &config, INTERFACE).expect_err("no client sends this");
        assert!(matches!(error, DhcpError::UnhandledMessageTypeV6(_)), "{error:?}");
    }
    // An information request has no identity association.
    let information =
        client_message(v6::MessageType::InformationRequest, DUID_LL, Some("2001:db8::20"), None);
    let error = serve(&encode(&information), &config, INTERFACE).expect_err("it asks for options");
    assert!(matches!(
        error,
        DhcpError::UnhandledMessageTypeV6(MessageType::InformationRequest)
    ));
    // A refresh has one.
    let renew = client_message(v6::MessageType::Renew, DUID_LL, None, Some(SERVER_IDENTIFIER));
    let error = serve(&encode(&renew), &config, INTERFACE).expect_err("nothing to renew");
    assert!(matches!(error, DhcpError::MissingOptionV6(_)));
    // And only one.
    let mut twice = client_message(v6::MessageType::Solicit, DUID_LL, None, None);
    twice.opts_mut().insert(association(DhcpOptions::new()));
    let error = serve(&encode(&twice), &config, INTERFACE).expect_err("one address at a time");
    assert_eq!(error.message(), "invalid input: multiple DHCPv6 IA_NA options are unsupported");
    // A message for another server is not this server's.
    let other = client_message(v6::MessageType::Request, DUID_LL, None, Some(&[0xab, 0x01]));
    let error = serve(&encode(&other), &config, INTERFACE).expect_err("another server's");
    assert!(matches!(error, DhcpError::NotMyPacket(identifier) if identifier == "ab01"));
}

#[test]
fn clients_without_a_usable_identifier_are_refused() {
    let config = dpu_config(INTERFACE, interface_v6(Some("2001:db8::20"), "2001:db8::/64"));
    let unsupported = client_message(
        v6::MessageType::Solicit,
        &[0, 3, 0, 6, 1, 2, 3, 4, 5, 6],
        None,
        None,
    );
    let error = serve(&encode(&unsupported), &config, INTERFACE).expect_err("no Ethernet");
    assert!(matches!(error, DhcpError::UnsupportedDuidType(3)));
    let nobody = v6::Message::new_with_id(v6::MessageType::Solicit, [1, 2, 3]);
    let error = serve(&encode(&nobody), &config, INTERFACE).expect_err("nobody asks");
    assert!(matches!(error, DhcpError::MissingOptionV6(_)));
}

#[test]
fn several_addresses_in_one_association_are_refused() {
    let config = dpu_config(INTERFACE, interface_v6(Some("2001:db8::20"), "2001:db8::/64"));
    let mut both = DhcpOptions::new();
    for assigned in ["2001:db8::20", "2001:db8::21"] {
        both.insert(DhcpOption::IAAddr(v6::IAAddr {
            addr: outside_address(assigned),
            preferred_life: 0,
            valid_life: 0,
            opts: DhcpOptions::new(),
        }));
    }
    let mut request =
        client_message(v6::MessageType::Renew, DUID_LL, None, Some(SERVER_IDENTIFIER));
    request.opts_mut().insert(association(both));
    let error = serve(&encode(&request), &config, INTERFACE).expect_err("one address at a time");
    assert_eq!(error.message(), "invalid input: multiple DHCPv6 IAADDR options are unsupported");
}

#[test]
fn the_two_steps_are_what_serving_does() {
    let config = controller_config();
    let mut message = client_message(
        v6::MessageType::Request,
        DUID_LL,
        Some("2001:db8::7"),
        Some(SERVER_IDENTIFIER),
    );
    message.opts_mut().insert(DhcpOption::Unknown(v6::UnknownOption::new(
        OptionCode::VendorClass,
        b"\0\0\0\x09\0\x01\xff\0\x09PXEClient".to_vec(),
    )));
    let packet = relay_forward(&encode(&message), b"", OPTION79);
    let request = DecodedPacketV6::decode(&packet).expect("a sound packet");
    let question = match start_request(&request, address("fe80::100"), &config, "eth0", true) {
        Ok(Step::Ask(question)) => question,
        other => panic!("expected a question, got {other:?}"),
    };
    assert_eq!(question.vendor_string.as_deref(), Some("PXEClient"));
    assert_eq!(question.desired_address.as_deref(), Some("2001:db8::7"));
    assert_eq!(question.circuit_id, None);
    assert_eq!(question.remote_id, None);
    assert_eq!(question.message_kind, Some(RequestedKind::Listed(MessageKind::V6Request)));

    let outcome = V6Outcome::Stateful(record("2001:db8::7", "", ""));
    let reply = finish_request(&request, outcome, &config).expect("an answer");
    assert_eq!(reply.message_type, V6ReplyMessageType::Reply);
    let response = decode_message(relay_option(reply.encoded_packet(), 9));
    assert_eq!(response_address(&response).addr, outside_address("2001:db8::7"));
    assert!(response.opts().get(OptionCode::DomainSearchList).is_none());

    let bad = V6Outcome::Stateful(record("not an address", "", ""));
    let error = finish_request(&request, bad, &config).expect_err("the record is no good");
    assert!(matches!(error, DhcpError::AddressParseError(_)));
}

#[test]
fn the_relays_word_goes_before_the_duid() {
    let config = controller_config();
    let inner = encode(&client_message(v6::MessageType::Solicit, DUID_LL, None, None));
    let asked_mac = |option79: &[u8]| {
        let request = DecodedPacketV6::decode(&relay_forward(&inner, b"swp1", option79))
            .expect("a sound packet");
        match start_request(&request, address("fe80::100"), &config, "eth0", true) {
            Ok(Step::Ask(question)) => question.mac_address,
            other => panic!("expected a question, got {other:?}"),
        }
    };
    assert_eq!(asked_mac(&[0, 1, 1, 2, 3, 4, 5, 6]), "01:02:03:04:05:06");
    // What is no Ethernet address leaves the DUID to speak.
    assert_eq!(asked_mac(&[0, 6, 1, 2, 3, 4, 5, 6]), "02:aa:bb:cc:dd:ee");
    assert_eq!(asked_mac(&[]), "02:aa:bb:cc:dd:ee");
}

#[test]
fn a_failing_api_is_reported() {
    let inner = encode(&client_message(v6::MessageType::Solicit, DUID_LL, None, None));
    let request = relay_forward(&inner, b"swp1", OPTION79);
    let controller = Controller { fails: true, ..Controller::new() };
    let error =
        process_packet(&request, address("fe80::100"), &controller_config(), "eth0", &controller)
            .expect_err("the API does not answer");
    assert!(matches!(error, DhcpError::GenericError(text) if text == "the API is gone"));
}

#[test]
fn an_unservable_interface_is_reported() {
    let request = encode(&client_message(v6::MessageType::Solicit, DUID_LL, None, None));
    let no_v6 = dpu_config_with_bindings(
        HostInterfaces::new().insert(INTERFACE.to_string(), interface_info(None)),
    );
    let error = serve(&request, &no_v6, INTERFACE).expect_err("no IPv6 here");
    assert!(matches!(error, DhcpError::MissingArgument(text) if text == "IPv6 interface config"));
    let error = serve(&request, &two_interfaces(), "eth7").expect_err("no such interface");
    assert!(matches!(
        error,
        DhcpError::MissingArgument(text) if text == "could not find IP details for eth7"
    ));
    let error = serve(&request, &controller_config(), INTERFACE).expect_err("no host");
    assert!(matches!(error, DhcpError::InvalidInput(text) if text == "host input is invalid"));
}

#[test]
fn a_dpu_answers_dhcpv4_from_its_interfaces() {
    let config = two_interfaces();
    let question = |circuit_id: Option<&str>| DhcpDiscovery {
        mac_address: String::new(),
        relay_address: String::new(),
        vendor_string: None,
        link_address: None,
        circuit_id: circuit_id.map(str::to_string),
        remote_id: None,
        desired_address: None,
        address_family: Some(AddressFamily::V4),
        message_kind: None,
        duid: None,
    };
    let found = Dpu {}.discover_dhcp(question(Some("eth0")), &config).expect("a known interface");
    assert_eq!(found.address, "192.0.2.20");
    assert_eq!(found.gateway.as_deref(), Some("192.0.2.1"));
    assert_eq!(found.prefix, "192.0.2.0/24");
    assert_eq!(found.fqdn, "host.example.com");
    assert_eq!(
        found.machine_interface_id.as_deref(),
        Some("0fd6e9a3-06fc-4a22-ad29-aca299677b00")
    );
    let error = Dpu {}.discover_dhcp(question(None), &config).expect_err("no circuit");
    assert!(matches!(error, DhcpError::MissingArgument(_)));
    let error = Dpu {}.discover_dhcp(question(Some("eth7")), &config).expect_err("no interface");
    assert!(matches!(error, DhcpError::MissingArgument(_)));
    let error =
        Dpu {}.discover_dhcp(question(Some("eth0")), &controller_config()).expect_err("no host");
    assert!(matches!(error, DhcpError::InvalidInput(_)));
    let error = Dpu {}.discover_dhcp_v6(question(Some("eth0")), &config).expect_err("no kind");
    assert!(matches!(error, DhcpError::InvalidInput(_)));
    let mut unlisted = question(Some("eth0"));
    unlisted.message_kind = Some(RequestedKind::Unlisted(-7));
    let error = Dpu {}.discover_dhcp_v6(unlisted, &config).expect_err("no such kind");
    assert!(matches!(
        error,
        DhcpError::InvalidInput(text)
            if text == "DHCPv6 discovery request has unknown message kind -7"
    ));
}

#[test]
fn the_circuit_of_a_dhcpv4_packet_depends_on_the_mode() {
    let named = || Some("swp1".to_string());
    assert_eq!(Dpu {}.get_circuit_id(named(), "eth0").as_deref(), Some("eth0"));
    assert_eq!(Dpu {}.get_circuit_id(None, "eth0").as_deref(), Some("eth0"));
    assert!(!Dpu {}.should_be_relayed());
    assert!(Controller::new().should_be_relayed());
    let controller = Controller::new();
    assert_eq!(controller.get_circuit_id(named(), "eth0").as_deref(), Some("swp1"));
    assert_eq!(controller.get_circuit_id(None, "eth0"), None);
}

#[test]
fn options_stay_in_order() {
    let list = OptionList::new()
        .insert(ServerOption::Unknown { code: 39, data: vec![1] })
        .insert(ServerOption::ServerId(vec![2]))
        .insert(ServerOption::Unknown { code: 39, data: vec![2] })
        .insert(ServerOption::ClientId(vec![1]));
    // A later option goes before those that have the same number.
    match &list.get_all(39)[..] {
        [ClientOption::Unknown(first), ClientOption::Unknown(second)] => {
            assert_eq!((first, second), (&vec![2], &vec![1]));
        }
        other => panic!("expected two options, got {other:?}"),
    }
    assert!(list.get_all(40).is_empty());
    assert_eq!(list.get_all(1).len(), 1);
}

#[test]
fn the_order_of_the_options_does_not_matter() {
    let config = dpu_config(INTERFACE, interface_v6(Some("2001:db8::20"), "2001:db8::/64"));
    let mut ia = IAID.to_be_bytes().to_vec();
    ia.extend_from_slice(&[0; 8]);
    let options = [
        raw_option(1, DUID_LL),
        raw_option(3, &ia),
        raw_option(39, &[1, 0]),
        raw_option(17, &[0, 0, 0, 9, 0, 1, 0, 0]),
        raw_option(17, &[0, 0, 0, 8]),
    ];
    let packet = |order: [usize; 5]| {
        let mut packet = vec![1, 1, 2, 3];
        for at in order {
            packet.extend_from_slice(&options[at]);
        }
        packet
    };
    let reply = |packet: &[u8]| {
        serve(packet, &config, INTERFACE)
            .expect("a valid request")
            .expect("an answer")
            .encoded_packet()
            .to_vec()
    };
    let first = reply(&packet([0, 1, 2, 3, 4]));
    for order in [[4, 3, 2, 1, 0], [2, 0, 4, 1, 3], [1, 4, 0, 3, 2]] {
        assert_eq!(reply(&packet(order)), first);
    }
}

#[test]
fn the_servers_identifier_is_a_duid_without_a_hardware_address() {
    let identifier = server_identifier(&controller_config());
    assert_eq!(identifier, SERVER_IDENTIFIER);
    assert_eq!(extract_mac_from_duid(&identifier), Ok(DuidMac::NoLinkLayerMac));
    let mut elsewhere = controller_config();
    elsewhere.dhcp_config.carbide_dhcp_server = Ipv4Addr { octets: [127, 0, 0, 2] };
    assert_ne!(server_identifier(&elsewhere), identifier);
}

#[test]
fn an_answer_that_is_too_long_for_its_envelope_is_refused() {
    let mut config = controller_config();
    // Each server takes sixteen octets of the answer, or twenty.
    config.dhcp_config.carbide_nameservers_v6 = vec![address("2001:db8::53"); 4000];
    config.dhcp_config.carbide_ntpservers_v6 = vec![address("2001:db8::123"); 3000];
    let inner = encode(&client_message(v6::MessageType::Solicit, DUID_UUID, None, None));
    let request = relay_forward(&inner, b"swp1", OPTION79);
    let controller = Controller::new();
    let error = process_packet(&request, address("fe80::100"), &config, "eth0", &controller)
        .expect_err("the answer does not fit");
    assert_eq!(error.message(), "invalid input: DHCPv6 option RelayMsg exceeds 65535 bytes");
}

#[test]
fn a_reply_envelope_holds_what_the_request_envelope_held() {
    let envelope = |interface_id: Option<&[u8]>, remote_id: Option<&[u8]>| RelayEnvelope {
        hop_count: 0,
        link_address: address("2001:db8::1"),
        peer_address: address("fe80::1"),
        interface_id: interface_id.map(<[u8]>::to_vec),
        remote_id: remote_id.map(<[u8]>::to_vec),
        client_link_layer: Some(OPTION79.to_vec()),
    };
    let rows: [(Option<&[u8]>, Option<&[u8]>, &[u16]); 4] = [
        (None, None, &[9]),
        (Some(b"swp1"), None, &[18, 9]),
        (None, Some(b"remote"), &[37, 9]),
        (Some(b"swp1"), Some(b"remote"), &[18, 37, 9]),
    ];
    for (interface_id, remote_id, codes) in rows {
        let packet = wrap_relay_reply(b"answer", &envelope(interface_id, remote_id))
            .expect("everything fits");
        assert_eq!(packet[..2], [RELAY_REPLY, 0]);
        assert_eq!(packet[2..18], outside_address("2001:db8::1").octets());
        assert_eq!(packet[18..34], outside_address("fe80::1").octets());
        let options = parse_raw_options(&packet[34..]).expect("whole options");
        let found: Vec<u16> = options.iter().map(|option| option.code).collect();
        assert_eq!(found, codes);
        for option in &options {
            let expected = match option.code {
                18 => interface_id,
                37 => remote_id,
                _ => Some(&b"answer"[..]),
            };
            assert_eq!(Some(option.data), expected);
        }
    }
    let long = vec![0; 0x1_0000];
    let fits = &long[1..];
    assert!(wrap_relay_reply(fits, &envelope(Some(fits), Some(fits))).is_ok());
    for (inner, interface_id, remote_id, name) in [
        (&long[..], None, None, "RelayMsg"),
        (&b""[..], Some(&long[..]), None, "InterfaceId"),
        (&b""[..], None, Some(&long[..]), "RemoteId"),
    ] {
        let error = wrap_relay_reply(inner, &envelope(interface_id, remote_id))
            .expect_err("an option is too long");
        assert_eq!(
            error.message(),
            format!("invalid input: DHCPv6 option {name} exceeds 65535 bytes")
        );
    }
}

#[test]
fn doubts_about_an_identity_are_told() {
    let warning = |duid: &[u8], option79: &[u8]| {
        let inner = encode(&client_message(v6::MessageType::Solicit, duid, None, None));
        DecodedPacketV6::decode(&relay_forward(&inner, b"swp1", option79))
            .expect("a sound packet")
            .identity_warning()
    };
    assert!(warning(DUID_LL, OPTION79).is_none());
    assert!(warning(DUID_LL, &[]).is_none());
    assert!(warning(DUID_UUID, OPTION79).is_none());
    match warning(DUID_LL, &[0, 1, 1, 2, 3, 4, 5, 6]) {
        Some(IdentityWarning::Disagreement { client_mac_address, duid_mac_address }) => {
            assert_eq!(client_mac_address, "01:02:03:04:05:06");
            assert_eq!(duid_mac_address, "02:aa:bb:cc:dd:ee");
        }
        other => panic!("expected a disagreement, got {other:?}"),
    }
    match warning(DUID_UUID, &[]) {
        Some(IdentityWarning::Missing { relay_link_ip_address: Some(link) }) => {
            assert_eq!(link.octets, outside_address("2001:db8::1").octets());
        }
        other => panic!("expected no address, got {other:?}"),
    }
    let direct = encode(&client_message(v6::MessageType::Solicit, DUID_UUID, None, None));
    assert!(matches!(
        DecodedPacketV6::decode(&direct).expect("a sound packet").identity_warning(),
        Some(IdentityWarning::Missing { relay_link_ip_address: None })
    ));
}

#[test]
fn a_confirmation_names_no_servers() {
    let mut config = dpu_config(INTERFACE, interface_v6(Some("2001:db8::20"), "2001:db8::/64"));
    config.dhcp_config.carbide_nameservers_v6 = vec![address("2001:db8::53"); 5000];
    let confirm =
        client_message(v6::MessageType::Confirm, DUID_LL, Some("2001:db8::20"), None);
    let response = served(&confirm, &config);
    assert_eq!(response_status(&response), Status::Success);
    assert!(response.opts().get(OptionCode::DomainNameServers).is_none());
}

#[test]
fn doubts_are_told_where_the_identity_counts() {
    let config = controller_config();
    let other = &[0, 1, 1, 2, 3, 4, 5, 6][..];
    let decode = |message: &v6::Message, option79: &[u8]| {
        DecodedPacketV6::decode(&relay_forward(&encode(message), b"swp1", option79))
            .expect("a sound packet")
    };
    let disagrees = |warning| matches!(warning, Some(IdentityWarning::Disagreement { .. }));
    let missing = |warning| matches!(warning, Some(IdentityWarning::Missing { .. }));

    let solicit = client_message(v6::MessageType::Solicit, DUID_LL, None, None);
    assert!(disagrees(due_warning(&decode(&solicit, other), &config, true)));
    assert!(due_warning(&decode(&solicit, OPTION79), &config, true).is_none());
    let unnamed = client_message(v6::MessageType::Solicit, DUID_UUID, None, None);
    assert!(missing(due_warning(&decode(&unnamed, &[]), &config, true)));

    // The address was resolved before the request is found to name too many addresses.
    let mut both = DhcpOptions::new();
    for assigned in ["2001:db8::20", "2001:db8::21"] {
        both.insert(DhcpOption::IAAddr(v6::IAAddr {
            addr: outside_address(assigned),
            preferred_life: 0,
            valid_life: 0,
            opts: DhcpOptions::new(),
        }));
    }
    let mut crowded =
        client_message(v6::MessageType::Renew, DUID_LL, None, Some(SERVER_IDENTIFIER));
    crowded.opts_mut().insert(association(both));
    let request = decode(&crowded, other);
    assert!(start_request(&request, address("fe80::1"), &config, "eth0", true).is_err());
    assert!(disagrees(due_warning(&request, &config, true)));

    // The end of a lease goes by the identity, and a confirmation does not.
    for (message_type, warned) in [
        (v6::MessageType::Release, true),
        (v6::MessageType::Decline, true),
        (v6::MessageType::Confirm, false),
    ] {
        let server = if warned { Some(SERVER_IDENTIFIER) } else { None };
        let message = client_message(message_type, DUID_LL, Some("2001:db8::20"), server);
        let warning = due_warning(&decode(&message, other), &config, true);
        assert_eq!(disagrees(warning), warned, "{message_type:?}");
    }

    // What is refused before is not resolved: unusable lifetimes, a direct packet, a DPU.
    let unusable = controller_config_with_lifetimes(0, 0);
    assert!(due_warning(&decode(&solicit, other), &unusable, true).is_none());
    assert!(due_warning(&decode(&solicit, other), &config, false).is_none());
    let direct = DecodedPacketV6::decode(&encode(&unnamed)).expect("a sound packet");
    assert!(due_warning(&direct, &config, true).is_none());
    assert!(due_warning(&direct, &config, false).is_none());
    assert_eq!(received_v6(&direct).message_type, MessageTypeLabel::Solicit);
}

#[test]
fn name_servers_are_counted_in_sixteen_bits() {
    let mut config = base_dhcp_config();
    for (count, fits) in [(0, true), (4095, true), (4096, false), (65_535, false), (65_536, true)] {
        config.carbide_nameservers_v6 = vec![address("2001:db8::53"); count];
        assert_eq!(can_encode(&config), fits, "{count}");
    }
}
