//! Taking packets in.

use carbide_dhcp::decode::{decode, decode_client_message, decode_relay_forward, DecodeError};
use carbide_dhcp::duid::{
    extract_mac_from_duid, extract_mac_from_option79, DuidError, DuidMac, DUID_MAX_LENGTH,
    DUID_MIN_LENGTH,
};
use carbide_dhcp::message::{MessageType, RELAY_FORWARD, RELAY_REPLY};
use carbide_dhcp::options::ClientOption;
use carbide_dhcp::raw::{parse_raw_options, push_raw_option};
use carbide_dhcp::wire::{judge_reading, MAX_CLIENT_OPTIONS, MAX_CLIENT_OPTION_NESTING_DEPTH};

const DIRECT_SOLICIT: &[u8] = &[1, 0, 0, 1];

const IANA: u16 = 3;
const IATA: u16 = 4;
const RELAY_MSG: u16 = 9;
const RAPID_COMMIT: u16 = 14;
const USER_CLASS: u16 = 15;
const VENDOR_CLASS: u16 = 16;
const VENDOR_OPTS: u16 = 17;
const INTERFACE_ID: u16 = 18;
const REMOTE_ID: u16 = 37;
const CLIENT_LINKLAYER_ADDR: u16 = 79;
const PRIVATE: u16 = 65_000;

/// Encode one option, so that a test controls the length that it declares.
fn raw_option(code: u16, payload: &[u8]) -> Vec<u8> {
    let mut option = Vec::new();
    option.extend_from_slice(&code.to_be_bytes());
    option.extend_from_slice(&(payload.len() as u16).to_be_bytes());
    option.extend_from_slice(payload);
    option
}

/// A client message with the given options.
fn solicit_with(options: &[Vec<u8>]) -> Vec<u8> {
    let mut packet = DIRECT_SOLICIT.to_vec();
    for option in options {
        packet.extend_from_slice(option);
    }
    packet
}

/// A relay envelope with one option in it twice.
fn relay_forward_with_duplicate_option(code: u16) -> Vec<u8> {
    let mut packet = vec![RELAY_FORWARD, 0];
    packet.extend_from_slice(&[0; 32]);
    packet.extend(raw_option(code, b"first"));
    packet.extend(raw_option(code, b"second"));
    packet.extend(raw_option(RELAY_MSG, DIRECT_SOLICIT));
    packet
}

/// A one-hop relay envelope around any payload.
fn relay_forward(inner: &[u8]) -> Vec<u8> {
    let mut packet = vec![RELAY_FORWARD, 0];
    packet.extend_from_slice(&[0; 32]);
    packet.extend(raw_option(RELAY_MSG, inner));
    packet
}

/// A DUID of an unregistered type with an exact length.
fn opaque_duid(length: usize) -> Vec<u8> {
    let mut duid = vec![0, 99];
    duid.resize(length, 0xaa);
    duid
}

/// A client message with an exact number of containers in each other.
fn client_message_with_option_nesting(nesting_depth: usize) -> Vec<u8> {
    let mut option = raw_option(PRIVATE, &[]);
    for _ in 0..nesting_depth {
        let mut payload = vec![0; 4];
        payload.extend(option);
        option = raw_option(IATA, &payload);
    }
    solicit_with(&[option])
}

/// A client message with an exact number of vendor suboptions.
fn client_message_with_vendor_option_count(option_count: usize) -> Vec<u8> {
    let mut vendor_payload = 5703u32.to_be_bytes().to_vec();
    for _ in 0..option_count {
        vendor_payload.extend(raw_option(PRIVATE, &[]));
    }
    solicit_with(&[raw_option(VENDOR_OPTS, &vendor_payload)])
}

/// A client message with an exact number of options side by side.
fn client_message_with_option_count(option_count: usize) -> Vec<u8> {
    let mut packet = DIRECT_SOLICIT.to_vec();
    for _ in 0..option_count {
        packet.extend(raw_option(PRIVATE, &[]));
    }
    packet
}

#[test]
fn validates_duid_length_boundaries() {
    let rows = [
        (opaque_duid(DUID_MIN_LENGTH - 1), Err(DuidError::Malformed)),
        (opaque_duid(DUID_MIN_LENGTH), Ok(DuidMac::NoLinkLayerMac)),
        (opaque_duid(DUID_MAX_LENGTH), Ok(DuidMac::NoLinkLayerMac)),
        (opaque_duid(DUID_MAX_LENGTH + 1), Err(DuidError::Malformed)),
    ];
    for (duid, expected) in rows {
        assert_eq!(extract_mac_from_duid(&duid), expected, "{} octets", duid.len());
    }
}

#[test]
fn rejects_incomplete_client_option_tlvs() {
    let mut truncated_header = DIRECT_SOLICIT.to_vec();
    truncated_header.extend_from_slice(&[0, 1, 0]);
    let mut truncated_payload = DIRECT_SOLICIT.to_vec();
    truncated_payload.extend_from_slice(&[0, 1, 0, 2, 0xaa]);
    for packet in [truncated_header, truncated_payload] {
        assert!(
            matches!(decode_client_message(&packet), Err(DecodeError::MalformedPacket(_))),
            "{packet:?}"
        );
    }
}

#[test]
fn rejects_semantically_invalid_client_options() {
    let mut association = vec![0; 12];
    association.extend(raw_option(VENDOR_CLASS, &[]));
    association.extend(raw_option(RAPID_COMMIT, &[]));
    let rows = [
        ("zero-length Vendor Class", solicit_with(&[raw_option(VENDOR_CLASS, &[]), raw_option(RAPID_COMMIT, &[])])),
        ("short IA_NA", solicit_with(&[raw_option(IANA, &[]), raw_option(RAPID_COMMIT, &[])])),
        ("truncated User Class value", solicit_with(&[raw_option(USER_CLASS, &[0, 2, 0xaa])])),
        ("zero-length nested Vendor Class", solicit_with(&[raw_option(IANA, &association)])),
    ];
    for (scenario, packet) in rows {
        assert!(
            matches!(
                decode_client_message(&packet),
                Err(DecodeError::MalformedPacket(_)) | Err(DecodeError::ClientMessageDecode(_))
            ),
            "{scenario}"
        );
    }
}

#[test]
fn preserves_opaque_vendor_suboptions() {
    // The private code is the number of IA_NA, and its payload is none.
    let private_suboption = raw_option(IANA, &[0xaa]);
    let mut vendor_payload = 5703u32.to_be_bytes().to_vec();
    vendor_payload.extend(private_suboption);
    let packet = solicit_with(&[raw_option(VENDOR_OPTS, &vendor_payload)]);

    let message = decode_client_message(&packet).expect("opaque vendor suboption is accepted");
    let found = message.options.get_all(VENDOR_OPTS);
    assert_eq!(found.len(), 1);
    match &found[0] {
        ClientOption::Unknown(data) => assert_eq!(data, &vendor_payload),
        other => panic!("expected opaque vendor-specific option, got {other:?}"),
    }
}

#[test]
fn rejects_truncated_vendor_suboptions() {
    let mut vendor_payload = 5703u32.to_be_bytes().to_vec();
    vendor_payload.extend_from_slice(&[0, 3, 0, 2, 0xaa]);
    let packet = solicit_with(&[raw_option(VENDOR_OPTS, &vendor_payload)]);
    assert!(matches!(
        decode_client_message(&packet),
        Err(DecodeError::MalformedPacket("truncated option payload"))
    ));
}

#[test]
fn enforces_client_option_resource_budget() {
    let rows = [
        (
            "maximum nesting depth",
            client_message_with_option_nesting(MAX_CLIENT_OPTION_NESTING_DEPTH),
            true,
        ),
        (
            "nesting depth above limit",
            client_message_with_option_nesting(MAX_CLIENT_OPTION_NESTING_DEPTH + 1),
            false,
        ),
        ("maximum option count", client_message_with_option_count(MAX_CLIENT_OPTIONS), true),
        ("option count above limit", client_message_with_option_count(MAX_CLIENT_OPTIONS + 1), false),
        (
            "maximum vendor suboption count",
            client_message_with_vendor_option_count(MAX_CLIENT_OPTIONS - 1),
            true,
        ),
        (
            "vendor suboption count above limit",
            client_message_with_vendor_option_count(MAX_CLIENT_OPTIONS),
            false,
        ),
    ];
    for (scenario, packet, accepted) in rows {
        assert_eq!(decode_client_message(&packet).is_ok(), accepted, "{scenario}");
    }
}

#[test]
fn rejects_duplicate_single_valued_relay_options() {
    for code in [INTERFACE_ID, REMOTE_ID, CLIENT_LINKLAYER_ADDR] {
        assert!(
            matches!(
                decode(&relay_forward_with_duplicate_option(code)),
                Err(DecodeError::MalformedPacket("duplicate relay option"))
            ),
            "{code}"
        );
    }
}

#[test]
fn rejects_unsupported_relay_boundaries() {
    let mut truncated = relay_forward(DIRECT_SOLICIT);
    truncated.truncate(33);
    let mut hopped = relay_forward(DIRECT_SOLICIT);
    hopped[1] = 1;
    let rows = [
        (truncated, "malformed DHCPv6 packet: truncated relay header"),
        (hopped, "unsupported DHCPv6 relay hop count 1"),
        (relay_forward(&[RELAY_FORWARD]), "nested DHCPv6 relay packet"),
        (relay_forward(&[RELAY_REPLY]), "nested DHCPv6 relay packet"),
    ];
    for (packet, expected) in rows {
        let error = decode(&packet).expect_err("unsupported relay boundary must fail");
        assert_eq!(error.message(), expected);
    }
}

#[test]
fn failures_are_told_by_their_kind() {
    let mut bare_envelope = vec![RELAY_FORWARD, 0];
    bare_envelope.extend_from_slice(&[0; 32]);
    let rows: [(&[u8], &str); 8] = [
        (&[], "malformed DHCPv6 packet: empty packet"),
        (&[1, 0, 0], "malformed DHCPv6 packet: truncated client header"),
        (&bare_envelope, "missing DHCPv6 relay-message option"),
        (&[RELAY_REPLY, 0, 0, 0], "unexpected DHCPv6 relay-reply request"),
        (&[1, 0, 0, 1, 0, 9, 0, 0], "malformed DHCPv6 packet: relay-message option in client message"),
        (&[1, 0, 0, 1, 0, 17, 0, 1, 0], "malformed DHCPv6 packet: invalid vendor-specific option"),
        (&[1, 0, 0, 1, 0, 3, 0, 0], "malformed DHCPv6 packet: invalid client option"),
        (
            &[1, 0, 0, 1, 0, 4, 0, 12, 0, 0, 0, 0, 0, 17, 0, 4, 0, 0, 0, 1],
            "malformed DHCPv6 packet: vendor-specific option in nested client option",
        ),
    ];
    for (packet, expected) in rows {
        let error = decode(packet).expect_err("the packet is not sound");
        assert_eq!(error.message(), expected, "{packet:?}");
    }
}

#[test]
fn codec_refusals_are_told_apart() {
    // A preference of one octet that declares two: the codec leaves one octet unread.
    let long = solicit_with(&[raw_option(7, &[1, 2])]);
    assert_eq!(
        decode(&long).expect_err("an octet is left").message(),
        "malformed DHCPv6 packet: invalid client option length"
    );
    // An elapsed time without its octets cannot be read at all.
    let short = solicit_with(&[raw_option(8, &[])]);
    assert!(matches!(
        decode(&short),
        Err(DecodeError::ClientMessageDecode(words))
            if words == "parser ran out of data-- not enough bytes"
    ));
    // A class value that is cut off is dropped by the codec, and writes fewer octets.
    let partial = solicit_with(&[raw_option(USER_CLASS, &[0, 2, 0xaa])]);
    assert_eq!(
        decode(&partial).expect_err("a value is cut off").message(),
        "malformed DHCPv6 packet: partially decoded client option"
    );
}

#[test]
fn a_client_message_says_what_its_octets_say() {
    let mut association = 0x0102_0304u32.to_be_bytes().to_vec();
    association.extend_from_slice(&[0; 8]);
    let mut address = vec![0x20, 1, 0xd, 0xb8, 0, 0, 0, 0, 0, 0, 0, 0, 0, 0, 0, 7];
    address.extend_from_slice(&[0; 8]);
    association.extend(raw_option(5, &address));
    let packet = {
        let mut packet = vec![3, 0xaa, 0xbb, 0xcc];
        packet.extend(raw_option(IANA, &association));
        packet.extend(raw_option(1, &[0, 4, 9]));
        packet
    };
    let message = decode_client_message(&packet).expect("a sound message");
    assert_eq!(message.msg_type, MessageType::Request);
    assert_eq!(message.xid, [0xaa, 0xbb, 0xcc]);
    assert!(matches!(&message.options.get_all(1)[..], [ClientOption::ClientId(duid)] if duid == &[0, 4, 9]));
    match &message.options.get_all(IANA)[..] {
        [ClientOption::IaNa { id, options }] => {
            assert_eq!(*id, 0x0102_0304);
            assert!(matches!(
                &options.get_all(5)[..],
                [ClientOption::IaAddr(found)] if found.octets[..] == address[..16]
            ));
        }
        other => panic!("expected one association, got {other:?}"),
    }
}

#[test]
fn an_envelope_says_what_its_octets_say() {
    let mut packet = vec![RELAY_FORWARD, 0];
    packet.extend_from_slice(&[0x11; 16]);
    packet.extend_from_slice(&[0x22; 16]);
    packet.extend(raw_option(INTERFACE_ID, b"eth0"));
    packet.extend(raw_option(REMOTE_ID, b"remote"));
    packet.extend(raw_option(CLIENT_LINKLAYER_ADDR, &[0, 1, 2, 3, 4, 5, 6, 7]));
    packet.extend(raw_option(RELAY_MSG, DIRECT_SOLICIT));
    let decoded = decode(&packet).expect("a sound envelope");
    assert_eq!(decoded.message.msg_type, MessageType::Solicit);
    let relay = decoded.relay.expect("the message is relayed");
    assert_eq!(relay.hop_count, 0);
    assert_eq!(relay.link_address.octets, [0x11; 16]);
    assert_eq!(relay.peer_address.octets, [0x22; 16]);
    assert_eq!(relay.interface_id.as_deref(), Some(&b"eth0"[..]));
    assert_eq!(relay.remote_id.as_deref(), Some(&b"remote"[..]));
    assert_eq!(relay.client_link_layer.as_deref(), Some(&[0, 1, 2, 3, 4, 5, 6, 7][..]));
}

#[test]
fn unregistered_message_types_keep_their_number() {
    for number in [0u8, 22, 200, 255] {
        let message = decode_client_message(&[number, 1, 2, 3]).expect("a bare message");
        assert_eq!(message.msg_type, MessageType::Unknown(number));
    }
    for number in 1u8..=21 {
        let message = decode_client_message(&[number, 1, 2, 3]).expect("a bare message");
        assert_eq!(message.msg_type.number(), number);
        assert!(!matches!(message.msg_type, MessageType::Unknown(_)));
    }
}

#[test]
fn triples_are_written_and_read_back() {
    let mut packet = Vec::new();
    assert!(push_raw_option(&mut packet, 0x1234, b"abc"));
    assert!(push_raw_option(&mut packet, 7, &[]));
    assert_eq!(packet, [0x12, 0x34, 0, 3, b'a', b'b', b'c', 0, 7, 0, 0]);
    let options = parse_raw_options(&packet).expect("whole triples");
    assert_eq!(options.len(), 2);
    assert_eq!((options[0].code, options[0].data), (0x1234, &b"abc"[..]));
    assert_eq!(options[0].encoded, &packet[..7]);
    assert_eq!((options[1].code, options[1].data), (7, &b""[..]));

    let before = packet.clone();
    assert!(!push_raw_option(&mut packet, 7, &vec![0; 0x1_0000]));
    assert_eq!(packet, before);
}

#[test]
fn duids_give_their_hardware_address() {
    let mac = [2, 0xaa, 0xbb, 0xcc, 0xdd, 0xee];
    let ll = [&[0, 3, 0, 1][..], &mac].concat();
    let llt = [&[0, 1, 0, 1, 9, 9, 9, 9][..], &mac].concat();
    for duid in [&ll, &llt] {
        match extract_mac_from_duid(duid) {
            Ok(DuidMac::Mac(found)) => assert_eq!(found.octets, mac),
            other => panic!("expected a hardware address, got {other:?}"),
        }
    }
    let rows: [(&[u8], Result<DuidMac, DuidError>); 8] = [
        (&[0, 3, 0, 1, 1, 2, 3, 4, 5], Err(DuidError::Malformed)),
        (&[0, 3, 0, 1, 1, 2, 3, 4, 5, 6, 7], Err(DuidError::Malformed)),
        (&[0, 3, 0, 6, 1, 2, 3, 4, 5, 6], Err(DuidError::UnsupportedType)),
        (&[0, 3, 0, 6, 1, 2, 3, 4, 5, 6, 7, 8], Err(DuidError::UnsupportedType)),
        (&[0, 2, 0, 0, 0, 9], Err(DuidError::Malformed)),
        (&[0, 2, 0, 0, 0, 9, 1], Ok(DuidMac::NoLinkLayerMac)),
        (&[0, 4, 1, 2, 3], Err(DuidError::Malformed)),
        (&[0, 4, 0, 1, 2, 3, 4, 5, 6, 7, 8, 9, 10, 11, 12, 13, 14, 15], Ok(DuidMac::NoLinkLayerMac)),
    ];
    for (duid, expected) in rows {
        assert_eq!(extract_mac_from_duid(duid), expected, "{duid:?}");
    }
}

#[test]
fn only_ethernet_is_taken_from_a_relay() {
    let found = extract_mac_from_option79(&[0, 1, 2, 3, 4, 5, 6, 7]).expect("an Ethernet address");
    assert_eq!(found.octets, [2, 3, 4, 5, 6, 7]);
    assert!(extract_mac_from_option79(&[0, 6, 2, 3, 4, 5, 6, 7]).is_none());
    assert!(extract_mac_from_option79(&[0, 1, 2, 3, 4, 5, 6]).is_none());
    assert!(extract_mac_from_option79(&[0, 1, 2, 3, 4, 5, 6, 7, 8]).is_none());
}

#[test]
fn the_reading_of_an_option_is_judged() {
    assert!(judge_reading(Ok((0, Some(6))), 6).is_ok());
    let rows = [
        (Ok((1, Some(6))), "malformed DHCPv6 packet: invalid client option length"),
        (Ok((1, None)), "malformed DHCPv6 packet: invalid client option length"),
        (Ok((0, None)), "malformed DHCPv6 packet: unencodable client option"),
        (Ok((0, Some(5))), "malformed DHCPv6 packet: partially decoded client option"),
        (Ok((0, Some(7))), "malformed DHCPv6 packet: partially decoded client option"),
        (Err("no words".to_string()), "DHCPv6 decode failed: no words"),
    ];
    for (reading, expected) in rows {
        let error = judge_reading(reading, 6).expect_err("the reading is not sound");
        assert_eq!(error.message(), expected);
    }
}

#[test]
fn every_option_is_read_as_often_as_it_is_sent() {
    let mut association = vec![0, 0, 0, 7, 0, 0, 0, 0, 0, 0, 0, 0];
    for last in [3, 1, 3] {
        let mut address = vec![0; 24];
        address[15] = last;
        association.extend(raw_option(5, &address));
    }
    let packet = solicit_with(&[
        raw_option(PRIVATE, &[2]),
        raw_option(6, &[0, 23, 0, 24]),
        raw_option(IANA, &association),
        raw_option(VENDOR_OPTS, &[0, 0, 0, 2]),
        raw_option(PRIVATE, &[1]),
        raw_option(VENDOR_OPTS, &[0, 0, 0, 1]),
        raw_option(PRIVATE, &[2]),
    ]);
    let message = decode_client_message(&packet).expect("a sound message");
    let payloads = |number: u16| {
        let mut found: Vec<Vec<u8>> = message
            .options
            .get_all(number)
            .into_iter()
            .map(|option| match option {
                ClientOption::Unknown(data) => data,
                other => panic!("expected an opaque option, got {other:?}"),
            })
            .collect();
        found.sort();
        found
    };
    assert_eq!(payloads(PRIVATE), [[1], [2], [2]]);
    assert_eq!(payloads(VENDOR_OPTS), [[0, 0, 0, 1], [0, 0, 0, 2]]);
    assert!(matches!(&message.options.get_all(6)[..], [ClientOption::Other]));
    match &message.options.get_all(IANA)[..] {
        [ClientOption::IaNa { id: 7, options }] => {
            let mut found: Vec<u8> = options
                .get_all(5)
                .into_iter()
                .map(|option| match option {
                    ClientOption::IaAddr(address) => address.octets[15],
                    other => panic!("expected an address, got {other:?}"),
                })
                .collect();
            found.sort();
            assert_eq!(found, [1, 3, 3]);
        }
        other => panic!("expected one association, got {other:?}"),
    }
}

#[test]
fn a_direct_packet_is_its_client_message() {
    let sound = solicit_with(&[raw_option(1, &[0, 4, 9]), raw_option(39, &[1, 0])]);
    let decoded = decode(&sound).expect("a sound packet");
    let message = decode_client_message(&sound).expect("a sound message");
    assert!(decoded.relay.is_none());
    assert_eq!(decoded.message.msg_type, message.msg_type);
    assert_eq!(decoded.message.xid, message.xid);
    for number in [1, 3, 39] {
        assert_eq!(
            format!("{:?}", decoded.message.options.get_all(number)),
            format!("{:?}", message.options.get_all(number))
        );
    }
    for packet in [&[1, 0][..], &[1, 0, 0, 1, 0, 3, 0, 0], &[1, 0, 0, 1, 0, 8, 0, 0]] {
        let refused = decode(packet).expect_err("not sound").message();
        assert_eq!(decode_client_message(packet).expect_err("not sound").message(), refused);
    }
}

#[test]
fn an_envelope_is_read_off_its_octets() {
    let mut packet = vec![RELAY_FORWARD, 0];
    packet.extend_from_slice(&[0x11; 16]);
    packet.extend_from_slice(&[0x22; 16]);
    packet.extend(raw_option(PRIVATE, b"left alone"));
    packet.extend(raw_option(RELAY_MSG, DIRECT_SOLICIT));
    packet.extend(raw_option(REMOTE_ID, b""));
    let decoded = decode_relay_forward(&packet).expect("a sound envelope");
    assert_eq!(decoded.message.msg_type, MessageType::Solicit);
    let relay = decoded.relay.expect("the message is relayed");
    assert_eq!(relay.hop_count, 0);
    assert_eq!(relay.link_address.octets, [0x11; 16]);
    assert_eq!(relay.peer_address.octets, [0x22; 16]);
    assert_eq!(relay.interface_id, None);
    assert_eq!(relay.remote_id.as_deref(), Some(&b""[..]));
    assert_eq!(relay.client_link_layer, None);
    assert!(matches!(decode_relay_forward(&[]), Err(DecodeError::MalformedPacket(_))));
}
