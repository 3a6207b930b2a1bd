//! What is counted and logged.

use carbide_dhcp::address::Ipv4Addr;
use carbide_dhcp::errors::DhcpError;
use carbide_dhcp::message::{MessageType, MessageTypeV4, OptionCode};
use carbide_dhcp::metrics::{
    DhcpInterfaceBindFailed, DhcpPacketDropped, DhcpReplySent, DhcpRequestReceived,
    DhcpSocketSetupFailed, DhcpTimestampFileFailed, DhcpV6ListenerUnavailable, DhcpV6ReplySent,
    DhcpV6RequestDropped, DhcpV6RequestReceived, DropReason, EventRecord, LogLevel,
    MessageTypeLabel, SocketSetupNextAction, SocketSetupOperation, V6DropReason,
    V6ReplyMessageType,
};

const SOCKET_SETUP_FAILURE_METRIC: &str = "carbide_dhcp_socket_setup_failures_total";
const TIMESTAMP_FILE_FAILURE_METRIC: &str = "carbide_dhcp_timestamp_file_failures_total";
const V6_LISTENER_UNAVAILABLE_METRIC: &str = "carbide_dhcp_v6_listener_unavailable_total";

/// The parts of a record.
fn parts(record: EventRecord) -> (&'static str, &'static str, LogLevel, &'static str) {
    (record.event_name, record.metric_name, record.level, record.message)
}

/// The next step, the retry and the error of a failed socket call.
fn fields(event: &DhcpSocketSetupFailed) -> (SocketSetupNextAction, i64, &str) {
    match event {
        DhcpSocketSetupFailed::Create { next_action, retry, error }
        | DhcpSocketSetupFailed::ReuseAddress { next_action, retry, error }
        | DhcpSocketSetupFailed::SetNonblocking { next_action, retry, error }
        | DhcpSocketSetupFailed::BindAddress { next_action, retry, error }
        | DhcpSocketSetupFailed::SetBroadcast { next_action, retry, error }
        | DhcpSocketSetupFailed::BindDevice { next_action, retry, error } => {
            (*next_action, *retry, error)
        }
    }
}

#[test]
fn socket_setup_failures_keep_the_existing_diagnostics() {
    let rows = [
        (
            SocketSetupOperation::Create,
            SocketSetupNextAction::Retry,
            0,
            "too many open files",
            "Socket creation failed",
            "create",
            "retry",
        ),
        (
            SocketSetupOperation::ReuseAddress,
            SocketSetupNextAction::Retry,
            1,
            "operation not supported",
            "Socket set option failed",
            "reuse_address",
            "retry",
        ),
        (
            SocketSetupOperation::SetNonblocking,
            SocketSetupNextAction::Retry,
            2,
            "bad file descriptor",
            "Socket set option failed",
            "set_nonblocking",
            "retry",
        ),
        (
            SocketSetupOperation::BindAddress,
            SocketSetupNextAction::Retry,
            3,
            "address in use",
            "Socket set option failed",
            "bind_address",
            "retry",
        ),
        (
            SocketSetupOperation::SetBroadcast,
            SocketSetupNextAction::Panic,
            9,
            "permission denied",
            "Socket set option failed",
            "set_broadcast",
            "panic",
        ),
    ];
    for (operation, next_action, retry, error, message, operation_label, next_label) in rows {
        let event = DhcpSocketSetupFailed::new(operation, next_action, retry, error.to_string());
        assert_eq!(
            parts(event.record()),
            (
                "dhcp_server_socket_setup_failed",
                SOCKET_SETUP_FAILURE_METRIC,
                LogLevel::Info,
                message
            )
        );
        assert_eq!(event.operation().label(), operation_label);
        assert_eq!(fields(&event), (next_action, i64::from(retry), error));
        assert_eq!(next_action.label(), next_label);
    }

    let rows = [
        (SocketSetupNextAction::Retry, 1, "device not found", "retry"),
        (SocketSetupNextAction::Panic, 0, "permission denied", "panic"),
    ];
    for (next_action, retries_left, error, next_label) in rows {
        let event = DhcpInterfaceBindFailed::new(
            next_action,
            "pf0hpf".to_string(),
            retries_left,
            error.to_string(),
        );
        assert_eq!(
            parts(event.record()),
            (
                "dhcp_server_interface_bind_failed",
                SOCKET_SETUP_FAILURE_METRIC,
                LogLevel::Info,
                "Interface not ready, retrying"
            )
        );
        assert_eq!(event.operation.label(), "bind_device");
        assert_eq!(event.next_action.label(), next_label);
        assert_eq!(event.interface_name, "pf0hpf");
        assert_eq!(event.retries_left, i64::from(retries_left));
        assert_eq!(event.error, error);
    }
}

#[test]
fn timestamp_file_failures_log_and_count_by_operation() {
    let temporary = "/var/support/forge-dhcp/logs/dhcp_timestamps.json.tmp";
    let rows = [
        (
            DhcpTimestampFileFailed::Initialization {
                dhcp_timestamps_path: temporary.to_string(),
                error: "permission denied".to_string(),
            },
            "initialize",
            LogLevel::Error,
            "Failed to init DHCP timestamps file",
        ),
        (
            DhcpTimestampFileFailed::Write {
                dhcp_timestamps_path: temporary.to_string(),
                host_interface_id: "60cef902-9779-4666-8362-c9bb4b37185f".to_string(),
                error: "read-only file system".to_string(),
            },
            "write",
            LogLevel::Error,
            "Failed to write DHCP timestamps file",
        ),
        (
            DhcpTimestampFileFailed::Read {
                dhcp_timestamps_path: "/var/support/forge-dhcp/logs/dhcp_timestamps.json".to_string(),
                error: "file not found".to_string(),
            },
            "read",
            LogLevel::Warn,
            "Failed to read DHCP timestamps file",
        ),
    ];
    for (event, operation, level, message) in rows {
        assert_eq!(
            parts(event.record()),
            ("dhcp_timestamp_file_failed", TIMESTAMP_FILE_FAILURE_METRIC, level, message)
        );
        assert_eq!(event.operation().label(), operation);
    }
}

#[test]
fn message_type_label_maps_the_rfc2131_set_and_buckets_the_rest() {
    let rows = [
        (MessageTypeV4::Discover, MessageTypeLabel::Discover),
        (MessageTypeV4::Request, MessageTypeLabel::Request),
        (MessageTypeV4::Offer, MessageTypeLabel::Offer),
        (MessageTypeV4::Ack, MessageTypeLabel::Ack),
        (MessageTypeV4::Nak, MessageTypeLabel::Nak),
        (MessageTypeV4::Release, MessageTypeLabel::Release),
        (MessageTypeV4::Decline, MessageTypeLabel::Decline),
        (MessageTypeV4::Inform, MessageTypeLabel::Inform),
        (MessageTypeV4::LeaseQuery, MessageTypeLabel::Other),
        (MessageTypeV4::Unknown(250), MessageTypeLabel::Other),
    ];
    for (message_type, expected) in rows {
        assert_eq!(MessageTypeLabel::from(message_type), expected);
    }
}

#[test]
fn message_type_label_maps_the_supported_dhcpv6_set() {
    let rows = [
        (MessageType::Solicit, MessageTypeLabel::Solicit),
        (MessageType::Request, MessageTypeLabel::Request),
        (MessageType::Renew, MessageTypeLabel::Renew),
        (MessageType::Rebind, MessageTypeLabel::Rebind),
        (MessageType::Confirm, MessageTypeLabel::Confirm),
        (MessageType::InformationRequest, MessageTypeLabel::InformationRequest),
        (MessageType::Advertise, MessageTypeLabel::Advertise),
        (MessageType::Reply, MessageTypeLabel::Reply),
        (MessageType::Release, MessageTypeLabel::Release),
        (MessageType::Decline, MessageTypeLabel::Decline),
        (MessageType::RelayForw, MessageTypeLabel::Other),
    ];
    for (message_type, expected) in rows {
        assert_eq!(MessageTypeLabel::from(message_type), expected);
    }
}

#[test]
fn drop_reason_covers_every_dhcp_error_variant() {
    let text = |text: &str| text.to_string();
    let rows = [
        (DhcpError::IoError(text("read failed")), DropReason::IoError),
        (DhcpError::SerdeYaml(text("not a number")), DropReason::ConfigParseFailure),
        (DhcpError::MissingArgument(text("interface")), DropReason::MissingArgument),
        (DhcpError::MissingOption(text("MessageType")), DropReason::MissingOption),
        (
            DhcpError::UnhandledMessageType(MessageTypeV4::Offer),
            DropReason::UnhandledMessageType,
        ),
        (
            DhcpError::DhcpDeclineMessage(text("10.0.0.1"), text("aa:bb:cc:dd:ee:ff")),
            DropReason::DhcpDeclineMessage,
        ),
        (DhcpError::MissingRelayCode(text("LinkSelection")), DropReason::MissingRelayCode),
        (DhcpError::InvalidInput(text("bad")), DropReason::InvalidInput),
        (DhcpError::GenericError(text("oops")), DropReason::GenericError),
        (DhcpError::TonicStatusError(text("api down")), DropReason::UpstreamApiError),
        (DhcpError::Utf8Error(text("invalid utf-8")), DropReason::Utf8Error),
        (DhcpError::PacketDecodeFailure(text("not enough bytes")), DropReason::PacketDecodeFailure),
        (DhcpError::PacketEncodeFailure(text("overflow")), DropReason::PacketEncodeFailure),
        (DhcpError::AddressParseError(text("no address")), DropReason::AddressParseError),
        (
            DhcpError::NonRelayedPacket(Ipv4Addr { octets: [0, 0, 0, 0] }),
            DropReason::NonRelayedPacket,
        ),
        (DhcpError::UnknownPacket(2), DropReason::UnknownPacket),
        (DhcpError::NotMyPacket(text("10.0.0.2")), DropReason::NotMyPacket),
        (DhcpError::VendorClassParseError(text("garbled")), DropReason::VendorClassParseError),
        (
            DhcpError::MultipleInterfacesProvidedOneSupported(2),
            DropReason::MultipleInterfaces,
        ),
        (DhcpError::MissingOptionV6(OptionCode::ClientId), DropReason::MissingOptionV6),
        (
            DhcpError::UnhandledMessageTypeV6(MessageType::Advertise),
            DropReason::UnhandledMessageTypeV6,
        ),
        (DhcpError::MalformedDuid, DropReason::MalformedDuid),
        (DhcpError::UnsupportedDuidType(99), DropReason::UnsupportedDuid),
        (DhcpError::NoMacNoOption79, DropReason::NoMacNoOption79),
        (DhcpError::NestedRelayV6, DropReason::NestedRelayV6),
        (DhcpError::RelayHopCountExceededV6(2), DropReason::RelayHopCountExceededV6),
    ];
    for (error, expected) in &rows {
        assert_eq!(DropReason::from(error), *expected, "{error:?}");
    }
    // No two kinds of error share a reason.
    for (i, (_, left)) in rows.iter().enumerate() {
        for (_, right) in &rows[i + 1..] {
            assert_ne!(left, right);
        }
    }
}

#[test]
fn v6_drop_reason_preserves_identity_relay_and_api_failures() {
    let text = |text: &str| text.to_string();
    let rows = [
        (DhcpError::NestedRelayV6, V6DropReason::NestedRelay),
        (DhcpError::RelayHopCountExceededV6(2), V6DropReason::RelayHopCountExceeded),
        (DhcpError::NoMacNoOption79, V6DropReason::NoMacNoOption79),
        (DhcpError::MalformedDuid, V6DropReason::MalformedDuid),
        (DhcpError::UnsupportedDuidType(99), V6DropReason::UnsupportedDuid),
        (
            DhcpError::UnhandledMessageTypeV6(MessageType::RelayForw),
            V6DropReason::UnsupportedMessage,
        ),
        (DhcpError::TonicStatusError(text("api down")), V6DropReason::FetchMachineError),
        (DhcpError::GenericError(text("api transport failed")), V6DropReason::FetchMachineError),
        (DhcpError::InvalidInput(text("bad packet")), V6DropReason::InvalidPacket),
    ];
    for (error, expected) in &rows {
        assert_eq!(V6DropReason::from(error), *expected, "{error:?}");
    }
}

#[test]
fn v6_listener_unavailability_counts_each_reason_and_logs_diagnostics() {
    let rows = [
        (
            DhcpV6ListenerUnavailable::InitialSocketSetup {
                interface_name: "eth0".to_string(),
                error: "address unavailable".to_string(),
            },
            "initial_socket_setup",
            "DHCPv6 listener unavailable",
        ),
        (
            DhcpV6ListenerUnavailable::SocketRecreation {
                interface_name: "eth1".to_string(),
                error: "device disappeared".to_string(),
            },
            "socket_recreation",
            "DHCPv6 listener could not be recreated",
        ),
    ];
    for (event, reason, message) in rows {
        assert_eq!(event.reason().label(), reason);
        assert_eq!(
            parts(event.record()),
            (
                "dhcp_server_v6_listener_unavailable",
                V6_LISTENER_UNAVAILABLE_METRIC,
                LogLevel::Warn,
                message
            )
        );
    }
}

#[test]
fn packet_events_count_per_label_and_log_at_their_operational_level() {
    let address = |last: u8| Ipv4Addr { octets: [192, 0, 2, last] };
    let request = DhcpRequestReceived {
        message_type: MessageTypeLabel::Release,
        bootp_op: 1,
        source_address: "192.0.2.10:68".to_string(),
        xid: 0x0102_0304,
        broadcast_flag: true,
        ciaddr: address(20),
        yiaddr: address(21),
        siaddr: address(1),
        giaddr: address(254),
        chaddr: "00:11:22:33:44:55".to_string(),
    };
    assert_eq!(request.message_type.label(), "release");
    assert_eq!((request.bootp_op, request.xid, request.broadcast_flag), (1, 16_909_060, true));
    assert_eq!(request.source_address, "192.0.2.10:68");
    assert_eq!(request.ciaddr.octets, [192, 0, 2, 20]);
    assert_eq!(request.chaddr, "00:11:22:33:44:55");
    assert_eq!(
        parts(request.record()),
        (
            "dhcp_server_request_received",
            "carbide_dhcp_requests_total",
            LogLevel::Info,
            "Decoded DHCP packet"
        )
    );
    let reply = DhcpReplySent {
        message_type: MessageTypeLabel::Nak,
        destination_address: "192.0.2.10:68".to_string(),
        xid: 0x0102_0304,
        broadcast_flag: true,
        ciaddr: address(20),
        yiaddr: address(21),
        siaddr: address(1),
        giaddr: address(254),
        chaddr: "00:11:22:33:44:55".to_string(),
    };
    assert_eq!(reply.message_type.label(), "nak");
    assert_eq!(
        parts(reply.record()),
        (
            "dhcp_server_reply_sent",
            "carbide_dhcp_replies_sent_total",
            LogLevel::Info,
            "Sent DHCP reply"
        )
    );
    let request = DhcpV6RequestReceived { message_type: MessageTypeLabel::Confirm };
    assert_eq!(request.message_type.label(), "confirm");
    assert_eq!(request.record().metric_name, "carbide_dhcp_v6_requests_total");
    assert_eq!(request.record().level, LogLevel::Off);
    let reply = DhcpV6ReplySent { message_type: V6ReplyMessageType::Reply };
    assert_eq!(reply.message_type.label(), "reply");
    assert_eq!(reply.record().metric_name, "carbide_dhcp_v6_replies_sent_total");
    assert_eq!(reply.record().level, LogLevel::Off);
    let dropped = DhcpPacketDropped {
        reason: DropReason::RateLimited,
        error: "parallel packet handling limit reached".to_string(),
    };
    assert_eq!(dropped.reason.label(), "rate_limited");
    assert_eq!(
        parts(dropped.record()),
        (
            "dhcp_server_packet_dropped",
            "carbide_dhcp_dropped_requests_total",
            LogLevel::Error,
            "Dropped a DHCP packet"
        )
    );
    let error = DhcpError::TonicStatusError("api down".to_string());
    let dropped = DhcpPacketDropped {
        reason: DropReason::from(&error),
        error: error.message(),
    };
    assert_eq!(dropped.reason.label(), "upstream_api_error");
    assert!(dropped.error.contains("api down"));
    assert_eq!(
        parts(dropped.record()),
        (
            "dhcp_server_packet_dropped",
            "carbide_dhcp_dropped_requests_total",
            LogLevel::Error,
            "Dropped a DHCP packet"
        )
    );
    let dropped = DhcpV6RequestDropped {
        reason: V6DropReason::RateLimited,
        error: "v6 parallel packet handling limit reached".to_string(),
    };
    assert_eq!(dropped.reason.label(), "rate_limited");
    assert!(dropped.error.contains("v6 parallel"));
    assert_eq!(
        parts(dropped.record()),
        (
            "dhcp_server_v6_request_dropped",
            "carbide_dhcp_v6_requests_dropped_total",
            LogLevel::Error,
            "Dropped a DHCPv6 packet"
        )
    );
}

#[test]
fn labels_are_written_in_lower_case() {
    assert_eq!(MessageTypeLabel::InformationRequest.label(), "information_request");
    assert_eq!(MessageTypeLabel::Other.label(), "other");
    assert_eq!(DropReason::NotIpv4.label(), "not_ipv4");
    assert_eq!(DropReason::Utf8Error.label(), "utf8_error");
    assert_eq!(DropReason::MissingOptionV6.label(), "missing_option_v6");
    assert_eq!(DropReason::NoMacNoOption79.label(), "no_mac_no_option79");
    assert_eq!(V6DropReason::RelayHopCountExceeded.label(), "relay_hop_count_exceeded");
    assert_eq!(V6DropReason::FetchMachineError.label(), "fetch_machine_error");
    assert_eq!(V6ReplyMessageType::Advertise.label(), "advertise");
}
