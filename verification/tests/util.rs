use carbide_dhcp::metrics::SocketSetupNextAction;
use carbide_dhcp::text::u8_to_mac;
use carbide_dhcp::errors::DhcpError;
use carbide_dhcp::util::{interface_bind_next_action, socket_setup_next_action, u8_to_hex_string};

#[test]
fn u8_to_mac_zero_pads_octets() {
    assert_eq!(
        u8_to_mac(&[0x00, 0x00, 0x5e, 0x00, 0x53, 0x01]),
        "00:00:5e:00:53:01"
    );
}

#[test]
fn socket_setup_failures_report_whether_the_next_step_retries_or_panics() {
    for (retry, expected) in [
        (0, SocketSetupNextAction::Retry),
        (8, SocketSetupNextAction::Retry),
        (9, SocketSetupNextAction::Panic),
    ] {
        assert_eq!(socket_setup_next_action(retry), expected);
    }
    for (retries_left, expected) in [
        (9, SocketSetupNextAction::Retry),
        (1, SocketSetupNextAction::Retry),
        (0, SocketSetupNextAction::Panic),
    ] {
        assert_eq!(interface_bind_next_action(retries_left), expected);
    }
}

#[test]
fn octets_that_are_no_text_are_told_as_the_standard_library_tells_them() {
    assert!(matches!(u8_to_hex_string("h\u{e9}llo".as_bytes()), Ok(text) if text == "h\u{e9}llo"));
    for octets in [&b"a\xff"[..], &b"\xe2\x82"[..]] {
        let words = core::str::from_utf8(octets).expect_err("no text").to_string();
        assert!(matches!(u8_to_hex_string(octets), Err(DhcpError::Utf8Error(told)) if told == words));
    }
}
