//! Making clients for management controllers.

use carbide_dhcp::redfish::{
    credentials_to_look_up, libredfish_endpoint_host, look_up_pin, pin_host, pin_or_detect,
    pin_step, plan_client, take_pin_read, BmcVendorOverrideResolver, ClientMode, HostPortPair,
    LookupStep, NoBmcVendorOverrides, PinStep, RedfishAuth, RedfishClientCreationError, VendorOverrideError, VendorSelection,
};
use libredfish::model::service_root::RedfishVendor;

#[test]
fn endpoint_host_brackets_only_bare_ipv6_literals() {
    for host in ["bmc.example.com", "192.0.2.10", "[2001:db8::10]"] {
        assert_eq!(libredfish_endpoint_host(host), host);
    }
    assert_eq!(libredfish_endpoint_host("2001:db8::10"), "[2001:db8::10]");
}

#[test]
fn a_formatted_host_is_left_as_it_is() {
    for host in ["2001:db8::10", "[2001:db8::10]", "::1", "[::1", "bmc", "", "::ffff:192.0.2.1"] {
        let formatted = libredfish_endpoint_host(host);
        assert_eq!(libredfish_endpoint_host(&formatted), formatted, "{host}");
    }
    assert_eq!(libredfish_endpoint_host("::ffff:192.0.2.1"), "[::ffff:192.0.2.1]");
}

#[test]
fn a_pin_is_looked_up_for_the_controllers_own_host() {
    let key = RedfishAuth::Key("bmc/root".to_string());
    let hint = VendorSelection::Hint(RedfishVendor::Dell);
    for found in [false, true] {
        for selection in [VendorSelection::Detect, hint] {
            let asked = pin_host("192.0.2.1", selection, &RedfishAuth::Anonymous, found);
            assert_eq!(asked.as_deref(), Some("192.0.2.1"));
            // Without its credentials a client is not made, and nothing is looked up for it.
            let asked = pin_host("192.0.2.1", selection, &key, found);
            assert_eq!(asked.as_deref(), found.then_some("192.0.2.1"));
        }
        for auth in [&RedfishAuth::Anonymous, &key] {
            assert_eq!(pin_host("192.0.2.1", VendorSelection::Uninitialized, auth, found), None);
        }
    }
}

#[test]
fn resolved_pins_and_their_absence_are_both_cached() {
    let dell = Some(RedfishVendor::Dell);
    let address = || Some("192.0.2.77".to_string());
    let done = |step: LookupStep| match step {
        LookupStep::Done(lookup) => lookup,
        LookupStep::Read => panic!("nothing is left to read"),
    };
    for (first, changed) in [(None, dell), (dell, None), (dell, Some(RedfishVendor::Supermicro))] {
        assert!(matches!(look_up_pin(address(), None, None), LookupStep::Read));
        let lookup = done(look_up_pin(address(), None, Some(Ok(first))));
        assert!(lookup.made_read);
        assert!(matches!(lookup.answer, Ok(pin) if pin == first));
        // The stored pin has changed since, and is not read.
        for read in [None, Some(Ok(changed))] {
            let again = done(look_up_pin(address(), lookup.remember, read));
            assert!(!again.made_read);
            assert!(matches!(again.answer, Ok(pin) if pin == first));
            assert_eq!(again.remember, Some(first));
        }
        // What was forgotten is read anew.
        let fresh = done(look_up_pin(address(), None, Some(Ok(changed))));
        assert!(fresh.made_read);
        assert!(matches!(fresh.answer, Ok(pin) if pin == changed));
    }
    let failed = done(look_up_pin(address(), None, Some(Err("down".to_string()))));
    assert!(matches!(
        failed.answer,
        Err(error) if error.host == "192.0.2.77" && error.source == "down"
    ));
    let again = done(look_up_pin(address(), failed.remember, None));
    assert!(!again.made_read);
    assert!(matches!(again.answer, Ok(None)));
}

#[test]
fn a_hostname_addressed_bmc_has_no_pin() {
    match look_up_pin(None, None, None) {
        LookupStep::Done(lookup) => {
            assert!(matches!(lookup.answer, Ok(None)));
            assert_eq!(lookup.remember, None);
            assert!(!lookup.made_read);
        }
        LookupStep::Read => panic!("there is no address to read a pin for"),
    }
}

#[test]
fn a_pin_is_read_once_for_an_address() {
    let dell = Some(RedfishVendor::Dell);
    assert_eq!(pin_step(false, None), PinStep::Answer(None));
    assert_eq!(pin_step(false, Some(dell)), PinStep::Answer(None));
    assert_eq!(pin_step(true, None), PinStep::Read);
    for (read, answer) in [(Ok(dell), dell), (Ok(None), None), (Err("down".to_string()), None)] {
        let taken = take_pin_read("192.0.2.1".to_string(), read);
        assert_eq!(pin_step(true, Some(taken.remember)), PinStep::Answer(answer));
    }
}

#[test]
fn pin_outranks_detection_but_never_the_uninitialized_mode() {
    let other = RedfishVendor::NvidiaGBx00;
    let rows = [
        (VendorSelection::Detect, None, ClientMode::Detect),
        (
            VendorSelection::Hint(RedfishVendor::Dell),
            None,
            ClientMode::Vendor(RedfishVendor::Dell),
        ),
        (VendorSelection::Uninitialized, None, ClientMode::Uninitialized),
        (
            VendorSelection::Detect,
            Some(RedfishVendor::Dell),
            ClientMode::Vendor(RedfishVendor::Dell),
        ),
        (
            VendorSelection::Hint(other),
            Some(RedfishVendor::Dell),
            ClientMode::Vendor(RedfishVendor::Dell),
        ),
        (
            VendorSelection::Uninitialized,
            Some(RedfishVendor::Dell),
            ClientMode::Uninitialized,
        ),
    ];
    for (selection, pin, expected) in rows {
        assert_eq!(selection.resolve(pin), expected, "{selection:?} {pin:?}");
    }
}

#[test]
fn a_failed_lookup_is_no_pin() {
    let failure = VendorOverrideError::new("192.0.2.1".to_string(), "no database".to_string());
    assert_eq!(
        failure.message(),
        "failed to resolve bmc_vendor_override for 192.0.2.1: no database"
    );
    assert_eq!(pin_or_detect(Err(failure)), None);
    assert_eq!(pin_or_detect(Ok(Some(RedfishVendor::Dell))), Some(RedfishVendor::Dell));
    assert_eq!(pin_or_detect(NoBmcVendorOverrides.vendor_override("192.0.2.1")), None);

    let failed = take_pin_read("192.0.2.1".to_string(), Err("no database".to_string()));
    assert_eq!(failed.remember, None);
    assert!(matches!(failed.result, Err(error) if error.host == "192.0.2.1"));
    let read = take_pin_read("192.0.2.1".to_string(), Ok(Some(RedfishVendor::Dell)));
    assert_eq!(read.remember, Some(RedfishVendor::Dell));
    assert!(matches!(read.result, Ok(Some(RedfishVendor::Dell))));
}

#[test]
fn a_client_is_planned_from_its_parts() {
    let direct = || RedfishAuth::Direct("root".to_string(), "secret".to_string());
    let plan = |proxy: Option<HostPortPair>| {
        plan_client(
            "2001:db8::1",
            Some(443),
            &proxy,
            direct(),
            None,
            VendorSelection::Detect,
            Some(RedfishVendor::Dell),
        )
        .expect("nothing is missing")
    };
    let request = plan(None);
    assert_eq!(request.endpoint.host, "[2001:db8::1]");
    assert_eq!(request.endpoint.port, Some(443));
    assert_eq!(request.endpoint.user.as_deref(), Some("root"));
    assert_eq!(request.endpoint.password.as_deref(), Some("secret"));
    assert_eq!(request.forwarded_host, None);
    assert_eq!(request.mode, ClientMode::Vendor(RedfishVendor::Dell));

    let request = plan(Some(HostPortPair::HostAndPort("proxy".to_string(), 8443)));
    assert_eq!((request.endpoint.host.as_str(), request.endpoint.port), ("proxy", Some(8443)));
    assert_eq!(request.forwarded_host.as_deref(), Some("2001:db8::1"));
    let request = plan(Some(HostPortPair::HostOnly("proxy".to_string())));
    assert_eq!((request.endpoint.host.as_str(), request.endpoint.port), ("proxy", Some(443)));
    assert_eq!(request.forwarded_host.as_deref(), Some("2001:db8::1"));
    let request = plan(Some(HostPortPair::PortOnly(8443)));
    assert_eq!(
        (request.endpoint.host.as_str(), request.endpoint.port),
        ("[2001:db8::1]", Some(8443))
    );
    assert_eq!(request.forwarded_host, None);
}

#[test]
fn credentials_come_from_where_the_client_says() {
    let key = RedfishAuth::Key("bmc/root".to_string());
    assert_eq!(credentials_to_look_up(&key).as_deref(), Some("bmc/root"));
    assert_eq!(credentials_to_look_up(&RedfishAuth::Anonymous), None);

    let missing =
        plan_client("bmc", None, &None, key, None, VendorSelection::Uninitialized, None);
    assert!(matches!(
        missing,
        Err(RedfishClientCreationError::MissingCredentials { key }) if key == "bmc/root"
    ));
    let found = plan_client(
        "bmc",
        None,
        &None,
        RedfishAuth::Key("bmc/root".to_string()),
        Some(("admin".to_string(), "word".to_string())),
        VendorSelection::Uninitialized,
        None,
    )
    .expect("the key is known");
    assert_eq!(found.endpoint.user.as_deref(), Some("admin"));
    assert_eq!(found.endpoint.password.as_deref(), Some("word"));
    let anonymous = plan_client(
        "bmc",
        None,
        &None,
        RedfishAuth::Anonymous,
        None,
        VendorSelection::Detect,
        None,
    )
    .expect("nothing is missing");
    assert_eq!(anonymous.endpoint.user, None);
    assert_eq!(anonymous.mode, ClientMode::Detect);
}
