//! Starting, reloading, supervising and stopping the server.

use carbide_dhcp::control::{
    check_interfaces, control_step, default_host_config, dhcp_promotion, forge_client_config,
    host_config_to_read, host_promotion, needs_staging, plan_reload, staged_host_path, staged_path, starts_at_once, Args, ControlAction, ControlEvent,
    ReloadPlan, ReloadRequest, ServerMode, SkipReason, TlsDefaults,
};
use carbide_dhcp::errors::DhcpError;
use carbide_dhcp::supervise::{
    needs_supervision, supervise_step, ListenerEvent, SupervisorAction, V4ListenerFailure,
};

fn test_args() -> Args {
    Args {
        interfaces: vec!["eth0".to_string()],
        relay_response_port: 67,
        dhcp_config: "conf/conf.yaml".to_string(),
        host_config: Some("test/host_config.yaml".to_string()),
        forge_root_ca_path: None,
        client_cert_path: None,
        client_key_path: None,
        mode: ServerMode::Dpu,
    }
}

/// Both ways in which a listener's task ends before it should.
fn failures() -> [V4ListenerFailure; 2] {
    [V4ListenerFailure::Returned, V4ListenerFailure::Join("the task panicked".to_string())]
}

fn same_failure(left: &V4ListenerFailure, right: &V4ListenerFailure) -> bool {
    match (left, right) {
        (V4ListenerFailure::Returned, V4ListenerFailure::Returned) => true,
        (V4ListenerFailure::Join(left), V4ListenerFailure::Join(right)) => left == right,
        _ => false,
    }
}

#[test]
fn listener_supervision_fails_when_the_last_v4_listener_exits() {
    for (failure, expected) in failures().into_iter().zip(failures()) {
        let event = ListenerEvent::V4Exited { failure, cancelled: false };
        match supervise_step(1, event) {
            SupervisorAction::Fail { failure } => assert!(same_failure(&failure, &expected)),
            other => panic!("unexpected v4 supervision result: {other:?}"),
        }
    }
}

#[test]
fn listener_supervision_preserves_siblings_until_the_last_v4_listener_exits() {
    for (failure, expected) in failures().into_iter().zip(failures()) {
        let event = ListenerEvent::V4Exited { failure, cancelled: false };
        let remaining = match supervise_step(2, event) {
            SupervisorAction::ReportV4 { failure, remaining } => {
                assert!(same_failure(&failure, &expected));
                remaining
            }
            other => panic!("one listener's exit ended the generation: {other:?}"),
        };
        assert_eq!(remaining, 1);
        let last = ListenerEvent::V4Exited {
            failure: V4ListenerFailure::Returned,
            cancelled: false,
        };
        assert!(matches!(
            supervise_step(remaining, last),
            SupervisorAction::Fail { failure: V4ListenerFailure::Returned }
        ));
    }
}

#[test]
fn listener_supervision_cancels_cleanly_after_partial_v4_failure() {
    let exit =
        ListenerEvent::V4Exited { failure: V4ListenerFailure::Returned, cancelled: false };
    let remaining = match supervise_step(2, exit) {
        SupervisorAction::ReportV4 { remaining, .. } => remaining,
        other => panic!("partial v4 failure must keep the generation alive: {other:?}"),
    };
    assert!(matches!(
        supervise_step(remaining, ListenerEvent::Cancelled),
        SupervisorAction::Stop
    ));
    // A listener that ends because of the cancellation is no failure, even when it is heard first.
    let late = ListenerEvent::V4Exited { failure: V4ListenerFailure::Returned, cancelled: true };
    assert!(matches!(supervise_step(remaining, late), SupervisorAction::Stop));
}

#[test]
fn listener_supervision_keeps_v4_running_after_v6_exit() {
    for error in [None, Some("the task panicked".to_string())] {
        let action = supervise_step(1, ListenerEvent::V6Exited { error: error.clone() });
        assert!(matches!(
            action,
            SupervisorAction::Continue { v6_error } if v6_error == error
        ));
    }
    assert!(needs_supervision(1));
    assert!(!needs_supervision(0));
}

#[test]
fn listener_failures_are_told() {
    assert_eq!(
        V4ListenerFailure::Returned.message(),
        "listener returned before generation cancellation"
    );
    assert_eq!(
        V4ListenerFailure::Join("it panicked".to_string()).message(),
        "listener task failed: it panicked"
    );
}

/// What is known of a server that is down and has an interface.
fn idle() -> ReloadRequest {
    ReloadRequest {
        has_interfaces: true,
        dhcp_staged: false,
        host_staged: false,
        force_start: false,
        running: false,
    }
}

#[test]
fn reload_skips_when_nothing_staged() {
    assert_eq!(plan_reload(idle()), ReloadPlan::Skip(SkipReason::NothingStaged));
    let running = ReloadRequest { running: true, ..idle() };
    assert_eq!(plan_reload(running), ReloadPlan::Skip(SkipReason::NothingStaged));
}

#[test]
fn reload_skips_when_interfaces_empty() {
    let request = ReloadRequest { has_interfaces: false, dhcp_staged: true, ..idle() };
    assert_eq!(plan_reload(request), ReloadPlan::Skip(SkipReason::NoInterfaces));
    let forced = ReloadRequest { has_interfaces: false, force_start: true, ..idle() };
    assert_eq!(plan_reload(forced), ReloadPlan::Skip(SkipReason::NoInterfaces));
}

#[test]
fn reload_force_start_with_no_staged_files() {
    let request = ReloadRequest { force_start: true, ..idle() };
    assert_eq!(
        plan_reload(request),
        ReloadPlan::Restart { stop_running: false, promote_dhcp: false }
    );
}

#[test]
fn reload_no_force_start_with_no_staged_files() {
    let request = ReloadRequest { force_start: false, ..idle() };
    assert_eq!(plan_reload(request), ReloadPlan::Skip(SkipReason::NothingStaged));
}

#[test]
fn reload_takes_staged_files_over() {
    let dhcp = ReloadRequest { dhcp_staged: true, running: true, ..idle() };
    assert_eq!(
        plan_reload(dhcp),
        ReloadPlan::Restart { stop_running: true, promote_dhcp: true }
    );
    let host = ReloadRequest { host_staged: true, running: true, ..idle() };
    assert_eq!(
        plan_reload(host),
        ReloadPlan::Restart { stop_running: true, promote_dhcp: false }
    );
}

#[test]
fn stop_then_update_restarts_server() {
    assert_eq!(
        control_step(true, ControlEvent::Stop),
        ControlAction::StopServer { stop_running: true }
    );
    let force_start = match control_step(false, ControlEvent::UpdateAndReload) {
        ControlAction::Reload { force_start } => force_start,
        other => panic!("an update reloads: {other:?}"),
    };
    assert!(force_start);
    let staged = ReloadRequest { dhcp_staged: true, force_start, ..idle() };
    assert_eq!(
        plan_reload(staged),
        ReloadPlan::Restart { stop_running: false, promote_dhcp: true }
    );
    assert_eq!(
        control_step(true, ControlEvent::UpdateAndReload),
        ControlAction::Reload { force_start: false }
    );
}

#[test]
fn stop_when_server_not_running_is_noop() {
    assert_eq!(
        control_step(false, ControlEvent::Stop),
        ControlAction::StopServer { stop_running: false }
    );
}

#[test]
fn the_end_of_the_server_or_of_the_orders_ends_the_program() {
    assert_eq!(
        control_step(true, ControlEvent::ServerExited),
        ControlAction::Terminate { stop_running: false }
    );
    for running in [false, true] {
        assert_eq!(
            control_step(running, ControlEvent::ChannelClosed),
            ControlAction::Terminate { stop_running: running }
        );
    }
}

#[test]
fn forge_client_tls_paths_are_configurable() {
    let defaults = TlsDefaults {
        root_ca_path: "/default/ca.crt".to_string(),
        cert_path: "/default/client.crt".to_string(),
        key_path: "/default/client.key".to_string(),
    };
    let config = forge_client_config(&test_args(), &defaults).expect("defaults are enough");
    assert_eq!(config.root_ca_path, "/default/ca.crt");
    let identity = config.client_cert.expect("a certificate");
    assert_eq!(identity.cert_path, "/default/client.crt");
    assert_eq!(identity.key_path, "/default/client.key");

    let mut explicit = test_args();
    explicit.forge_root_ca_path = Some("/local/ca.crt".to_string());
    explicit.client_cert_path = Some("/local/client.crt".to_string());
    explicit.client_key_path = Some("/local/client.key".to_string());
    let config = forge_client_config(&explicit, &defaults).expect("all paths are there");
    assert_eq!(config.root_ca_path, "/local/ca.crt");
    let identity = config.client_cert.expect("a certificate");
    assert_eq!(identity.cert_path, "/local/client.crt");
    assert_eq!(identity.key_path, "/local/client.key");

    explicit.client_key_path = None;
    assert!(forge_client_config(&explicit, &defaults).is_err());
    explicit.client_cert_path = None;
    assert!(forge_client_config(&explicit, &defaults).is_ok());
}

#[test]
fn a_controller_serves_one_interface() {
    let mut args = test_args();
    args.mode = ServerMode::Controller;
    assert!(check_interfaces(&args).is_ok());
    args.interfaces = Vec::new();
    assert!(check_interfaces(&args).is_ok());
    args.interfaces = vec!["eth0".to_string(), "eth1".to_string()];
    assert!(matches!(
        check_interfaces(&args),
        Err(DhcpError::MultipleInterfacesProvidedOneSupported(2))
    ));
    args.mode = ServerMode::Dpu;
    assert!(check_interfaces(&args).is_ok());
}

#[test]
fn a_dpu_needs_its_host_configuration() {
    let mut args = test_args();
    assert!(matches!(
        host_config_to_read(&args),
        Ok(Some(path)) if path == "test/host_config.yaml"
    ));
    args.host_config = None;
    assert!(matches!(
        host_config_to_read(&args),
        Err(DhcpError::MissingArgument(text)) if text == "--host_config is missing."
    ));
    args.mode = ServerMode::Controller;
    assert!(matches!(host_config_to_read(&args), Ok(None)));
    let args = default_host_config(args);
    assert_eq!(args.host_config.as_deref(), Some("/var/support/forge-dhcp/conf/host.yaml"));
    assert_eq!(
        default_host_config(test_args()).host_config.as_deref(),
        Some("test/host_config.yaml")
    );
}

#[test]
fn new_files_are_staged_only_when_they_differ() {
    assert_eq!(staged_path("conf/conf.yaml"), "conf/conf.yaml_new");
    assert!(!needs_staging(Some("same".to_string()), &"same".to_string()));
    assert!(needs_staging(Some("old".to_string()), &"new".to_string()));
    assert!(needs_staging(None, &"new".to_string()));
    assert!(!needs_staging(None, &String::new()));
    assert!(starts_at_once(true, &test_args()));
    assert!(!starts_at_once(false, &test_args()));
    let mut args = test_args();
    args.interfaces.clear();
    assert!(!starts_at_once(true, &args));
}

#[test]
fn staged_files_take_the_place_of_the_current_ones() {
    let args = test_args();
    let bare = Args { host_config: None, ..test_args() };
    assert_eq!(staged_host_path(&args).as_deref(), Some("test/host_config.yaml_new"));
    assert_eq!(staged_host_path(&bare), None);
    for promote_dhcp in [false, true] {
        let plan = ReloadPlan::Restart { stop_running: true, promote_dhcp };
        let promotion = dhcp_promotion(&args, plan);
        assert_eq!(promotion.is_some(), promote_dhcp);
        if let Some(promotion) = promotion {
            assert_eq!(promotion.from, "conf/conf.yaml_new");
            assert_eq!(promotion.to, "conf/conf.yaml");
        }
        // The host's file is looked for again when the old server is down.
        let promotion = host_promotion(&args, plan, true).expect("a new file waits");
        assert_eq!(promotion.from, "test/host_config.yaml_new");
        assert_eq!(promotion.to, "test/host_config.yaml");
        assert!(host_promotion(&args, plan, false).is_none());
        assert!(host_promotion(&bare, plan, true).is_none());
    }
    let skipped = ReloadPlan::Skip(SkipReason::NothingStaged);
    assert!(dhcp_promotion(&args, skipped).is_none());
    assert!(host_promotion(&args, skipped, true).is_none());
}
