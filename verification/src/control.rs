//! Starting, reloading and stopping the server.

use crate::config::{ClientCert, ForgeClientConfig};
use crate::errors::DhcpError;
#[allow(unused_imports)]
use crate::{errors::ErrorView, text::text_of};
use vstd::prelude::*;
use vstd::string::StringExecFns;

verus! {

/// Where a server gets its answers.
#[derive(Debug, Clone, Copy, PartialEq, Eq, Structural)]
pub enum ServerMode {
    Dpu,
    Controller,
}

/// What a server is started with.
#[derive(Debug)]
pub struct Args {
    pub interfaces: Vec<String>,
    pub relay_response_port: u16,
    pub dhcp_config: String,
    pub host_config: Option<String>,
    pub forge_root_ca_path: Option<String>,
    pub client_cert_path: Option<String>,
    pub client_key_path: Option<String>,
    pub mode: ServerMode,
}

/// A controller serves one interface. Interfaces that are not known yet are no fault.
pub fn check_interfaces(args: &Args) -> (result: Result<(), DhcpError>)
    ensures
        match result {
            Ok(_) => args.mode == ServerMode::Dpu || args.interfaces@.len() <= 1,
            Err(error) => {
                &&& args.mode == ServerMode::Controller
                &&& args.interfaces@.len() > 1
                &&& error@ == ErrorView::MultipleInterfacesProvidedOneSupported(
                    args.interfaces.len(),
                )
            },
        },
{
    if args.mode == ServerMode::Controller && args.interfaces.len() != 0 && args.interfaces.len()
        != 1 {
        return Err(DhcpError::MultipleInterfacesProvidedOneSupported(args.interfaces.len()));
    }
    Ok(())
}

/// The certificate paths that are used where none are given.
#[derive(Debug)]
pub struct TlsDefaults {
    pub root_ca_path: String,
    pub cert_path: String,
    pub key_path: String,
}

/// How the API is reached: by the paths that are given, or else by the default ones. A certificate
/// and its key are given together or not at all.
pub fn forge_client_config(args: &Args, defaults: &TlsDefaults) -> (result: Result<
    ForgeClientConfig,
    DhcpError,
>)
    ensures
        (args.client_cert_path is Some) == (args.client_key_path is Some) <==> result is Ok,
        match result {
            Ok(config) => {
                &&& config.root_ca_path@ == (match args.forge_root_ca_path {
                    Some(path) => path@,
                    None => defaults.root_ca_path@,
                })
                &&& config.client_cert is Some
                &&& config.client_cert->Some_0.cert_path@ == (match args.client_cert_path {
                    Some(path) => path@,
                    None => defaults.cert_path@,
                })
                &&& config.client_cert->Some_0.key_path@ == (match args.client_key_path {
                    Some(path) => path@,
                    None => defaults.key_path@,
                })
            },
            Err(error) => error@ == ErrorView::MissingArgument(
                "client_cert_path and client_key_path must be configured together"@,
            ),
        },
{
    let root_ca_path = match &args.forge_root_ca_path {
        Some(path) => path.clone(),
        None => defaults.root_ca_path.clone(),
    };
    let client_cert = match (&args.client_cert_path, &args.client_key_path) {
        (Some(cert_path), Some(key_path)) => ClientCert {
            cert_path: cert_path.clone(),
            key_path: key_path.clone(),
        },
        (None, None) => ClientCert {
            cert_path: defaults.cert_path.clone(),
            key_path: defaults.key_path.clone(),
        },
        _ => {
            return Err(
                DhcpError::MissingArgument(
                    "client_cert_path and client_key_path must be configured together".to_owned(),
                ),
            );
        },
    };
    Ok(ForgeClientConfig { root_ca_path, client_cert: Some(client_cert) })
}

/// The file to read the host's configuration from. A controller reads none, and a DPU cannot do
/// without.
pub fn host_config_to_read(args: &Args) -> (result: Result<Option<String>, DhcpError>)
    ensures
        match result {
            Ok(None) => args.mode == ServerMode::Controller,
            Ok(Some(path)) => {
                &&& args.mode == ServerMode::Dpu
                &&& args.host_config is Some
                &&& path@ == args.host_config->Some_0@
            },
            Err(error) => {
                &&& args.mode == ServerMode::Dpu
                &&& args.host_config is None
                &&& error@ == ErrorView::MissingArgument("--host_config is missing."@)
            },
        },
{
    if args.mode == ServerMode::Controller {
        return Ok(None);
    }
    match &args.host_config {
        Some(path) => Ok(Some(path.clone())),
        None => Err(DhcpError::MissingArgument("--host_config is missing.".to_owned())),
    }
}

/// Where a new version of a file waits until it is taken over.
pub fn staged_path(path: &str) -> (staged: String)
    ensures
        staged@ == path@ + "_new"@,
{
    path.to_owned().concat("_new")
}

/// Whether a new version of a file has to be staged: its text differs from the current one. A file
/// that cannot be read counts as empty.
pub fn needs_staging(current: Option<String>, new: &String) -> (staged: bool)
    ensures
        staged == (match current {
            Some(current) => current@ != new@,
            None => new@.len() != 0,
        }),
{
    let current = match current {
        Some(current) => current,
        None => String::new(),
    };
    assert(new@.len() == 0 ==> new@ == Seq::<char>::empty());
    !(current == *new)
}

/// Why a reload leaves everything as it is.
#[derive(Debug, Clone, Copy, PartialEq, Eq, Structural)]
pub enum SkipReason {
    NoInterfaces,
    NothingStaged,
}

/// What a reload does.
#[derive(Debug, Clone, Copy, PartialEq, Eq, Structural)]
pub enum ReloadPlan {
    /// The server is left as it is, running or not.
    Skip(SkipReason),
    /// A running server is stopped, staged files are taken over, and a server is started. Whether a
    /// host file is staged is looked up again when the old server is down.
    Restart { stop_running: bool, promote_dhcp: bool },
}

/// What is known when a reload is asked for.
#[derive(Debug, Clone, Copy)]
pub struct ReloadRequest {
    pub has_interfaces: bool,
    pub dhcp_staged: bool,
    pub host_staged: bool,
    pub force_start: bool,
    pub running: bool,
}

/// Whether a reload starts a server: there is an interface to serve, and something new to serve or
/// an order to start.
pub open spec fn reload_starts(request: ReloadRequest) -> bool {
    request.has_interfaces && (request.dhcp_staged || request.host_staged || request.force_start)
}

/// What a reload does.
pub open spec fn reload_plan(request: ReloadRequest) -> ReloadPlan {
    if !request.has_interfaces {
        ReloadPlan::Skip(SkipReason::NoInterfaces)
    } else if !reload_starts(request) {
        ReloadPlan::Skip(SkipReason::NothingStaged)
    } else {
        ReloadPlan::Restart { stop_running: request.running, promote_dhcp: request.dhcp_staged }
    }
}

/// Decide what a reload does.
pub fn plan_reload(request: ReloadRequest) -> (plan: ReloadPlan)
    ensures
        plan == reload_plan(request),
{
    if !request.has_interfaces {
        return ReloadPlan::Skip(SkipReason::NoInterfaces);
    }
    if !request.dhcp_staged && !request.host_staged && !request.force_start {
        return ReloadPlan::Skip(SkipReason::NothingStaged);
    }
    ReloadPlan::Restart { stop_running: request.running, promote_dhcp: request.dhcp_staged }
}

/// A file that takes the place of another.
#[derive(Debug)]
pub struct Promotion {
    pub from: String,
    pub to: String,
}

impl Promotion {
    /// Whether this puts the new version of the file at `path` in its place.
    pub open spec fn takes_over(self, path: Seq<char>) -> bool {
        self.from@ == path + "_new"@ && self.to@ == path
    }
}

/// Where a new version of the host's configuration waits, if one is configured.
pub fn staged_host_path(args: &Args) -> (staged: Option<String>)
    ensures
        text_of(staged) == (match args.host_config {
            Some(path) => Some(path@ + "_new"@),
            None => None,
        }),
{
    match &args.host_config {
        Some(path) => Some(staged_path(path.as_str())),
        None => None,
    }
}

/// The new DHCP configuration that a reload takes over, if it does.
pub fn dhcp_promotion(args: &Args, plan: ReloadPlan) -> (promotion: Option<Promotion>)
    ensures
        match promotion {
            Some(promotion) => {
                &&& plan matches ReloadPlan::Restart { promote_dhcp, .. }
                &&& promote_dhcp
                &&& promotion.takes_over(args.dhcp_config@)
            },
            None => !(plan matches ReloadPlan::Restart { promote_dhcp, .. } && promote_dhcp),
        },
{
    match plan {
        ReloadPlan::Restart { promote_dhcp: true, .. } => Some(
            Promotion {
                from: staged_path(args.dhcp_config.as_str()),
                to: args.dhcp_config.clone(),
            },
        ),
        _ => None,
    }
}

/// Whether a reload takes a new host configuration over: it restarts the server, a path is
/// configured, and a new version waits beside it when the old server is down.
pub open spec fn takes_host_over(args: Args, plan: ReloadPlan, host_staged: bool) -> bool {
    plan is Restart && args.host_config is Some && host_staged
}

/// The new host configuration that a reload takes over, if it does. `host_staged` tells whether it
/// waits when the old server is down, which may be news since the reload was planned.
pub fn host_promotion(args: &Args, plan: ReloadPlan, host_staged: bool) -> (promotion: Option<
    Promotion,
>)
    ensures
        match promotion {
            Some(promotion) => {
                &&& takes_host_over(*args, plan, host_staged)
                &&& promotion.takes_over(args.host_config->Some_0@)
            },
            None => !takes_host_over(*args, plan, host_staged),
        },
{
    match (plan, &args.host_config) {
        (ReloadPlan::Restart { .. }, Some(path)) => {
            if host_staged {
                Some(Promotion { from: staged_path(path.as_str()), to: path.clone() })
            } else {
                None
            }
        },
        _ => None,
    }
}

/// A reload that restarts the server takes over every new file that waits: the DHCP configuration
/// where it waited when the reload was planned, and the host's where it waits when the old server
/// is down. A reload that is skipped leaves both where they are.
pub proof fn law_restart_takes_over_what_waits(args: Args, request: ReloadRequest, host_staged: bool)
    requires
        args.host_config is Some,
    ensures
        ({
            let plan = reload_plan(request);
            &&& plan matches ReloadPlan::Restart { promote_dhcp, .. } ==> {
                &&& promote_dhcp == request.dhcp_staged
                &&& takes_host_over(args, plan, host_staged) == host_staged
            }
            &&& plan is Skip ==> !takes_host_over(args, plan, host_staged)
        }),
{
}

/// The host configuration of a server under remote control, where none is given.
pub fn default_host_config(args: Args) -> (with_default: Args)
    ensures
        with_default == (Args { host_config: with_default.host_config, ..args }),
        with_default.host_config is Some,
        with_default.host_config->Some_0@ == (match args.host_config {
            Some(path) => path@,
            None => "/var/support/forge-dhcp/conf/host.yaml"@,
        }),
{
    let mut args = args;
    if args.host_config.is_none() {
        args.host_config = Some("/var/support/forge-dhcp/conf/host.yaml".to_owned());
    }
    args
}

/// Whether a server under remote control is started at once: its configuration is there, and there
/// is an interface to serve.
pub fn starts_at_once(config_exists: bool, args: &Args) -> (starts: bool)
    ensures
        starts == (config_exists && args.interfaces@.len() > 0),
{
    config_exists && args.interfaces.len() != 0
}

/// Something that happened to a server under remote control.
#[derive(Debug, Clone, Copy, PartialEq, Eq, Structural)]
pub enum ControlEvent {
    /// The server ended by itself.
    ServerExited,
    /// Nobody can order anything any more.
    ChannelClosed,
    /// A new configuration was ordered.
    UpdateAndReload,
    /// A stop was ordered.
    Stop,
}

/// What to do about it.
#[derive(Debug, Clone, Copy, PartialEq, Eq, Structural)]
pub enum ControlAction {
    /// End, after a running server is stopped.
    Terminate { stop_running: bool },
    /// Stage the new configuration and reload.
    Reload { force_start: bool },
    /// Stop a running server and wait for orders.
    StopServer { stop_running: bool },
}

/// What follows from an event.
pub open spec fn action_for(running: bool, event: ControlEvent) -> ControlAction {
    match event {
        ControlEvent::ServerExited => ControlAction::Terminate { stop_running: false },
        ControlEvent::ChannelClosed => ControlAction::Terminate { stop_running: running },
        ControlEvent::UpdateAndReload => ControlAction::Reload { force_start: !running },
        ControlEvent::Stop => ControlAction::StopServer { stop_running: running },
    }
}

/// Decide what follows from an event. A server that is not running is started by the next update,
/// even when its configuration is unchanged.
pub fn control_step(running: bool, event: ControlEvent) -> (action: ControlAction)
    ensures
        action == action_for(running, event),
{
    match event {
        ControlEvent::ServerExited => ControlAction::Terminate { stop_running: false },
        ControlEvent::ChannelClosed => ControlAction::Terminate { stop_running: running },
        ControlEvent::UpdateAndReload => ControlAction::Reload { force_start: !running },
        ControlEvent::Stop => ControlAction::StopServer { stop_running: running },
    }
}

/// Whether a server runs after an order, given what was staged by then.
pub open spec fn runs_after(
    running: bool,
    event: ControlEvent,
    has_interfaces: bool,
    dhcp_staged: bool,
    host_staged: bool,
) -> bool {
    match action_for(running, event) {
        ControlAction::Terminate { .. } => false,
        ControlAction::StopServer { .. } => false,
        ControlAction::Reload { force_start } => {
            let request = ReloadRequest {
                has_interfaces,
                dhcp_staged,
                host_staged,
                force_start,
                running,
            };
            match reload_plan(request) {
                ReloadPlan::Skip(_) => running,
                ReloadPlan::Restart { .. } => true,
            }
        },
    }
}

/// After a stop, an update starts the server again if there is an interface to serve, whether or
/// not anything was staged; an update never leaves a running server stopped.
pub proof fn law_update_restarts_a_stopped_server(
    running: bool,
    has_interfaces: bool,
    dhcp_staged: bool,
    host_staged: bool,
)
    ensures
        !runs_after(running, ControlEvent::Stop, has_interfaces, dhcp_staged, host_staged),
        runs_after(
            runs_after(running, ControlEvent::Stop, has_interfaces, dhcp_staged, host_staged),
            ControlEvent::UpdateAndReload,
            has_interfaces,
            dhcp_staged,
            host_staged,
        ) == has_interfaces,
        running ==> runs_after(
            running,
            ControlEvent::UpdateAndReload,
            has_interfaces,
            dhcp_staged,
            host_staged,
        ),
{
}

/// A running server whose configuration did not change is not touched by a reload.
pub proof fn law_reload_without_changes_does_nothing(request: ReloadRequest)
    requires
        !request.dhcp_staged,
        !request.host_staged,
        request.running,
        action_for(request.running, ControlEvent::UpdateAndReload) == (ControlAction::Reload {
            force_start: request.force_start,
        }),
    ensures
        reload_plan(request) is Skip,
{
}

/// A reload restarts the server exactly when there is an interface to serve and either a new file or
/// an order to start. It then stops the old server if and only if one runs, and takes the new DHCP
/// configuration over if and only if one waits. A reload that is skipped says whether it is for want
/// of an interface, which goes first, or of news.
pub proof fn law_reload_needs_an_interface_and_news(request: ReloadRequest)
    ensures
        ({
            let plan = reload_plan(request);
            let news = request.dhcp_staged || request.host_staged || request.force_start;
            &&& plan is Restart <==> request.has_interfaces && news
            &&& plan matches ReloadPlan::Restart { stop_running, promote_dhcp } ==> {
                &&& stop_running == request.running
                &&& promote_dhcp == request.dhcp_staged
            }
            &&& !request.has_interfaces ==> plan == ReloadPlan::Skip(SkipReason::NoInterfaces)
            &&& request.has_interfaces && !news ==> plan == ReloadPlan::Skip(
                SkipReason::NothingStaged,
            )
        }),
{
}

/// A new host configuration is taken over exactly where a restart finds it waiting beside a
/// configured path.
pub proof fn law_host_file_is_taken_over_where_it_waits(
    args: Args,
    request: ReloadRequest,
    host_staged: bool,
)
    ensures
        takes_host_over(args, reload_plan(request), host_staged) <==> {
            &&& host_staged
            &&& args.host_config is Some
            &&& request.has_interfaces
            &&& request.dhcp_staged || request.host_staged || request.force_start
        },
{
}

/// An order to stop and the end of all orders stop a server if and only if one runs; a server that
/// ended by itself is not stopped again, and ends the control. An update starts a server by force if
/// and only if none runs.
pub proof fn law_control_stops_what_runs(running: bool, event: ControlEvent)
    ensures
        ({
            let action = action_for(running, event);
            &&& action is Terminate <==> event is ServerExited || event is ChannelClosed
            &&& action is StopServer <==> event is Stop
            &&& action is Reload <==> event is UpdateAndReload
            &&& event is ServerExited ==> !action->Terminate_stop_running
            &&& event is ChannelClosed ==> action->Terminate_stop_running == running
            &&& event is Stop ==> action->StopServer_stop_running == running
            &&& event is UpdateAndReload ==> action->force_start != running
        }),
{
}

/// A reload takes the new DHCP configuration over exactly where it restarts the server and one waits.
/// What is taken over comes from where a new version of the file is staged, and goes to the file.
pub proof fn law_staged_files_go_where_they_belong(
    args: &Args,
    request: ReloadRequest,
    host_staged: bool,
    dhcp: Option<Promotion>,
    host: Option<Promotion>,
    staged_host: Option<String>,
)
    requires
        call_ensures(dhcp_promotion, (args, reload_plan(request)), dhcp),
        call_ensures(host_promotion, (args, reload_plan(request), host_staged), host),
        call_ensures(staged_host_path, (args,), staged_host),
    ensures
        ({
            let restarts = request.has_interfaces && (request.dhcp_staged || request.host_staged
                || request.force_start);
            &&& dhcp is Some <==> restarts && request.dhcp_staged
            &&& dhcp matches Some(dhcp) ==> dhcp.to@ == args.dhcp_config@ && dhcp.from@ == dhcp.to@
                + "_new"@
            &&& host is Some <==> restarts && staged_host is Some && host_staged
            &&& host matches Some(host) ==> host.to@ == args.host_config->Some_0@ && host.from@
                == staged_host->Some_0@
        }),
{
}

/// A file is staged exactly when its text is not the current one; a file that is not there is as good
/// as an empty one. So what was staged and taken over is not staged again.
pub proof fn law_only_news_is_staged(current: Option<String>, new: String, staged: bool, again: bool)
    requires
        call_ensures(needs_staging, (current, &new), staged),
        call_ensures(needs_staging, (Some(new), &new), again),
    ensures
        !again,
        !staged <==> (current is Some && current->Some_0@ == new@) || (current is None && new@.len()
            == 0),
{
}

/// The API is reached by the paths that are given, each in its place, and by the default ones where
/// none are. A certificate without its key, or a key without its certificate, is refused.
pub proof fn law_certificate_and_key_go_together(
    args: &Args,
    defaults: &TlsDefaults,
    result: Result<ForgeClientConfig, DhcpError>,
)
    requires
        call_ensures(forge_client_config, (args, defaults), result),
    ensures
        ({
            let cert = args.client_cert_path;
            let key = args.client_key_path;
            let config = result->Ok_0;
            let told = config.client_cert->Some_0;
            &&& result is Err <==> (cert is Some && key is None) || (cert is None && key is Some)
            &&& result is Ok ==> config.client_cert is Some
            &&& result is Ok && cert is Some ==> told.cert_path@ == cert->Some_0@ && told.key_path@
                == key->Some_0@
            &&& result is Ok && cert is None ==> told.cert_path@ == defaults.cert_path@
                && told.key_path@ == defaults.key_path@
            &&& result is Ok && args.forge_root_ca_path is Some ==> config.root_ca_path@
                == args.forge_root_ca_path->Some_0@
            &&& result is Ok && args.forge_root_ca_path is None ==> config.root_ca_path@
                == defaults.root_ca_path@
        }),
{
}

/// A DPU under remote control always has a host configuration to read, and reads the one that is
/// given where one is. A controller reads none.
pub proof fn law_host_configuration_is_for_dpus(
    args: Args,
    with_default: Args,
    read: Result<Option<String>, DhcpError>,
    defaulted: Result<Option<String>, DhcpError>,
)
    requires
        call_ensures(default_host_config, (args,), with_default),
        call_ensures(host_config_to_read, (&args,), read),
        call_ensures(host_config_to_read, (&with_default,), defaulted),
    ensures
        with_default.mode == args.mode,
        defaulted is Ok,
        defaulted->Ok_0 is Some <==> args.mode == ServerMode::Dpu,
        read is Err <==> args.mode == ServerMode::Dpu && args.host_config is None,
        args.mode == ServerMode::Dpu && args.host_config is Some ==> {
            &&& read->Ok_0->Some_0@ == args.host_config->Some_0@
            &&& defaulted->Ok_0->Some_0@ == args.host_config->Some_0@
        },
{
}

} // verus!
