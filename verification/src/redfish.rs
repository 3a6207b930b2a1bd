//! How a client for a machine's management controller is made.
//!
//! An operator may pin the vendor of a controller whose detection goes wrong. The pin goes before
//! detection, but never reaches a client that is made to talk to a controller no vendor client can
//! talk to yet.

use crate::address::Ipv6Addr;
#[allow(unused_imports)]
use crate::{address::ipv6_parsed, text::text_of};
use libredfish::model::service_root::RedfishVendor;
use vstd::prelude::*;
use vstd::string::StringExecFns;

verus! {

/// `libredfish`'s list of vendors.
#[verifier::external_type_specification]
#[verifier::external_body]
pub struct ExRedfishVendor(libredfish::model::service_root::RedfishVendor);

/// How a client's vendor implementation is picked.
#[derive(Debug, Clone, Copy, PartialEq, Eq)]
pub enum VendorSelection {
    /// Detect the vendor from the service root. A pin is used instead where there is one.
    Detect,
    /// A vendor that the caller detected itself. A pin outranks it.
    Hint(RedfishVendor),
    /// An uninitialized client that fetches nothing. It is never pinned.
    Uninitialized,
}

/// The way a client is made once any pin has been applied.
#[derive(Debug, Clone, Copy, PartialEq, Eq)]
pub enum ClientMode {
    /// Let `libredfish` detect the vendor from the service root.
    Detect,
    /// Build a client for this specific vendor.
    Vendor(RedfishVendor),
    /// Return a standard client with no vendor implementation and no fetches.
    Uninitialized,
}

/// The way a client is made, given the selection and the pin.
pub open spec fn resolved(selection: VendorSelection, pin: Option<RedfishVendor>) -> ClientMode {
    match selection {
        VendorSelection::Uninitialized => ClientMode::Uninitialized,
        VendorSelection::Detect => match pin {
            Some(pinned) => ClientMode::Vendor(pinned),
            None => ClientMode::Detect,
        },
        VendorSelection::Hint(vendor) => match pin {
            Some(pinned) => ClientMode::Vendor(pinned),
            None => ClientMode::Vendor(vendor),
        },
    }
}

/// A pin wins over detection and over a hint, and no pin reaches the uninitialized mode. Without a
/// pin the caller's choice stands.
pub proof fn law_pin_precedence(selection: VendorSelection, pin: Option<RedfishVendor>)
    ensures
        resolved(selection, pin) is Uninitialized <==> selection is Uninitialized,
        pin is Some && !(selection is Uninitialized) ==> resolved(selection, pin)
            == ClientMode::Vendor(pin->Some_0),
        pin is None && selection is Detect ==> resolved(selection, pin) is Detect,
        pin is None && selection is Hint ==> resolved(selection, pin) == ClientMode::Vendor(
            selection->Hint_0,
        ),
{
}

impl VendorSelection {
    /// Apply the operator pin to this selection.
    pub fn resolve(self, pin: Option<RedfishVendor>) -> (mode: ClientMode)
        ensures
            mode == resolved(self, pin),
    {
        match (self, pin) {
            // The caller asked for a client that can reach a controller no vendor client can
            // initialize against yet.
            (VendorSelection::Uninitialized, _) => ClientMode::Uninitialized,
            (VendorSelection::Detect, Some(pinned)) => ClientMode::Vendor(pinned),
            (VendorSelection::Hint(_), Some(pinned)) => ClientMode::Vendor(pinned),
            (VendorSelection::Detect, None) => ClientMode::Detect,
            (VendorSelection::Hint(vendor), None) => ClientMode::Vendor(vendor),
        }
    }
}

/// A pin lookup that failed.
#[derive(Debug)]
pub struct VendorOverrideError {
    pub host: String,
    pub source: String,
}

impl VendorOverrideError {
    /// The failure to look up the pin of `host`, for the reason `source`.
    pub fn new(host: String, source: String) -> (error: Self)
        ensures
            error.host == host,
            error.source == source,
    {
        VendorOverrideError { host, source }
    }

    /// How this failure is told.
    pub fn message(&self) -> (text: String)
        ensures
            text@ == "failed to resolve bmc_vendor_override for "@ + self.host@ + ": "@
                + self.source@,
    {
        let mut text = "failed to resolve bmc_vendor_override for ".to_owned();
        text.append(self.host.as_str());
        text.append(": ");
        text.append(self.source.as_str());
        text
    }
}

/// Resolves the operator pinned vendor for a management controller.
pub trait BmcVendorOverrideResolver {
    /// The pinned vendor for the controller at `host`, or `None` when it has no pin. `host` is the
    /// controller's own, never that of a proxy.
    fn vendor_override(&self, host: &str) -> Result<Option<RedfishVendor>, VendorOverrideError>;
}

/// A resolver that never pins anything.
#[derive(Debug, Clone, Copy)]
pub struct NoBmcVendorOverrides;

impl BmcVendorOverrideResolver for NoBmcVendorOverrides {
    fn vendor_override(&self, host: &str) -> (result: Result<
        Option<RedfishVendor>,
        VendorOverrideError,
    >)
        ensures
            result is Ok,
            result->Ok_0 is None,
    {
        Ok(None)
    }
}

/// The pin to apply, given what a lookup came to: a lookup that failed is no pin.
pub fn pin_or_detect(lookup: Result<Option<RedfishVendor>, VendorOverrideError>) -> (pin: Option<
    RedfishVendor,
>)
    ensures
        pin == (match lookup {
            Ok(pin) => pin,
            Err(_) => None,
        }),
{
    match lookup {
        Ok(pin) => pin,
        Err(_) => None,
    }
}

/// What of a pin lookup is remembered, and what it comes to.
#[derive(Debug)]
pub struct PinRead {
    /// The pin, or its absence, to remember for the controller's address.
    pub remember: Option<RedfishVendor>,
    pub result: Result<Option<RedfishVendor>, VendorOverrideError>,
}

/// How long a pin or its absence is remembered, in seconds.
pub const DEFAULT_PIN_CACHE_TTL_SECS: u64 = 60;

/// For how many controllers a pin or its absence is remembered.
pub const PIN_CACHE_CAPACITY: u64 = 4096;

/// What is remembered of a read: the pin or its absence, and a failure as no pin.
pub open spec fn remembered_pin(read: Result<Option<RedfishVendor>, String>) -> Option<
    RedfishVendor,
> {
    match read {
        Ok(pin) => pin,
        Err(_) => None,
    }
}

/// Take in what was read about the pin of the controller at `address`. A failure is remembered as
/// no pin, so that an outage does not cost one more read for each client.
pub fn take_pin_read(address: String, read: Result<Option<RedfishVendor>, String>) -> (taken: PinRead)
    ensures
        taken.remember == remembered_pin(read),
        taken.result == (match read {
            Ok(pin) => Ok::<Option<RedfishVendor>, VendorOverrideError>(pin),
            Err(reason) => Err::<Option<RedfishVendor>, VendorOverrideError>(
                VendorOverrideError { host: address, source: reason },
            ),
        }),
{
    match read {
        Ok(pin) => PinRead { remember: pin, result: Ok(pin) },
        Err(reason) => PinRead {
            remember: None,
            result: Err(VendorOverrideError::new(address, reason)),
        },
    }
}

/// What is done about the pin of a controller.
#[derive(Debug, Clone, Copy, PartialEq, Eq)]
pub enum PinStep {
    /// The pin, or its absence, is known.
    Answer(Option<RedfishVendor>),
    /// The pin of the controller's address has to be read.
    Read,
}

/// What is done about the pin of a controller, given whether its host is an address, and what is
/// remembered for that address.
pub open spec fn pin_known(has_address: bool, remembered: Option<Option<RedfishVendor>>) -> PinStep {
    if !has_address {
        PinStep::Answer(None)
    } else {
        match remembered {
            Some(pin) => PinStep::Answer(pin),
            None => PinStep::Read,
        }
    }
}

/// Decide what is done about the pin of a controller. A pin is kept by address, so a controller that
/// is named otherwise has none.
pub fn pin_step(has_address: bool, remembered: Option<Option<RedfishVendor>>) -> (step: PinStep)
    ensures
        step == pin_known(has_address, remembered),
{
    if !has_address {
        return PinStep::Answer(None);
    }
    match remembered {
        Some(pin) => PinStep::Answer(pin),
        None => PinStep::Read,
    }
}

/// What a lookup of a pin comes to.
#[derive(Debug)]
pub struct PinLookup {
    pub answer: Result<Option<RedfishVendor>, VendorOverrideError>,
    /// What is remembered for the controller's address from then on.
    pub remember: Option<Option<RedfishVendor>>,
    /// Whether the pin was read for this lookup.
    pub made_read: bool,
}

/// What a lookup of a pin comes to; a failure is the address and the reason.
pub struct PinLookupView {
    pub answer: Result<Option<RedfishVendor>, (Seq<char>, Seq<char>)>,
    pub remember: Option<Option<RedfishVendor>>,
    pub made_read: bool,
}

impl View for PinLookup {
    type V = PinLookupView;

    open spec fn view(&self) -> PinLookupView {
        PinLookupView {
            answer: match self.answer {
                Ok(pin) => Ok(pin),
                Err(error) => Err((error.host@, error.source@)),
            },
            remember: self.remember,
            made_read: self.made_read,
        }
    }
}

/// What was read, or would be, as texts.
pub open spec fn stored_pin(read: Result<Option<RedfishVendor>, String>) -> Result<
    Option<RedfishVendor>,
    Seq<char>,
> {
    match read {
        Ok(pin) => Ok(pin),
        Err(reason) => Err(reason@),
    }
}

/// A whole lookup of a pin: of a controller whose host is `address` or no address, given what is
/// remembered for it and what a read of the stored pin gives.
pub open spec fn pin_lookup(
    address: Option<Seq<char>>,
    remembered: Option<Option<RedfishVendor>>,
    stored: Result<Option<RedfishVendor>, Seq<char>>,
) -> PinLookupView {
    match pin_known(address is Some, remembered) {
        PinStep::Answer(pin) => PinLookupView {
            answer: Ok(pin),
            remember: remembered,
            made_read: false,
        },
        PinStep::Read => match stored {
            Ok(pin) => PinLookupView { answer: Ok(pin), remember: Some(pin), made_read: true },
            Err(reason) => PinLookupView {
                answer: Err((address->Some_0, reason)),
                remember: Some(None),
                made_read: true,
            },
        },
    }
}

/// How far a lookup of a pin has come.
#[derive(Debug)]
pub enum LookupStep {
    Done(PinLookup),
    /// The stored pin has to be read first.
    Read,
}

/// Look up the pin of a controller. `read` is what the stored pin was read as, where it was: a lookup
/// that cannot do without asks for it.
pub fn look_up_pin(
    address: Option<String>,
    remembered: Option<Option<RedfishVendor>>,
    read: Option<Result<Option<RedfishVendor>, String>>,
) -> (step: LookupStep)
    ensures
        step is Read <==> pin_known(address is Some, remembered) is Read && read is None,
        step matches LookupStep::Done(lookup) ==> forall|
            stored: Result<Option<RedfishVendor>, Seq<char>>,
        |
            (read matches Some(read) ==> stored == stored_pin(read)) ==> lookup@
                == #[trigger] pin_lookup(text_of(address), remembered, stored),
{
    match (pin_step(address.is_some(), remembered), address) {
        (PinStep::Read, Some(address)) => match read {
            Some(read) => {
                let taken = take_pin_read(address, read);
                LookupStep::Done(
                    PinLookup {
                        answer: taken.result,
                        remember: Some(taken.remember),
                        made_read: true,
                    },
                )
            },
            None => LookupStep::Read,
        },
        (PinStep::Answer(pin), _) => LookupStep::Done(
            PinLookup { answer: Ok(pin), remember: remembered, made_read: false },
        ),
        (PinStep::Read, None) => LookupStep::Read,
    }
}

/// A controller whose host is no address has no pin, and nothing is read or remembered for it.
pub proof fn law_host_without_address_has_no_pin(
    remembered: Option<Option<RedfishVendor>>,
    stored: Result<Option<RedfishVendor>, Seq<char>>,
)
    ensures
        pin_lookup(None, remembered, stored) == (PinLookupView {
            answer: Ok(None),
            remember: remembered,
            made_read: false,
        }),
{
}

/// Of two lookups for one address, the second agrees with the first as long as what the first left
/// is remembered: it gives the same pin, or the same absence of one, without a read, even where the
/// stored pin has changed in between. After a failure it gives no pin. Once it is forgotten, the pin
/// is read again, and the lookup gives what is stored by then.
pub proof fn law_lookups_of_one_address_agree(
    address: Seq<char>,
    remembered: Option<Option<RedfishVendor>>,
    stored: Result<Option<RedfishVendor>, Seq<char>>,
    changed: Result<Option<RedfishVendor>, Seq<char>>,
)
    ensures
        ({
            let first = pin_lookup(Some(address), remembered, stored);
            let second = pin_lookup(Some(address), first.remember, changed);
            let fresh = pin_lookup(Some(address), None, changed);
            &&& first.made_read == (remembered is None)
            &&& !second.made_read
            &&& second.answer is Ok
            &&& second.answer->Ok_0 == (match first.answer {
                Ok(pin) => pin,
                Err(_) => None,
            })
            &&& second.remember == first.remember
            &&& fresh.made_read
            &&& changed matches Ok(pin) ==> fresh.answer == Ok::<
                Option<RedfishVendor>,
                (Seq<char>, Seq<char>),
            >(pin)
            &&& changed matches Err(reason) ==> fresh.answer == Err::<
                Option<RedfishVendor>,
                (Seq<char>, Seq<char>),
            >((address, reason))
        }),
{
}

/// What is remembered for an address is given as it was remembered, without a read; and what is read
/// is given and remembered as it was read, or remembered as no pin where the read failed.
pub proof fn law_pins_are_given_as_they_are_kept(
    address: Seq<char>,
    pin: Option<RedfishVendor>,
    stored: Result<Option<RedfishVendor>, Seq<char>>,
)
    ensures
        ({
            let known = pin_lookup(Some(address), Some(pin), stored);
            let fresh = pin_lookup(Some(address), None, stored);
            &&& known.answer is Ok && known.answer->Ok_0 == pin
            &&& known.remember == Some(pin)
            &&& !known.made_read
            &&& fresh.made_read
            &&& fresh.answer is Ok <==> stored is Ok
            &&& stored is Ok ==> fresh.answer->Ok_0 == stored->Ok_0 && fresh.remember == Some(
                stored->Ok_0,
            )
            &&& stored is Err ==> {
                &&& fresh.answer->Err_0.0 == address
                &&& fresh.answer->Err_0.1 == stored->Err_0
                &&& fresh.remember is Some
                &&& fresh.remember->Some_0 is None
            }
        }),
{
}

/// A client connects to the controller itself, unless the site has a proxy: a proxy's host, where it
/// has one, takes the place of the controller's and is told which controller was meant; a proxy's
/// port, where it has one, takes the place of the controller's.
pub proof fn law_proxy_takes_the_place_of_the_controller(
    host: Seq<char>,
    port: Option<u16>,
    proxy: Option<HostPortPair>,
)
    ensures
        ({
            let own_host = contacted_host(host, proxy) == host;
            let own_port = contacted_port(port, proxy) == port;
            match proxy {
                None => own_host && own_port && !replaces_host(proxy),
                Some(HostPortPair::HostAndPort(proxy_host, proxy_port)) => {
                    &&& contacted_host(host, proxy) == proxy_host@
                    &&& contacted_port(port, proxy) == Some(proxy_port)
                    &&& replaces_host(proxy)
                },
                Some(HostPortPair::HostOnly(proxy_host)) => {
                    &&& contacted_host(host, proxy) == proxy_host@
                    &&& own_port
                    &&& replaces_host(proxy)
                },
                Some(HostPortPair::PortOnly(proxy_port)) => {
                    &&& own_host
                    &&& contacted_port(port, proxy) == Some(proxy_port)
                    &&& !replaces_host(proxy)
                },
            }
        }),
{
}

/// In a URL an IPv6 address stands between brackets, and any other host stands as it is.
pub proof fn law_url_host_keeps_the_host(host: Seq<char>)
    ensures
        ipv6_parsed(host) is None ==> url_host(host) == host,
        ipv6_parsed(host) is Some ==> {
            let formatted = url_host(host);
            &&& formatted.len() == host.len() + 2
            &&& formatted[0] == '['
            &&& formatted[formatted.len() - 1] == ']'
            &&& formatted.subrange(1, formatted.len() - 1) == host
        },
{
    reveal_strlit("[");
    reveal_strlit("]");
    if ipv6_parsed(host) is Some {
        assert(url_host(host).subrange(1, url_host(host).len() - 1) =~= host);
    }
}

/// The host part of a URL: an IPv6 address stands in brackets.
pub open spec fn url_host(host: Seq<char>) -> Seq<char> {
    if ipv6_parsed(host) is Some {
        "["@ + host + "]"@
    } else {
        host
    }
}

/// Format a host for the URL that `libredfish` makes of a host and a port. What is formatted already,
/// or stands in brackets, is left as it is.
pub fn libredfish_endpoint_host(host: &str) -> (formatted: String)
    ensures
        formatted@ == url_host(host@),
        url_host(formatted@) == formatted@,
        host@.len() > 0 && host@[0] == '[' ==> formatted@ == host@,
{
    if Ipv6Addr::parse(host).is_some() {
        let mut formatted = "[".to_owned();
        formatted.append(host);
        formatted.append("]");
        formatted
    } else {
        host.to_owned()
    }
}

/// The proxy that all controllers of a site are reached through.
#[derive(Debug)]
pub enum HostPortPair {
    HostAndPort(String, u16),
    HostOnly(String),
    PortOnly(u16),
}

/// How a client proves who it is.
#[derive(Debug)]
pub enum RedfishAuth {
    Anonymous,
    /// A user name and a password.
    Direct(String, String),
    /// The name under which a user name and a password are kept.
    Key(String),
}

/// Why a client cannot be made.
#[derive(Debug)]
pub enum RedfishClientCreationError {
    MissingCredentials { key: String },
}

/// What a client connects to.
#[derive(Debug)]
pub struct Endpoint {
    pub host: String,
    pub port: Option<u16>,
    pub user: Option<String>,
    pub password: Option<String>,
}

/// A client to make: what it connects to, which host the proxy has to forward to, and how.
#[derive(Debug)]
pub struct ClientRequest {
    pub endpoint: Endpoint,
    pub forwarded_host: Option<String>,
    pub mode: ClientMode,
}

/// The host that a client connects to.
pub open spec fn contacted_host(host: Seq<char>, proxy: Option<HostPortPair>) -> Seq<char> {
    match proxy {
        Some(HostPortPair::HostAndPort(proxy_host, _)) => proxy_host@,
        Some(HostPortPair::HostOnly(proxy_host)) => proxy_host@,
        _ => host,
    }
}

/// The port that a client connects to.
pub open spec fn contacted_port(port: Option<u16>, proxy: Option<HostPortPair>) -> Option<u16> {
    match proxy {
        Some(HostPortPair::HostAndPort(_, proxy_port)) => Some(proxy_port),
        Some(HostPortPair::PortOnly(proxy_port)) => Some(proxy_port),
        _ => port,
    }
}

/// Whether a proxy takes the place of the host, and has to be told which host was meant.
pub open spec fn replaces_host(proxy: Option<HostPortPair>) -> bool {
    match proxy {
        Some(HostPortPair::HostAndPort(_, _)) => true,
        Some(HostPortPair::HostOnly(_)) => true,
        _ => false,
    }
}

/// The name whose credentials have to be looked up, if any.
pub fn credentials_to_look_up(auth: &RedfishAuth) -> (key: Option<String>)
    ensures
        match auth {
            RedfishAuth::Key(name) => text_of(key) == Some(name@),
            _ => key is None,
        },
{
    match auth {
        RedfishAuth::Key(name) => Some(name.clone()),
        _ => None,
    }
}

/// The host whose pin is looked up, if any is: the controller's own, whatever proxy it is reached
/// through. `found` tells whether the credentials were found where the client proves itself by a key.
/// Nothing is looked up for the uninitialized mode, nor for a client that cannot be made.
pub fn pin_host(host: &str, selection: VendorSelection, auth: &RedfishAuth, found: bool) -> (asked: Option<
    String,
>)
    ensures
        text_of(asked) == (if !(selection is Uninitialized) && (auth is Key ==> found) {
            Some(host@)
        } else {
            None
        }),
{
    if let RedfishAuth::Key(_) = auth {
        if !found {
            return None;
        }
    }
    match selection {
        VendorSelection::Uninitialized => None,
        _ => Some(host.to_owned()),
    }
}

/// Decide what client to make for the controller at `host`. `found` are the credentials that were
/// looked up, where the client proves itself by a key; `pin` is what the lookup for `host` came to.
pub fn plan_client(
    host: &str,
    port: Option<u16>,
    proxy: &Option<HostPortPair>,
    auth: RedfishAuth,
    found: Option<(String, String)>,
    selection: VendorSelection,
    pin: Option<RedfishVendor>,
) -> (result: Result<ClientRequest, RedfishClientCreationError>)
    ensures
        match result {
            Err(RedfishClientCreationError::MissingCredentials { key }) => {
                &&& auth matches RedfishAuth::Key(name)
                &&& found is None
                &&& key@ == name@
            },
            Ok(request) => {
                &&& auth is Key ==> found is Some
                &&& request.endpoint.host@ == url_host(contacted_host(host@, *proxy))
                &&& request.endpoint.port == contacted_port(port, *proxy)
                &&& match auth {
                    RedfishAuth::Anonymous => {
                        &&& request.endpoint.user is None
                        &&& request.endpoint.password is None
                    },
                    RedfishAuth::Direct(user, password) => {
                        &&& request.endpoint.user == Some(user)
                        &&& request.endpoint.password == Some(password)
                    },
                    RedfishAuth::Key(_) => {
                        &&& request.endpoint.user == Some(found->Some_0.0)
                        &&& request.endpoint.password == Some(found->Some_0.1)
                    },
                }
                &&& text_of(request.forwarded_host) == (if replaces_host(*proxy) {
                    Some(host@)
                } else {
                    None
                })
                &&& request.mode == resolved(selection, pin)
            },
        },
{
    let (contacted, contacted_port, forwarded_host) = match proxy {
        None => (host, port, None),
        Some(HostPortPair::HostAndPort(proxy_host, proxy_port)) => (
            proxy_host.as_str(),
            Some(*proxy_port),
            Some(host.to_owned()),
        ),
        Some(HostPortPair::HostOnly(proxy_host)) => (
            proxy_host.as_str(),
            port,
            Some(host.to_owned()),
        ),
        Some(HostPortPair::PortOnly(proxy_port)) => (host, Some(*proxy_port), None),
    };
    let (user, password) = match auth {
        RedfishAuth::Anonymous => (None, None),
        RedfishAuth::Direct(user, password) => (Some(user), Some(password)),
        RedfishAuth::Key(key) => match found {
            Some((user, password)) => (Some(user), Some(password)),
            None => {
                return Err(RedfishClientCreationError::MissingCredentials { key });
            },
        },
    };
    let endpoint = Endpoint {
        host: libredfish_endpoint_host(contacted),
        port: contacted_port,
        user,
        password,
    };
    Ok(ClientRequest { endpoint, forwarded_host, mode: selection.resolve(pin) })
}

/// A pin is looked up exactly for the clients that it can matter to: those that can be made, and are
/// not left uninitialized. It is looked up for the controller itself, whatever proxy the client then
/// connects to.
pub proof fn law_pin_is_looked_up_where_it_matters(
    host: &str,
    port: Option<u16>,
    proxy: &Option<HostPortPair>,
    auth: RedfishAuth,
    found: Option<(String, String)>,
    selection: VendorSelection,
    pin: Option<RedfishVendor>,
    asked: Option<String>,
    result: Result<ClientRequest, RedfishClientCreationError>,
)
    requires
        call_ensures(pin_host, (host, selection, &auth, found is Some), asked),
        call_ensures(plan_client, (host, port, proxy, auth, found, selection, pin), result),
    ensures
        asked is Some <==> result is Ok && !(result->Ok_0.mode is Uninitialized),
        asked matches Some(asked) ==> asked@ == host@,
{
}

/// A client is made unless it has to prove itself by a key under which nothing is kept; the error
/// then tells that key. A client that is made proves itself by what is kept under the key, or by what
/// it was given, and an anonymous one by nothing.
pub proof fn law_clients_prove_who_they_are(
    host: &str,
    port: Option<u16>,
    proxy: &Option<HostPortPair>,
    auth: RedfishAuth,
    found: Option<(String, String)>,
    selection: VendorSelection,
    pin: Option<RedfishVendor>,
    key: Option<String>,
    result: Result<ClientRequest, RedfishClientCreationError>,
)
    requires
        call_ensures(credentials_to_look_up, (&auth,), key),
        call_ensures(plan_client, (host, port, proxy, auth, found, selection, pin), result),
    ensures
        result is Err <==> key is Some && found is None,
        result matches Err(RedfishClientCreationError::MissingCredentials { key: missing })
            ==> missing@ == key->Some_0@,
        result is Ok ==> {
            let user = result->Ok_0.endpoint.user;
            let password = result->Ok_0.endpoint.password;
            &&& key is Some ==> user == Some(found->Some_0.0) && password == Some(found->Some_0.1)
            &&& auth is Direct ==> user == Some(auth->Direct_0) && password == Some(auth->Direct_1)
            &&& auth is Anonymous ==> user is None && password is None
        },
{
}

/// A client reaches the controller: it connects to the controller's host, or it tells the proxy that
/// host.
pub proof fn law_clients_reach_the_controller(
    host: &str,
    port: Option<u16>,
    proxy: &Option<HostPortPair>,
    auth: RedfishAuth,
    found: Option<(String, String)>,
    selection: VendorSelection,
    pin: Option<RedfishVendor>,
    request: ClientRequest,
)
    requires
        call_ensures(
            plan_client,
            (host, port, proxy, auth, found, selection, pin),
            Ok(request),
        ),
    ensures
        request.forwarded_host is None ==> request.endpoint.host@ == url_host(host@),
        request.forwarded_host matches Some(told) ==> told@ == host@ && proxy is Some,
        *proxy is None ==> request.forwarded_host is None && request.endpoint.port == port,
        request.mode is Uninitialized <==> selection is Uninitialized,
{
}

/// A lookup that failed is remembered as the absence of a pin, and the client is then made as if there
/// were none; the failure tells the controller and the reason.
pub proof fn law_failed_lookups_pin_nothing(
    address: String,
    read: Result<Option<RedfishVendor>, String>,
    taken: PinRead,
    pin: Option<RedfishVendor>,
)
    requires
        call_ensures(take_pin_read, (address, read), taken),
        call_ensures(pin_or_detect, (taken.result,), pin),
    ensures
        pin == taken.remember,
        read matches Ok(stored) ==> pin == stored && taken.result is Ok,
        read matches Err(reason) ==> {
            &&& pin is None
            &&& taken.result is Err
            &&& taken.result->Err_0.host@ == address@
            &&& taken.result->Err_0.source@ == reason@
        },
{
}

} // verus!
