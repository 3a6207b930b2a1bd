//! What answers a request: the interface table of a DPU, or an API.

use crate::config::{Config, InterfaceInfo, InterfaceInfoV6};
use crate::errors::DhcpError;
#[allow(unused_imports)]
use crate::{
    address::{ipv4_text, ipv6_parsed, ipv6_text, law_ipv4_text_reads_back, numbers_read},
    config::HostConfig,
    decode::octets_of,
    errors::ErrorView,
    text::{signed_text, text_of},
};
use crate::text::{copy_text, push_signed};
use vstd::prelude::*;
use vstd::string::StringExecFns;

verus! {

/// The address family that a discovery request asks about.
#[derive(Debug, Clone, Copy, PartialEq, Eq, Structural)]
pub enum AddressFamily {
    V4,
    V6,
}

/// The exchange that a discovery request belongs to.
#[derive(Debug, Clone, Copy, PartialEq, Eq, Structural)]
pub enum MessageKind {
    /// An exchange of DHCPv4.
    NotV6,
    V6Solicit,
    V6Request,
    V6InfoRequest,
}

/// The exchange as a discovery request carries it: one that the API lists, or another number.
#[derive(Debug, Clone, Copy, PartialEq, Eq, Structural)]
pub enum RequestedKind {
    Listed(MessageKind),
    Unlisted(i32),
}

/// What each text of a list says.
pub open spec fn texts(list: Seq<String>) -> Seq<Seq<char>> {
    list.map_values(|text: String| text@)
}

/// A question about one client.
#[derive(Debug)]
pub struct DhcpDiscovery {
    pub mac_address: String,
    pub relay_address: String,
    pub vendor_string: Option<String>,
    pub link_address: Option<String>,
    pub circuit_id: Option<String>,
    pub remote_id: Option<String>,
    pub desired_address: Option<String>,
    pub address_family: Option<AddressFamily>,
    pub message_kind: Option<RequestedKind>,
    pub duid: Option<Vec<u8>>,
}

/// What a discovery request says.
pub struct DiscoveryView {
    pub mac_address: Seq<char>,
    pub relay_address: Seq<char>,
    pub vendor_string: Option<Seq<char>>,
    pub link_address: Option<Seq<char>>,
    pub circuit_id: Option<Seq<char>>,
    pub remote_id: Option<Seq<char>>,
    pub desired_address: Option<Seq<char>>,
    pub address_family: Option<AddressFamily>,
    pub message_kind: Option<RequestedKind>,
    pub duid: Option<Seq<u8>>,
}

impl View for DhcpDiscovery {
    type V = DiscoveryView;

    open spec fn view(&self) -> DiscoveryView {
        DiscoveryView {
            mac_address: self.mac_address@,
            relay_address: self.relay_address@,
            vendor_string: text_of(self.vendor_string),
            link_address: text_of(self.link_address),
            circuit_id: text_of(self.circuit_id),
            remote_id: text_of(self.remote_id),
            desired_address: text_of(self.desired_address),
            address_family: self.address_family,
            message_kind: self.message_kind,
            duid: octets_of(self.duid),
        }
    }
}

/// What is known of one client.
#[derive(Debug)]
pub struct DhcpRecord {
    pub machine_id: Option<String>,
    pub machine_interface_id: Option<String>,
    pub segment_id: Option<String>,
    pub subdomain_id: Option<String>,
    pub fqdn: String,
    pub mac_address: String,
    pub address: String,
    pub mtu: i32,
    pub prefix: String,
    pub gateway: Option<String>,
    pub booturl: Option<String>,
    pub last_invalidation_time: Option<String>,
    pub ntp_servers: Vec<String>,
}

/// What a record says.
pub struct RecordView {
    pub machine_id: Option<Seq<char>>,
    pub machine_interface_id: Option<Seq<char>>,
    pub segment_id: Option<Seq<char>>,
    pub subdomain_id: Option<Seq<char>>,
    pub fqdn: Seq<char>,
    pub mac_address: Seq<char>,
    pub address: Seq<char>,
    pub mtu: i32,
    pub prefix: Seq<char>,
    pub gateway: Option<Seq<char>>,
    pub booturl: Option<Seq<char>>,
    pub last_invalidation_time: Option<Seq<char>>,
    pub ntp_servers: Seq<Seq<char>>,
}

impl View for DhcpRecord {
    type V = RecordView;

    open spec fn view(&self) -> RecordView {
        RecordView {
            machine_id: text_of(self.machine_id),
            machine_interface_id: text_of(self.machine_interface_id),
            segment_id: text_of(self.segment_id),
            subdomain_id: text_of(self.subdomain_id),
            fqdn: self.fqdn@,
            mac_address: self.mac_address@,
            address: self.address@,
            mtu: self.mtu,
            prefix: self.prefix@,
            gateway: text_of(self.gateway),
            booturl: text_of(self.booturl),
            last_invalidation_time: text_of(self.last_invalidation_time),
            ntp_servers: texts(self.ntp_servers@),
        }
    }
}

/// Result of resolving one DHCPv6 request against the selected serving mode.
#[derive(Debug)]
pub enum V6Outcome {
    /// A stateful address and configuration options are available.
    Stateful(DhcpRecord),
    /// Configuration options are available without an address assignment.
    OptionsOnly(DhcpRecord),
    /// The interface is IPv6-enabled but has no stateful address binding.
    NoAddress,
}

/// What an outcome says.
pub enum OutcomeView {
    Stateful(RecordView),
    OptionsOnly(RecordView),
    NoAddress,
}

impl View for V6Outcome {
    type V = OutcomeView;

    open spec fn view(&self) -> OutcomeView {
        match self {
            V6Outcome::Stateful(record) => OutcomeView::Stateful(record@),
            V6Outcome::OptionsOnly(record) => OutcomeView::OptionsOnly(record@),
            V6Outcome::NoAddress => OutcomeView::NoAddress,
        }
    }
}

/// What a result says, given what its value says.
pub open spec fn answer<T: View>(result: Result<T, DhcpError>) -> Result<T::V, ErrorView> {
    match result {
        Ok(value) => Ok(value@),
        Err(error) => Err(error@),
    }
}

/// The exchange that a discovery request carries.
pub open spec fn carried_kind(kind: Option<RequestedKind>) -> Result<MessageKind, ErrorView> {
    match kind {
        None => Err(
            ErrorView::InvalidInput("DHCPv6 discovery request is missing message kind"@),
        ),
        Some(RequestedKind::Unlisted(number)) => Err(
            ErrorView::InvalidInput(
                "DHCPv6 discovery request has unknown message kind "@ + signed_text(number as int),
            ),
        ),
        Some(RequestedKind::Listed(kind)) => Ok(kind),
    }
}

/// Return the message kind carried by the discovery request built from the DHCPv6 wire message.
pub fn v6_message_kind(discovery_request: &DhcpDiscovery) -> (result: Result<
    MessageKind,
    DhcpError,
>)
    ensures
        match result {
            Ok(kind) => carried_kind(discovery_request.message_kind) == Ok::<
                MessageKind,
                ErrorView,
            >(kind),
            Err(error) => carried_kind(discovery_request.message_kind) == Err::<
                MessageKind,
                ErrorView,
            >(error@),
        },
{
    match discovery_request.message_kind {
        None => Err(
            DhcpError::InvalidInput(
                "DHCPv6 discovery request is missing message kind".to_owned(),
            ),
        ),
        Some(RequestedKind::Unlisted(number)) => {
            let mut text = "DHCPv6 discovery request has unknown message kind ".to_owned();
            push_signed(&mut text, number);
            Err(DhcpError::InvalidInput(text))
        },
        Some(RequestedKind::Listed(kind)) => Ok(kind),
    }
}

/// The mode in which a server serves: where its answers come from, and whose packets it takes.
pub trait DhcpMode {
    /// Resolve a DHCPv4 request: which address the client is given.
    fn discover_dhcp(&self, discovery_request: DhcpDiscovery, config: &Config) -> Result<
        DhcpRecord,
        DhcpError,
    >;

    /// Resolve a DHCPv6 request without collapsing address-less outcomes into a record.
    fn discover_dhcp_v6(&self, discovery_request: DhcpDiscovery, config: &Config) -> Result<
        V6Outcome,
        DhcpError,
    >;

    /// The circuit of a DHCPv4 packet that came in on `interface` and itself names
    /// `packet_circuit_id`, if it names one.
    fn get_circuit_id(&self, packet_circuit_id: Option<String>, interface: &str) -> (circuit_id: Option<
        String,
    >)
        default_ensures
            circuit_id == packet_circuit_id,
    {
        packet_circuit_id
    }

    /// Should be relayed? A controller accepts only relayed packets, a DPU never gets one.
    fn should_be_relayed(&self) -> (relayed: bool)
        default_ensures
            relayed,
    {
        true
    }
}

/// The mode of a DPU, which answers from the interface table of its host.
#[derive(Debug)]
pub struct Dpu {}

/// The DHCPv4 record of an interface. Only the needed fields are filled.
pub open spec fn record_of(value: InterfaceInfo, interface_id: Seq<char>) -> RecordView {
    RecordView {
        machine_id: None,
        machine_interface_id: Some(interface_id),
        segment_id: None,
        subdomain_id: None,
        fqdn: value.fqdn@,
        mac_address: "dummy"@,
        address: ipv4_text(value.address@),
        mtu: 0,
        prefix: value.prefix@,
        gateway: Some(ipv4_text(value.gateway@)),
        booturl: text_of(value.booturl),
        last_invalidation_time: None,
        ntp_servers: Seq::empty(),
    }
}

/// Build the DHCPv4 record of an interface.
fn from_host_conf(value: &InterfaceInfo, interface_id: &String) -> (record: DhcpRecord)
    ensures
        record@ == record_of(*value, interface_id@),
{
    let record = DhcpRecord {
        machine_id: None,
        machine_interface_id: Some(interface_id.clone()),
        segment_id: None,
        subdomain_id: None,
        fqdn: value.fqdn.clone(),
        mac_address: "dummy".to_owned(),
        address: value.address.text(),
        mtu: 0,
        prefix: value.prefix.clone(),
        gateway: Some(value.gateway.text()),
        booturl: copy_text(&value.booturl),
        last_invalidation_time: None,
        ntp_servers: Vec::new(),
    };
    assert(record@.ntp_servers == Seq::<Seq<char>>::empty());
    record
}

/// The largest MTU that a record can carry.
pub const MAX_RECORD_MTU: u32 = 0x7fff_ffff;

/// The DHCPv6 record of an interface.
pub open spec fn record_of_v6(
    value: InterfaceInfo,
    ipv6: InterfaceInfoV6,
    interface_id: Seq<char>,
) -> Result<RecordView, ErrorView> {
    if value.mtu matches Some(mtu) && mtu > MAX_RECORD_MTU {
        Err(ErrorView::InvalidInput("DHCPv6 MTU exceeds the API range"@))
    } else {
        Ok(
            RecordView {
                machine_id: None,
                machine_interface_id: Some(interface_id),
                segment_id: None,
                subdomain_id: None,
                fqdn: value.fqdn@,
                mac_address: Seq::empty(),
                address: match ipv6.address {
                    Some(address) => ipv6_text(address@),
                    None => Seq::empty(),
                },
                mtu: match value.mtu {
                    Some(mtu) => mtu as i32,
                    None => 0,
                },
                prefix: ipv6.prefix@,
                gateway: None,
                booturl: None,
                last_invalidation_time: None,
                ntp_servers: Seq::empty(),
            },
        )
    }
}

/// Build the family-neutral record consumed by the DHCPv6 encoder.
fn from_host_conf_v6(
    value: &InterfaceInfo,
    ipv6: &InterfaceInfoV6,
    interface_id: &String,
) -> (result: Result<DhcpRecord, DhcpError>)
    ensures
        answer(result) == record_of_v6(*value, *ipv6, interface_id@),
        result is Ok && ipv6.address is Some ==> ipv6_parsed(result->Ok_0@.address) == Some(
            ipv6.address->Some_0@,
        ),
{
    let mtu: i32 = match value.mtu {
        Some(mtu) => {
            if mtu > MAX_RECORD_MTU {
                return Err(
                    DhcpError::InvalidInput("DHCPv6 MTU exceeds the API range".to_owned()),
                );
            }
            mtu as i32
        },
        None => 0,
    };
    let address = match &ipv6.address {
        Some(address) => address.text(),
        None => String::new(),
    };
    let record = DhcpRecord {
        machine_id: None,
        machine_interface_id: Some(interface_id.clone()),
        segment_id: None,
        subdomain_id: None,
        fqdn: value.fqdn.clone(),
        mac_address: String::new(),
        address,
        mtu,
        prefix: ipv6.prefix.clone(),
        gateway: None,
        booturl: None,
        last_invalidation_time: None,
        ntp_servers: Vec::new(),
    };
    assert(record@.ntp_servers == Seq::<Seq<char>>::empty());
    Ok(record)
}

/// What a DPU answers to a DHCPv4 request that came in on `circuit_id`.
pub open spec fn dpu_record(circuit_id: Option<Seq<char>>, host: Option<HostConfig>) -> Result<
    RecordView,
    ErrorView,
> {
    match (circuit_id, host) {
        (None, _) => Err(ErrorView::MissingArgument("Missing circuit id."@)),
        (Some(_), None) => Err(ErrorView::InvalidInput("host input is invalid."@)),
        (Some(circuit_id), Some(host)) => match host.host_ip_addresses.lookup(circuit_id) {
            None => Err(
                ErrorView::MissingArgument("Could not find IP details for "@ + circuit_id),
            ),
            Some(info) => Ok(record_of(info, host.host_interface_id@)),
        },
    }
}

/// The address that is configured for the host on an interface, if there is one.
pub open spec fn configured_address(interface: Seq<char>, host: Option<HostConfig>) -> Option<
    Seq<u8>,
> {
    match host {
        None => None,
        Some(host) => match host.host_ip_addresses.lookup(interface) {
            None => None,
            Some(info) => match info.ipv6 {
                None => None,
                Some(ipv6) => match ipv6.address {
                    None => None,
                    Some(address) => Some(address@),
                },
            },
        },
    }
}

/// What a DPU answers to a DHCPv6 request of one kind that came in on `circuit_id`.
pub open spec fn dpu_outcome(
    kind: Option<RequestedKind>,
    circuit_id: Option<Seq<char>>,
    host: Option<HostConfig>,
) -> Result<OutcomeView, ErrorView> {
    match (carried_kind(kind), circuit_id, host) {
        (Err(error), _, _) => Err(error),
        (Ok(_), None, _) => Err(ErrorView::MissingArgument("DHCPv6 circuit id"@)),
        (Ok(_), Some(_), None) => Err(ErrorView::InvalidInput("host input is invalid"@)),
        (Ok(kind), Some(circuit_id), Some(host)) => match host.host_ip_addresses.lookup(
            circuit_id,
        ) {
            None => Err(
                ErrorView::MissingArgument("could not find IP details for "@ + circuit_id),
            ),
            Some(info) => match info.ipv6 {
                None => Err(ErrorView::MissingArgument("IPv6 interface config"@)),
                Some(ipv6) => {
                    let record = record_of_v6(info, ipv6, host.host_interface_id@);
                    match kind {
                        MessageKind::V6InfoRequest => match record {
                            Ok(record) => Ok(OutcomeView::OptionsOnly(record)),
                            Err(error) => Err(error),
                        },
                        MessageKind::V6Solicit | MessageKind::V6Request => if ipv6.address is None {
                            Ok(OutcomeView::NoAddress)
                        } else {
                            match record {
                                Ok(record) => Ok(OutcomeView::Stateful(record)),
                                Err(error) => Err(error),
                            }
                        },
                        MessageKind::NotV6 => Err(
                            ErrorView::InvalidInput(
                                "non-DHCPv6 message kind passed to DHCPv6 mode"@,
                            ),
                        ),
                    }
                },
            },
        },
    }
}

/// An interface whose hosts configure their addresses themselves is told its options, and is
/// assigned no address. An interface without an IPv6 block is told neither.
pub proof fn law_self_configured_interface_gets_options_only(
    host: HostConfig,
    circuit_id: Seq<char>,
    info: InterfaceInfo,
)
    requires
        host.host_ip_addresses.lookup(circuit_id) == Some(info),
        info.ipv6 is Some ==> info.ipv6->Some_0.address is None,
    ensures
        ({
            let outcome = |kind: MessageKind|
                dpu_outcome(Some(RequestedKind::Listed(kind)), Some(circuit_id), Some(host));
            match info.ipv6 {
                Some(ipv6) => {
                    &&& outcome(MessageKind::V6Solicit) == Ok::<OutcomeView, ErrorView>(
                        OutcomeView::NoAddress,
                    )
                    &&& outcome(MessageKind::V6Request) == Ok::<OutcomeView, ErrorView>(
                        OutcomeView::NoAddress,
                    )
                    &&& match record_of_v6(info, ipv6, host.host_interface_id@) {
                        Ok(record) => outcome(MessageKind::V6InfoRequest) == Ok::<
                            OutcomeView,
                            ErrorView,
                        >(OutcomeView::OptionsOnly(record)),
                        Err(error) => outcome(MessageKind::V6InfoRequest) == Err::<
                            OutcomeView,
                            ErrorView,
                        >(error),
                    }
                },
                None => forall|kind: MessageKind| (#[trigger] outcome(kind)) is Err,
            }
        }),
{
}

/// What a DPU tells over DHCPv4 is what is configured for the interface that the packet came in on:
/// its address and gateway, which are read back from their texts, its prefix, its name and its boot
/// URL. Where the circuit, the host or the interface is not known there is nothing to tell.
pub proof fn law_dpu_record_is_the_configured_one(
    circuit_id: Option<Seq<char>>,
    host: Option<HostConfig>,
)
    ensures
        ({
            let told = dpu_record(circuit_id, host);
            let info = host->Some_0.host_ip_addresses.lookup(circuit_id->Some_0);
            let numbers = |octets: Seq<u8>|
                seq![octets[0] as int, octets[1] as int, octets[2] as int, octets[3] as int];
            &&& told is Ok <==> circuit_id is Some && host is Some && info is Some
            &&& told matches Ok(record) ==> {
                &&& record.machine_interface_id == Some(host->Some_0.host_interface_id@)
                &&& numbers_read(record.address, 4) == numbers(info->Some_0.address@)
                &&& record.gateway is Some
                &&& numbers_read(record.gateway->Some_0, 4) == numbers(info->Some_0.gateway@)
                &&& record.prefix == info->Some_0.prefix@
                &&& record.fqdn == info->Some_0.fqdn@
                &&& record.booturl is Some <==> info->Some_0.booturl is Some
                &&& record.booturl matches Some(url) ==> url == info->Some_0.booturl->Some_0@
                &&& record.machine_id is None
                &&& record.segment_id is None
                &&& record.subdomain_id is None
                &&& record.last_invalidation_time is None
                &&& record.mac_address == "dummy"@
                &&& record.mtu == 0
                &&& record.ntp_servers.len() == 0
            }
            &&& circuit_id is None ==> told->Err_0 == ErrorView::MissingArgument(
                "Missing circuit id."@,
            )
            &&& circuit_id is Some && host is None ==> told->Err_0 == ErrorView::InvalidInput(
                "host input is invalid."@,
            )
            &&& circuit_id is Some && host is Some && info is None ==> told->Err_0
                == ErrorView::MissingArgument(
                "Could not find IP details for "@ + circuit_id->Some_0,
            )
        }),
{
    if let (Some(circuit_id), Some(host)) = (circuit_id, host) {
        if let Some(info) = host.host_ip_addresses.lookup(circuit_id) {
            law_ipv4_text_reads_back(info.address@);
            law_ipv4_text_reads_back(info.gateway@);
        }
    }
}

/// What a DPU tells over DHCPv6 is what is configured for the interface that the packet came in on.
/// A request for options is told the name and the MTU, whether or not there is an address. A request
/// for an address is told the address that is configured, or that there is none. An MTU that a
/// record cannot carry is refused wherever a record is told.
pub proof fn law_dpu_outcome_is_the_configured_one(
    kind: MessageKind,
    circuit_id: Seq<char>,
    host: HostConfig,
    info: InterfaceInfo,
    ipv6: InterfaceInfoV6,
)
    requires
        host.host_ip_addresses.lookup(circuit_id) == Some(info),
        info.ipv6 == Some(ipv6),
    ensures
        ({
            let told = dpu_outcome(Some(RequestedKind::Listed(kind)), Some(circuit_id), Some(host));
            let too_large = info.mtu is Some && info.mtu->Some_0 > i32::MAX;
            let asks_for_address = kind is V6Solicit || kind is V6Request;
            let unassigned = asks_for_address && ipv6.address is None;
            let record = if kind is V6InfoRequest {
                told->Ok_0->OptionsOnly_0
            } else {
                told->Ok_0->Stateful_0
            };
            &&& told is Ok <==> !(kind is NotV6) && (unassigned || !too_large)
            &&& told is Ok ==> {
                &&& told->Ok_0 is OptionsOnly <==> kind is V6InfoRequest
                &&& told->Ok_0 is Stateful <==> asks_for_address && ipv6.address is Some
                &&& told->Ok_0 is NoAddress <==> unassigned
            }
            &&& told is Ok && !unassigned ==> {
                &&& record.machine_interface_id == Some(host.host_interface_id@)
                &&& record.fqdn == info.fqdn@
                &&& record.prefix == ipv6.prefix@
                &&& record.mtu == (if info.mtu is Some {
                    info.mtu->Some_0 as int
                } else {
                    0
                })
                &&& ipv6.address is None ==> record.address.len() == 0
                &&& ipv6.address matches Some(address) ==> record.address == ipv6_text(address@)
                &&& record.machine_id is None
                &&& record.segment_id is None
                &&& record.subdomain_id is None
                &&& record.gateway is None
                &&& record.booturl is None
                &&& record.last_invalidation_time is None
                &&& record.mac_address.len() == 0
                &&& record.ntp_servers.len() == 0
            }
            &&& kind is NotV6 ==> told->Err_0 == ErrorView::InvalidInput(
                "non-DHCPv6 message kind passed to DHCPv6 mode"@,
            )
            &&& !(kind is NotV6) && !unassigned && too_large ==> told->Err_0
                == ErrorView::InvalidInput("DHCPv6 MTU exceeds the API range"@)
        }),
{
}

/// A DPU refuses a DHCPv6 question that it cannot place: one without a kind or of an unknown one,
/// without a circuit, without a host, or about an interface that is not configured for IPv6.
pub proof fn law_dpu_refuses_what_it_cannot_place(
    kind: Option<RequestedKind>,
    circuit_id: Option<Seq<char>>,
    host: Option<HostConfig>,
)
    ensures
        ({
            let told = dpu_outcome(kind, circuit_id, host);
            let listed = kind is Some && kind->Some_0 is Listed;
            let info = host->Some_0.host_ip_addresses.lookup(circuit_id->Some_0);
            &&& kind is None ==> told == Err::<OutcomeView, ErrorView>(
                ErrorView::InvalidInput("DHCPv6 discovery request is missing message kind"@),
            )
            &&& kind matches Some(RequestedKind::Unlisted(number)) ==> told == Err::<
                OutcomeView,
                ErrorView,
            >(
                ErrorView::InvalidInput(
                    "DHCPv6 discovery request has unknown message kind "@ + signed_text(
                        number as int,
                    ),
                ),
            )
            &&& listed && circuit_id is None ==> told == Err::<OutcomeView, ErrorView>(
                ErrorView::MissingArgument("DHCPv6 circuit id"@),
            )
            &&& listed && circuit_id is Some && host is None ==> told == Err::<
                OutcomeView,
                ErrorView,
            >(ErrorView::InvalidInput("host input is invalid"@))
            &&& listed && circuit_id is Some && host is Some && info is None ==> told == Err::<
                OutcomeView,
                ErrorView,
            >(
                ErrorView::MissingArgument(
                    "could not find IP details for "@ + circuit_id->Some_0,
                ),
            )
            &&& listed && circuit_id is Some && host is Some && info is Some
                && info->Some_0.ipv6 is None ==> told == Err::<OutcomeView, ErrorView>(
                ErrorView::MissingArgument("IPv6 interface config"@),
            )
        }),
{
}

impl DhcpMode for Dpu {
    /// Resolve a DHCPv4 request from the interface block of the host's configuration.
    fn discover_dhcp(&self, discovery_request: DhcpDiscovery, config: &Config) -> (result: Result<
        DhcpRecord,
        DhcpError,
    >)
        ensures
            answer(result) == dpu_record(text_of(discovery_request.circuit_id), config.host_config),
    {
        let circuit_id = match discovery_request.circuit_id {
            Some(circuit_id) => circuit_id,
            None => {
                return Err(DhcpError::MissingArgument("Missing circuit id.".to_owned()));
            },
        };
        let host_config = match config.host_config() {
            Some(host_config) => host_config,
            None => {
                return Err(DhcpError::InvalidInput("host input is invalid.".to_owned()));
            },
        };
        match host_config.host_ip_addresses.get(circuit_id.as_str()) {
            Some(info) => Ok(from_host_conf(info, &host_config.host_interface_id)),
            None => Err(
                DhcpError::MissingArgument(
                    "Could not find IP details for ".to_owned().concat(circuit_id.as_str()),
                ),
            ),
        }
    }

    /// Resolve DHCPv6 directly from the interface block of the host's configuration.
    fn discover_dhcp_v6(&self, discovery_request: DhcpDiscovery, config: &Config) -> (result: Result<
        V6Outcome,
        DhcpError,
    >)
        ensures
            answer(result) == dpu_outcome(
                discovery_request.message_kind,
                text_of(discovery_request.circuit_id),
                config.host_config,
            ),
            result matches Ok(V6Outcome::Stateful(record)) ==> {
                &&& discovery_request.circuit_id is Some
                &&& configured_address(
                    discovery_request.circuit_id->Some_0@,
                    config.host_config,
                ) is Some
                &&& ipv6_parsed(record@.address) == configured_address(
                    discovery_request.circuit_id->Some_0@,
                    config.host_config,
                )
            },
    {
        let message_kind = match v6_message_kind(&discovery_request) {
            Ok(message_kind) => message_kind,
            Err(error) => {
                return Err(error);
            },
        };
        let circuit_id = match discovery_request.circuit_id {
            Some(circuit_id) => circuit_id,
            None => {
                return Err(DhcpError::MissingArgument("DHCPv6 circuit id".to_owned()));
            },
        };
        let host_config = match config.host_config() {
            Some(host_config) => host_config,
            None => {
                return Err(DhcpError::InvalidInput("host input is invalid".to_owned()));
            },
        };
        let interface = match host_config.host_ip_addresses.get(circuit_id.as_str()) {
            Some(interface) => interface,
            None => {
                return Err(
                    DhcpError::MissingArgument(
                        "could not find IP details for ".to_owned().concat(circuit_id.as_str()),
                    ),
                );
            },
        };
        // Without an IPv6 block the interface does no DHCPv6. That differs from a block without an
        // address, whose hosts configure themselves.
        let ipv6 = match &interface.ipv6 {
            Some(ipv6) => ipv6,
            None => {
                return Err(DhcpError::MissingArgument("IPv6 interface config".to_owned()));
            },
        };
        match message_kind {
            MessageKind::V6InfoRequest => {
                match from_host_conf_v6(interface, ipv6, &host_config.host_interface_id) {
                    Ok(record) => Ok(V6Outcome::OptionsOnly(record)),
                    Err(error) => Err(error),
                }
            },
            MessageKind::V6Solicit | MessageKind::V6Request => {
                if ipv6.address.is_none() {
                    return Ok(V6Outcome::NoAddress);
                }
                match from_host_conf_v6(interface, ipv6, &host_config.host_interface_id) {
                    Ok(record) => Ok(V6Outcome::Stateful(record)),
                    Err(error) => Err(error),
                }
            },
            MessageKind::NotV6 => Err(
                DhcpError::InvalidInput(
                    "non-DHCPv6 message kind passed to DHCPv6 mode".to_owned(),
                ),
            ),
        }
    }

    /// The circuit is the name of the interface that a packet came in on.
    fn get_circuit_id(&self, packet_circuit_id: Option<String>, interface: &str) -> (circuit_id: Option<
        String,
    >)
        ensures
            text_of(circuit_id) == Some(interface@),
    {
        Some(interface.to_owned())
    }

    fn should_be_relayed(&self) -> (relayed: bool)
        ensures
            !relayed,
    {
        false
    }
}

} // verus!
