//! What a DHCPv6 client asks for, and who it is.

use crate::address::{Ipv6Addr, MacAddress};
use crate::bytes::{push_slice, push_u16, push_u32, read_u16, same_bytes};
use crate::codec::{Message, MessageView};
use crate::config::{Config, DhcpConfig};
use crate::decode::{decode, DecodeError, RelayEnvelope, RelayView};
use crate::duid::{extract_mac_from_duid, extract_mac_from_option79, DuidError, DuidMac};
use crate::errors::{DhcpError, ErrorView};
use crate::message::{MessageType, OptionCode};
use crate::modes::{AddressFamily, DhcpDiscovery, DiscoveryView, MessageKind, RequestedKind};
use crate::options::{ClientOption, OptionList, OptionView};
use crate::text::{bytes_to_hex, u8_to_mac, utf8_text};
use crate::wire::WireFault;
#[allow(unused_imports)]
use crate::{
    address::ipv6_text,
    bytes::{u16_at, u16_octets, u32_octets},
    codec::addresses,
    decode::{client_octets, envelope_of, message_of, packet_fault, relay_of},
    duid::{duid_identity, option79_identity},
    message::message_name,
    modes::answer,
    options::{address_octets, numbered, strings},
    text::{hex_text, mac_text, text_of},
};
use vstd::prelude::*;
use vstd::slice::slice_to_vec;
use vstd::string::StringExecFns;

verus! {

const DUID_EN: u16 = 2;

const NVIDIA_ENTERPRISE_NUMBER: u32 = 5703;

/// A client's request: its message, the relay that forwarded it, and who the client is.
#[derive(Debug)]
pub struct DecodedPacketV6 {
    pub message: Message,
    pub relay: Option<RelayEnvelope>,
    pub duid: Vec<u8>,
    pub duid_mac: DuidMac,
}

/// What a request says.
pub struct RequestView {
    pub message: MessageView,
    pub relay: Option<RelayView>,
    pub duid: Seq<u8>,
    pub duid_mac: Option<Seq<u8>>,
}

impl View for DecodedPacketV6 {
    type V = RequestView;

    open spec fn view(&self) -> RequestView {
        RequestView {
            message: self.message@,
            relay: relay_of(self.relay),
            duid: self.duid@,
            duid_mac: self.duid_mac@,
        }
    }
}

/// The error that a fault of the wire format is reported as.
pub open spec fn reported(fault: WireFault) -> ErrorView {
    match fault {
        WireFault::Malformed(reason) => ErrorView::InvalidInput(
            "malformed DHCPv6 packet: "@ + reason,
        ),
        WireFault::Undecodable(words) => ErrorView::PacketDecodeFailure(words),
        WireFault::MissingRelayMessage => ErrorView::MissingOptionV6(OptionCode::RelayMsg),
        WireFault::NestedRelay => ErrorView::NestedRelayV6,
        WireFault::RelayHopCountExceeded(hop_count) => ErrorView::RelayHopCountExceededV6(
            hop_count,
        ),
        WireFault::UnexpectedRelayReply => ErrorView::UnhandledMessageTypeV6(
            MessageType::RelayRepl,
        ),
    }
}

/// What is wrong with a packet is reported by an error of its own, with what the fault tells: the
/// reason for octets that break a rule, the codec's words for an option, and the hop count.
pub proof fn law_faults_are_reported_as_they_are(fault: WireFault)
    ensures
        ({
            let error = reported(fault);
            &&& error is InvalidInput <==> fault is Malformed
            &&& error is PacketDecodeFailure <==> fault is Undecodable
            &&& error is NestedRelayV6 <==> fault is NestedRelay
            &&& error is RelayHopCountExceededV6 <==> fault is RelayHopCountExceeded
            &&& fault is Malformed ==> error->InvalidInput_0 == "malformed DHCPv6 packet: "@
                + fault->Malformed_0
            &&& fault is Undecodable ==> error->PacketDecodeFailure_0 == fault->Undecodable_0
            &&& fault is RelayHopCountExceeded ==> error->RelayHopCountExceededV6_0
                == fault->RelayHopCountExceeded_0
            &&& error == ErrorView::MissingOptionV6(OptionCode::RelayMsg) <==> fault
                is MissingRelayMessage
            &&& error == ErrorView::UnhandledMessageTypeV6(MessageType::RelayRepl) <==> fault
                is UnexpectedRelayReply
        }),
{
}

/// Report a policy-neutral wire failure as a server packet error.
fn map_wire_error(error: DecodeError) -> (mapped: DhcpError)
    ensures
        mapped@ == reported(error@),
{
    match error {
        DecodeError::MalformedPacket(reason) => DhcpError::InvalidInput(
            "malformed DHCPv6 packet: ".to_owned().concat(reason),
        ),
        DecodeError::ClientMessageDecode(reason) => DhcpError::PacketDecodeFailure(reason),
        DecodeError::MissingRelayMessage => DhcpError::MissingOptionV6(OptionCode::RelayMsg),
        DecodeError::NestedRelay => DhcpError::NestedRelayV6,
        DecodeError::RelayHopCountExceeded(hop_count) => DhcpError::RelayHopCountExceededV6(
            hop_count,
        ),
        DecodeError::UnexpectedRelayReply => DhcpError::UnhandledMessageTypeV6(
            MessageType::RelayRepl,
        ),
    }
}

/// The client's identifier and the hardware address in it.
pub open spec fn client_identity(options: Seq<OptionView>) -> Result<
    (Seq<u8>, Option<Seq<u8>>),
    ErrorView,
> {
    let found = numbered(options, 1);
    if found.len() > 1 {
        Err(ErrorView::InvalidInput("multiple DHCPv6 ClientId options are unsupported"@))
    } else if found.len() == 1 && found[0] is ClientId {
        let duid = found[0]->ClientId_0;
        match duid_identity(duid) {
            Ok(mac) => Ok((duid, mac)),
            Err(DuidError::Malformed) => Err(ErrorView::MalformedDuid),
            Err(DuidError::UnsupportedType) => Err(
                ErrorView::UnsupportedDuidType(u16_at(duid, 0)),
            ),
        }
    } else {
        Err(ErrorView::MissingOptionV6(OptionCode::ClientId))
    }
}

/// Return and classify the request's single structurally valid ClientId.
pub fn client_identifier(message: &Message) -> (result: Result<(Vec<u8>, DuidMac), DhcpError>)
    ensures
        match result {
            Ok((duid, mac)) => client_identity(message@.options) == Ok::<
                (Seq<u8>, Option<Seq<u8>>),
                ErrorView,
            >((duid@, mac@)),
            Err(error) => client_identity(message@.options) == Err::<
                (Seq<u8>, Option<Seq<u8>>),
                ErrorView,
            >(error@),
        },
{
    let mut identifiers = message.options.get_all(1);
    if identifiers.len() > 1 {
        return Err(
            DhcpError::InvalidInput(
                "multiple DHCPv6 ClientId options are unsupported".to_owned(),
            ),
        );
    }
    match identifiers.pop() {
        Some(ClientOption::ClientId(duid)) => match extract_mac_from_duid(duid.as_slice()) {
            Ok(mac) => Ok((duid, mac)),
            Err(DuidError::Malformed) => Err(DhcpError::MalformedDuid),
            Err(DuidError::UnsupportedType) => {
                let duid_type: u16 = read_u16(duid.as_slice(), 0);
                Err(DhcpError::UnsupportedDuidType(duid_type))
            },
        },
        _ => Err(DhcpError::MissingOptionV6(OptionCode::ClientId)),
    }
}

/// The server's identifier: a DUID made of the enterprise number and the server's address.
pub open spec fn server_duid(config: DhcpConfig) -> Seq<u8> {
    u16_octets(2) + u32_octets(5703) + config.carbide_dhcp_server@
}

/// The server's identifier is a valid DUID that is formed from no hardware address, and servers at
/// different addresses have different ones.
pub proof fn law_server_identifier_is_a_duid(config: DhcpConfig, other: DhcpConfig)
    ensures
        duid_identity(server_duid(config)) == Ok::<Option<Seq<u8>>, DuidError>(None),
        server_duid(config) == server_duid(other) <==> config.carbide_dhcp_server@
            == other.carbide_dhcp_server@,
{
    let own = server_duid(config);
    assert(own.len() == 10);
    assert(own[0] == 0 && own[1] == 2);
    assert(own.skip(6) == config.carbide_dhcp_server@);
    assert(server_duid(other).skip(6) == other.carbide_dhcp_server@);
}

/// Return the stable DUID-EN used as this server's DHCPv6 identifier.
pub fn server_identifier(config: &Config) -> (identifier: Vec<u8>)
    ensures
        identifier@ == server_duid(config.dhcp_config),
{
    let mut identifier: Vec<u8> = Vec::new();
    push_u16(&mut identifier, DUID_EN);
    push_u32(&mut identifier, NVIDIA_ENTERPRISE_NUMBER);
    push_slice(&mut identifier, config.dhcp_config.carbide_dhcp_server.octets.as_slice());
    assert(identifier@ == server_duid(config.dhcp_config));
    identifier
}

/// Whether the lifetimes cannot be used for an address.
pub open spec fn bad_lifetimes(config: DhcpConfig) -> bool {
    ||| config.dhcpv6_preferred_lifetime_secs == 0
    ||| config.dhcpv6_valid_lifetime_secs == 0
    ||| config.dhcpv6_preferred_lifetime_secs > config.dhcpv6_valid_lifetime_secs
}

/// The error for lifetimes that cannot be used.
pub open spec fn lifetime_error() -> ErrorView {
    ErrorView::InvalidInput(
        "DHCPv6 lifetimes must be nonzero with preferred not exceeding valid"@,
    )
}

/// Return validated lifetimes for a stateful DHCPv6 response.
pub fn stateful_lifetimes(config: &Config) -> (result: Result<(u32, u32), DhcpError>)
    ensures
        match result {
            Ok((preferred, valid)) => {
                &&& !bad_lifetimes(config.dhcp_config)
                &&& preferred == config.dhcp_config.dhcpv6_preferred_lifetime_secs
                &&& valid == config.dhcp_config.dhcpv6_valid_lifetime_secs
            },
            Err(error) => bad_lifetimes(config.dhcp_config) && error@ == lifetime_error(),
        },
{
    let preferred: u32 = config.dhcp_config.dhcpv6_preferred_lifetime_secs;
    let valid: u32 = config.dhcp_config.dhcpv6_valid_lifetime_secs;
    if preferred == 0 || valid == 0 || preferred > valid {
        return Err(
            DhcpError::InvalidInput(
                "DHCPv6 lifetimes must be nonzero with preferred not exceeding valid".to_owned(),
            ),
        );
    }
    Ok((preferred, valid))
}

/// The identifier of the server that a message selects.
pub open spec fn selected_server(options: Seq<OptionView>) -> Option<Seq<u8>> {
    let found = numbered(options, 2);
    if found.len() > 0 && found[0] is ServerId {
        Some(found[0]->ServerId_0)
    } else {
        None
    }
}

/// Whether a message of this type must not select a server.
pub open spec fn forbids_server(message_type: MessageType) -> bool {
    message_type is Solicit || message_type is Confirm || message_type is Rebind
}

/// Whether a message of this type has to select a server.
pub open spec fn requires_server(message_type: MessageType) -> bool {
    message_type is Request || message_type is Renew || message_type is Release
        || message_type is Decline
}

/// What is wrong with the server that a message selects.
pub open spec fn server_fault(message: MessageView, config: DhcpConfig) -> Option<ErrorView> {
    let selected = selected_server(message.options);
    if numbered(message.options, 2).len() > 1 {
        Some(ErrorView::InvalidInput("multiple DHCPv6 ServerId options are unsupported"@))
    } else if forbids_server(message.msg_type) && selected is Some {
        Some(
            ErrorView::InvalidInput(
                message_name(message.msg_type) + " must not include a DHCPv6 ServerId option"@,
            ),
        )
    } else if selected is Some && selected->Some_0 != server_duid(config) {
        Some(ErrorView::NotMyPacket(hex_text(selected->Some_0)))
    } else if requires_server(message.msg_type) && selected is None {
        Some(ErrorView::MissingOptionV6(OptionCode::ServerId))
    } else {
        None
    }
}

/// Reject messages explicitly selecting another server and require selection where mandated.
pub fn ensure_server_identifier(message: &Message, config: &Config) -> (result: Result<
    (),
    DhcpError,
>)
    ensures
        match result {
            Ok(_) => server_fault(message@, config.dhcp_config) is None,
            Err(error) => server_fault(message@, config.dhcp_config) == Some(error@),
        },
{
    let mut identifiers = message.options.get_all(2);
    if identifiers.len() > 1 {
        return Err(
            DhcpError::InvalidInput(
                "multiple DHCPv6 ServerId options are unsupported".to_owned(),
            ),
        );
    }
    let received = match identifiers.pop() {
        Some(ClientOption::ServerId(identifier)) => Some(identifier),
        _ => None,
    };
    let message_type = message.msg_type;
    match received {
        Some(received) => {
            if message_type == MessageType::Solicit || message_type == MessageType::Confirm
                || message_type == MessageType::Rebind {
                return Err(
                    DhcpError::InvalidInput(
                        message_type.name().concat(" must not include a DHCPv6 ServerId option"),
                    ),
                );
            }
            let own = server_identifier(config);
            if !same_bytes(received.as_slice(), own.as_slice()) {
                return Err(DhcpError::NotMyPacket(bytes_to_hex(received.as_slice())));
            }
        },
        None => {
            // These exchanges continue a binding selected from an earlier Advertise.
            if message_type == MessageType::Request || message_type == MessageType::Renew
                || message_type == MessageType::Release || message_type == MessageType::Decline {
                return Err(DhcpError::MissingOptionV6(OptionCode::ServerId));
            }
        },
    }
    Ok(())
}

/// One identity association for non-temporary addresses.
#[derive(Debug)]
pub struct IaNa {
    pub id: u32,
    pub options: OptionList,
}

/// What an identity association says.
pub struct IaView {
    pub id: u32,
    pub options: Seq<OptionView>,
}

impl View for IaNa {
    type V = IaView;

    open spec fn view(&self) -> IaView {
        IaView { id: self.id, options: self.options@ }
    }
}

/// The identity associations among the options of a list, in the list's order.
pub open spec fn associations(options: Seq<OptionView>) -> Seq<IaView>
    decreases options.len(),
{
    if options.len() == 0 {
        Seq::empty()
    } else {
        match options[0] {
            OptionView::IaNa { id, options: nested, .. } => seq![IaView { id, options: nested }]
                + associations(options.skip(1)),
            _ => associations(options.skip(1)),
        }
    }
}

/// The single identity association that one address can be assigned to.
pub open spec fn association(options: Seq<OptionView>) -> Result<Option<IaView>, ErrorView> {
    let found = associations(options);
    if found.len() > 1 {
        Err(ErrorView::InvalidInput("multiple DHCPv6 IA_NA options are unsupported"@))
    } else if found.len() == 1 {
        Ok(Some(found[0]))
    } else {
        Ok(None)
    }
}

/// Identity associations are found part by part.
pub(crate) proof fn lemma_associations_add(left: Seq<OptionView>, right: Seq<OptionView>)
    ensures
        associations(left + right) == associations(left) + associations(right),
    decreases left.len(),
{
    if left.len() == 0 {
        assert(left + right == right);
    } else {
        assert((left + right).skip(1) == left.skip(1) + right);
        lemma_associations_add(left.skip(1), right);
    }
}

/// Identity associations are found among the options of their number.
proof fn lemma_associations_numbered(options: Seq<OptionView>)
    ensures
        associations(numbered(options, 3)) == associations(options),
    decreases options.len(),
{
    if options.len() != 0 {
        let rest = options.skip(1);
        lemma_associations_numbered(rest);
        if options[0].number() == 3 {
            assert(numbered(options, 3).skip(1) == numbered(rest, 3));
            assert(numbered(options, 3)[0] == options[0]);
        }
    }
}

/// Addresses are found part by part.
pub(crate) proof fn lemma_addresses_add(left: Seq<OptionView>, right: Seq<OptionView>)
    ensures
        addresses(left + right) == addresses(left) + addresses(right),
    decreases left.len(),
{
    if left.len() == 0 {
        assert(left + right == right);
    } else {
        assert((left + right).skip(1) == left.skip(1) + right);
        lemma_addresses_add(left.skip(1), right);
    }
}

/// Addresses are found among the options of their number.
proof fn lemma_addresses_numbered(options: Seq<OptionView>)
    ensures
        addresses(numbered(options, 5)) == addresses(options),
    decreases options.len(),
{
    if options.len() != 0 {
        let rest = options.skip(1);
        lemma_addresses_numbered(rest);
        if options[0].number() == 5 {
            assert(numbered(options, 5).skip(1) == numbered(rest, 5));
            assert(numbered(options, 5)[0] == options[0]);
        }
    }
}

/// Return the single IA_NA supported by the one-address model.
pub(crate) fn ia_na(message: &Message) -> (result: Result<Option<IaNa>, DhcpError>)
    ensures
        match result {
            Ok(Some(found)) => association(message@.options) == Ok::<Option<IaView>, ErrorView>(
                Some(found@),
            ),
            Ok(None) => association(message@.options) == Ok::<Option<IaView>, ErrorView>(None),
            Err(error) => association(message@.options) == Err::<Option<IaView>, ErrorView>(
                error@,
            ),
        },
{
    let mut found = message.options.get_all(3);
    let ghost listed = numbered(message@.options, 3);
    let mut kept: Option<IaNa> = None;
    proof {
        lemma_associations_numbered(message@.options);
        assert(listed.take(found@.len() as int) == listed);
        assert(associations(listed) + Seq::<IaView>::empty() == associations(listed));
    }
    while found.len() > 0
        invariant
            found@.len() <= listed.len(),
            forall|i: int| 0 <= i < found@.len() ==> (#[trigger] found@[i]).shows(listed[i]),
            associations(listed) == associations(message@.options),
            associations(listed) == associations(listed.take(found@.len() as int)) + (match kept {
                Some(kept) => seq![kept@],
                None => Seq::empty(),
            }),
        decreases found@.len(),
    {
        let ghost count = found@.len() as int;
        let ghost last = listed[count - 1];
        proof {
            assert(found@[count - 1].shows(last));
            assert(listed.take(count) == listed.take(count - 1) + seq![last]);
            lemma_associations_add(listed.take(count - 1), seq![last]);
            reveal_with_fuel(associations, 2);
        }
        match found.pop() {
            Some(ClientOption::IaNa { id, options }) => {
                if kept.is_some() {
                    return Err(
                        DhcpError::InvalidInput(
                            "multiple DHCPv6 IA_NA options are unsupported".to_owned(),
                        ),
                    );
                }
                let ghost front = associations(listed.take(count - 1));
                kept = Some(IaNa { id, options });
                assert(front + seq![kept->Some_0@] + Seq::<IaView>::empty() == front + seq![
                    kept->Some_0@,
                ]);
            },
            _ => {
                assert(associations(listed.take(count - 1)) + Seq::<IaView>::empty()
                    == associations(listed.take(count - 1)));
            },
        }
    }
    assert(listed.take(0) == Seq::<OptionView>::empty());
    Ok(kept)
}

/// Return the addresses among the options of a list.
pub(crate) fn listed_addresses(options: &OptionList) -> (found: Vec<Ipv6Addr>)
    ensures
        address_octets(found@) == addresses(options@),
{
    let options_found = options.get_all(5);
    let ghost listed = numbered(options@, 5);
    let mut found: Vec<Ipv6Addr> = Vec::new();
    let mut i: usize = 0;
    proof {
        lemma_addresses_numbered(options@);
        assert(listed.take(0) == Seq::<OptionView>::empty());
        assert(address_octets(found@) == Seq::<Seq<u8>>::empty());
    }
    while i < options_found.len()
        invariant
            i <= options_found@.len(),
            options_found@.len() == listed.len(),
            forall|k: int|
                0 <= k < options_found@.len() ==> (#[trigger] options_found@[k]).shows(listed[k]),
            address_octets(found@) == addresses(listed.take(i as int)),
        decreases options_found@.len() - i,
    {
        let ghost here = listed[i as int];
        let ghost before = found@;
        proof {
            assert(options_found@[i as int].shows(here));
            assert(listed.take(i + 1) == listed.take(i as int) + seq![here]);
            lemma_addresses_add(listed.take(i as int), seq![here]);
            reveal_with_fuel(addresses, 2);
        }
        match &options_found[i] {
            ClientOption::IaAddr(address) => {
                found.push(*address);
                assert(address_octets(found@) == address_octets(before) + seq![address@]);
            },
            _ => {
                assert(addresses(listed.take(i + 1)) == addresses(listed.take(i as int)));
            },
        }
        i += 1;
    }
    assert(listed.take(i as int) == listed);
    found
}

/// The single address that a client names in its identity association.
pub open spec fn named_address(options: Seq<OptionView>) -> Result<Option<Seq<u8>>, ErrorView> {
    match association(options) {
        Err(error) => Err(error),
        Ok(None) => Ok(None),
        Ok(Some(ia)) => {
            let found = addresses(ia.options);
            if found.len() > 1 {
                Err(ErrorView::InvalidInput("multiple DHCPv6 IAADDR options are unsupported"@))
            } else if found.len() == 1 {
                Ok(Some(found[0]))
            } else {
                Ok(None)
            }
        },
    }
}

/// The hardware address that the relay saw a client send from, if it tells of one.
pub open spec fn relayed_mac(request: RequestView) -> Option<Seq<u8>> {
    match request.relay {
        Some(relay) => match relay.client_link_layer {
            Some(payload) => option79_identity(payload),
            None => None,
        },
        None => None,
    }
}

/// The hardware address that identifies a client: the relay's word goes before the DUID's, because
/// the relay saw the sending link.
pub open spec fn selected_mac(request: RequestView) -> Option<Seq<u8>> {
    match relayed_mac(request) {
        Some(mac) => Some(mac),
        None => request.duid_mac,
    }
}

/// What the operator is told about the identity of a client.
#[derive(Debug)]
pub enum IdentityWarning {
    /// The relay and the DUID name different hardware addresses.
    Disagreement { client_mac_address: String, duid_mac_address: String },
    /// Neither names one.
    Missing { relay_link_ip_address: Option<Ipv6Addr> },
}

/// What a warning about the identity of a client says.
pub enum IdentityWarningView {
    Disagreement { client_mac_address: Seq<char>, duid_mac_address: Seq<char> },
    Missing { relay_link_ip_address: Option<Seq<u8>> },
}

impl View for IdentityWarning {
    type V = IdentityWarningView;

    open spec fn view(&self) -> IdentityWarningView {
        match self {
            IdentityWarning::Disagreement { client_mac_address, duid_mac_address } => {
                IdentityWarningView::Disagreement {
                    client_mac_address: client_mac_address@,
                    duid_mac_address: duid_mac_address@,
                }
            },
            IdentityWarning::Missing { relay_link_ip_address } => IdentityWarningView::Missing {
                relay_link_ip_address: match relay_link_ip_address {
                    Some(address) => Some(address@),
                    None => None,
                },
            },
        }
    }
}

/// What the operator is told about the identity of a client, if there is anything to tell.
pub open spec fn identity_doubt(request: RequestView) -> Option<IdentityWarningView> {
    match (relayed_mac(request), request.duid_mac) {
        (Some(relayed), Some(named)) => if relayed != named {
            Some(
                IdentityWarningView::Disagreement {
                    client_mac_address: mac_text(relayed),
                    duid_mac_address: mac_text(named),
                },
            )
        } else {
            None
        },
        (None, None) => Some(
            IdentityWarningView::Missing {
                relay_link_ip_address: match request.relay {
                    Some(relay) => Some(relay.link_address),
                    None => None,
                },
            },
        ),
        _ => None,
    }
}

/// The first of some strings that is valid text.
pub open spec fn first_text(values: Seq<Seq<u8>>) -> Option<Seq<char>>
    decreases values.len(),
{
    if values.len() == 0 {
        None
    } else if vstd::utf8::valid_utf8(values[0]) {
        Some(vstd::utf8::decode_utf8(values[0]))
    } else {
        first_text(values.skip(1))
    }
}

/// The text of a client's first vendor class option.
pub open spec fn vendor_text(options: Seq<OptionView>) -> Option<Seq<char>> {
    let found = numbered(options, 16);
    if found.len() > 0 && found[0] is VendorClass {
        first_text(found[0]->values)
    } else {
        None
    }
}

/// Return the first of some strings that is valid text.
fn find_text(values: &Vec<Vec<u8>>) -> (text: Option<String>)
    ensures
        text_of(text) == first_text(strings(values@)),
{
    let ghost all = strings(values@);
    let mut i: usize = 0;
    assert(all.skip(0) == all);
    while i < values.len()
        invariant
            i <= values@.len(),
            all == strings(values@),
            first_text(all) == first_text(all.skip(i as int)),
        decreases values@.len() - i,
    {
        proof {
            assert(all.skip(i as int)[0] == values@[i as int]@);
            assert(all.skip(i as int).skip(1) == all.skip(i + 1));
        }
        match utf8_text(values[i].as_slice()) {
            Ok(text) => {
                return Some(text);
            },
            Err(_) => {},
        }
        i += 1;
    }
    None
}

/// The circuit of a request: the interface that it came in on, where that is what counts, or else
/// what the relay says.
pub open spec fn circuit(request: RequestView, local_interface: Option<Seq<char>>) -> Option<
    Seq<char>,
> {
    match local_interface {
        Some(interface) => Some(interface),
        None => match request.relay {
            Some(relay) => match relay.interface_id {
                Some(interface_id) => Some(hex_text(interface_id)),
                None => None,
            },
            None => None,
        },
    }
}

/// The question to ask about a request.
pub open spec fn discovery(
    request: RequestView,
    source: Seq<u8>,
    interface: Seq<char>,
    kind: MessageKind,
    local: bool,
) -> Result<DiscoveryView, ErrorView> {
    if !local && selected_mac(request) is None {
        Err(ErrorView::NoMacNoOption79)
    } else {
        match named_address(request.message.options) {
            Err(error) => Err(error),
            Ok(named) => Ok(
                DiscoveryView {
                    mac_address: if local {
                        Seq::empty()
                    } else {
                        mac_text(selected_mac(request)->Some_0)
                    },
                    relay_address: ipv6_text(
                        match request.relay {
                            Some(relay) => relay.link_address,
                            None => source,
                        },
                    ),
                    vendor_string: vendor_text(request.message.options),
                    link_address: match request.relay {
                        Some(relay) => Some(ipv6_text(relay.link_address)),
                        None => None,
                    },
                    circuit_id: circuit(
                        request,
                        if local {
                            Some(interface)
                        } else {
                            None
                        },
                    ),
                    remote_id: match request.relay {
                        Some(relay) => match relay.remote_id {
                            Some(remote_id) => Some(hex_text(remote_id)),
                            None => None,
                        },
                        None => None,
                    },
                    desired_address: match named {
                        Some(address) => Some(ipv6_text(address)),
                        None => None,
                    },
                    address_family: Some(AddressFamily::V6),
                    message_kind: Some(RequestedKind::Listed(kind)),
                    duid: Some(request.duid),
                },
            ),
        }
    }
}

impl DecodedPacketV6 {
    /// Decode a direct client message or one supported Relay-Forward envelope.
    pub fn decode(packet: &[u8]) -> (result: Result<Self, DhcpError>)
        ensures
            match packet_fault(packet@) {
                Some(fault) => result is Err && result->Err_0@ == reported(fault),
                None => exists|message: MessageView|
                    {
                        &&& #[trigger] message_of(client_octets(packet@), message)
                        &&& match result {
                            Ok(request) => {
                                &&& request@.message == message
                                &&& request@.relay == envelope_of(packet@)
                                &&& client_identity(message.options) == Ok::<
                                    (Seq<u8>, Option<Seq<u8>>),
                                    ErrorView,
                                >((request@.duid, request@.duid_mac))
                            },
                            Err(error) => client_identity(message.options) == Err::<
                                (Seq<u8>, Option<Seq<u8>>),
                                ErrorView,
                            >(error@),
                        }
                    },
            },
    {
        let decoded = match decode(packet) {
            Ok(decoded) => decoded,
            Err(error) => {
                return Err(map_wire_error(error));
            },
        };
        assert(message_of(client_octets(packet@), decoded.message@));
        match client_identifier(&decoded.message) {
            Ok((duid, duid_mac)) => Ok(
                DecodedPacketV6 { message: decoded.message, relay: decoded.relay, duid, duid_mac },
            ),
            Err(error) => Err(error),
        }
    }

    /// Resolve the authoritative lookup MAC with trusted relay identity taking precedence.
    pub fn selected_mac_address(&self) -> (result: Result<String, DhcpError>)
        ensures
            match result {
                Ok(text) => {
                    &&& selected_mac(self@) is Some
                    &&& text@ == mac_text(selected_mac(self@)->Some_0)
                },
                Err(error) => selected_mac(self@) is None && error@ == ErrorView::NoMacNoOption79,
            },
    {
        if let Some(mac) = self.relayed_mac_address() {
            return Ok(u8_to_mac(mac.octets.as_slice()));
        }
        match &self.duid_mac {
            DuidMac::Mac(mac) => Ok(u8_to_mac(mac.octets.as_slice())),
            DuidMac::NoLinkLayerMac => Err(DhcpError::NoMacNoOption79),
        }
    }

    /// Return the hardware address that the relay saw the client send from.
    fn relayed_mac_address(&self) -> (mac: Option<MacAddress>)
        ensures
            match mac {
                Some(mac) => relayed_mac(self@) == Some(mac@),
                None => relayed_mac(self@) is None,
            },
    {
        if let Some(relay) = &self.relay {
            if let Some(payload) = &relay.client_link_layer {
                return extract_mac_from_option79(payload.as_slice());
            }
        }
        None
    }

    /// Return what the operator is told about the client's identity when it is resolved.
    pub fn identity_warning(&self) -> (warning: Option<IdentityWarning>)
        ensures
            match warning {
                Some(warning) => identity_doubt(self@) == Some(warning@),
                None => identity_doubt(self@) is None,
            },
    {
        match (self.relayed_mac_address(), &self.duid_mac) {
            (Some(relayed), DuidMac::Mac(named)) => {
                if same_bytes(relayed.octets.as_slice(), named.octets.as_slice()) {
                    return None;
                }
                Some(
                    IdentityWarning::Disagreement {
                        client_mac_address: u8_to_mac(relayed.octets.as_slice()),
                        duid_mac_address: u8_to_mac(named.octets.as_slice()),
                    },
                )
            },
            (None, DuidMac::NoLinkLayerMac) => Some(
                IdentityWarning::Missing {
                    relay_link_ip_address: match &self.relay {
                        Some(relay) => Some(relay.link_address),
                        None => None,
                    },
                },
            ),
            _ => None,
        }
    }

    /// Return the optional single IAADDR hint carried inside the client's IA_NA.
    pub fn desired_address(&self) -> (result: Result<Option<Ipv6Addr>, DhcpError>)
        ensures
            match result {
                Ok(Some(address)) => named_address(self@.message.options) == Ok::<
                    Option<Seq<u8>>,
                    ErrorView,
                >(Some(address@)),
                Ok(None) => named_address(self@.message.options) == Ok::<
                    Option<Seq<u8>>,
                    ErrorView,
                >(None),
                Err(error) => named_address(self@.message.options) == Err::<
                    Option<Seq<u8>>,
                    ErrorView,
                >(error@),
            },
    {
        let found = match ia_na(&self.message) {
            Ok(Some(found)) => found,
            Ok(None) => {
                return Ok(None);
            },
            Err(error) => {
                return Err(error);
            },
        };
        let listed = listed_addresses(&found.options);
        assert(address_octets(listed@).len() == listed@.len());
        if listed.len() > 1 {
            return Err(
                DhcpError::InvalidInput(
                    "multiple DHCPv6 IAADDR options are unsupported".to_owned(),
                ),
            );
        }
        if listed.len() == 1 {
            assert(address_octets(listed@)[0] == listed@[0]@);
            Ok(Some(listed[0]))
        } else {
            Ok(None)
        }
    }

    /// Select the circuit identifier used by DPU lookup and API cache routing.
    pub fn circuit_id(&self, local_interface: Option<&str>) -> (circuit_id: Option<String>)
        ensures
            text_of(circuit_id) == circuit(
                self@,
                match local_interface {
                    Some(interface) => Some(interface@),
                    None => None,
                },
            ),
    {
        // A DPU listener is bound to one host interface, so that ingress name is authoritative.
        if let Some(interface) = local_interface {
            return Some(interface.to_owned());
        }
        match &self.relay {
            Some(relay) => match &relay.interface_id {
                Some(interface_id) => Some(bytes_to_hex(interface_id.as_slice())),
                None => None,
            },
            None => None,
        }
    }

    /// Return the text of the client's first vendor class option.
    fn vendor_string(&self) -> (text: Option<String>)
        ensures
            text_of(text) == vendor_text(self@.message.options),
    {
        let found = self.message.options.get_all(16);
        if found.len() == 0 {
            return None;
        }
        assert(found@[0].shows(numbered(self@.message.options, 16)[0]));
        match &found[0] {
            ClientOption::VendorClass(values) => find_text(values),
            _ => None,
        }
    }

    /// Build the family-aware discovery request for this wire message.
    pub fn discovery_request(
        &self,
        source_address: Ipv6Addr,
        local_interface: &str,
        message_kind: MessageKind,
        use_local_circuit_id: bool,
    ) -> (result: Result<DhcpDiscovery, DhcpError>)
        ensures
            answer(result) == discovery(
                self@,
                source_address@,
                local_interface@,
                message_kind,
                use_local_circuit_id,
            ),
    {
        // Local lookup is keyed by ingress interface. Only the controller needs a MAC.
        let mac_address = if use_local_circuit_id {
            String::new()
        } else {
            match self.selected_mac_address() {
                Ok(mac_address) => mac_address,
                Err(error) => {
                    return Err(error);
                },
            }
        };
        let desired_address = match self.desired_address() {
            Ok(Some(address)) => Some(address.text()),
            Ok(None) => None,
            Err(error) => {
                return Err(error);
            },
        };
        let (relay_address, link_address, remote_id) = match &self.relay {
            Some(relay) => {
                let remote_id = match &relay.remote_id {
                    Some(remote_id) => Some(bytes_to_hex(remote_id.as_slice())),
                    None => None,
                };
                (relay.link_address.text(), Some(relay.link_address.text()), remote_id)
            },
            None => (source_address.text(), None, None),
        };
        let circuit_id = if use_local_circuit_id {
            self.circuit_id(Some(local_interface))
        } else {
            self.circuit_id(None)
        };
        let duid = slice_to_vec(self.duid.as_slice());
        Ok(
            DhcpDiscovery {
                mac_address,
                relay_address,
                vendor_string: self.vendor_string(),
                link_address,
                circuit_id,
                remote_id,
                desired_address,
                address_family: Some(AddressFamily::V6),
                message_kind: Some(RequestedKind::Listed(message_kind)),
                duid: Some(duid),
            },
        )
    }
}

} // verus!
