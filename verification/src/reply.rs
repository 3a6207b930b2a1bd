//! What a DHCPv6 client is answered.

use crate::address::{Ipv6Addr, Ipv6Network};
use crate::bytes::push_slice;
use crate::codec::{encode_message, Message, MessageView};
use crate::config::{Config, DhcpConfig};
use crate::decode::{RelayEnvelope, RelayView};
use crate::errors::{DhcpError, ErrorView};
use crate::message::{MessageType, OptionCode, RELAY_REPLY};
use crate::metrics::V6ReplyMessageType;
use crate::modes::{OutcomeView, V6Outcome};
use crate::names::{encode_domain_name, encode_parent};
use crate::options::{ClientOption, OptionList, OptionView, ServerOption, ServersOption};
use crate::raw::{push_raw_option, RawView};
use crate::request::{
    ia_na, listed_addresses, server_identifier, stateful_lifetimes, DecodedPacketV6, RequestView,
};
#[allow(unused_imports)]
use crate::{
    address::{ipv6_parsed, network_parsed, same_network},
    codec::{addresses, message_octets, options_octets, payload_octets, writable},
    decode::relay_of,
    message::{option_name, option_number},
    modes::answer,
    names::{domain_name, name_octets, parent},
    options::{address_octets, ntp_addresses, numbered, position, with_option},
    request::{association, bad_lifetimes, lifetime_error, server_duid},
};
use vstd::prelude::*;
use vstd::slice::slice_to_vec;
use vstd::string::StringExecFns;

verus! {

/// An encoded DHCPv6 response and the bounded response type used for metrics.
#[derive(Debug)]
pub struct PacketV6 {
    encoded_packet: Vec<u8>,
    pub message_type: V6ReplyMessageType,
}

/// What a response is: its octets, and which of the two kinds.
pub struct PacketView {
    pub octets: Seq<u8>,
    pub message_type: V6ReplyMessageType,
}

impl View for PacketV6 {
    type V = PacketView;

    closed spec fn view(&self) -> PacketView {
        PacketView { octets: self.encoded_packet@, message_type: self.message_type }
    }
}

impl PacketV6 {
    /// Return which of the two kinds this response is.
    pub fn message_type(&self) -> (message_type: V6ReplyMessageType)
        ensures
            message_type == self@.message_type,
    {
        self.message_type
    }

    /// Return the wire bytes for the transport responsible for sending this response.
    pub fn encoded_packet(&self) -> (octets: &[u8])
        ensures
            octets@ == self@.octets,
    {
        self.encoded_packet.as_slice()
    }
}

/// The number of the status for success.
pub const STATUS_SUCCESS: u16 = 0;

/// The number of the status for want of an address.
pub const STATUS_NO_ADDRS_AVAIL: u16 = 2;

/// The number of the status for an address that is not bound to the client.
pub const STATUS_NO_BINDING: u16 = 3;

/// The number of the status for an address that is not on the client's link.
pub const STATUS_NOT_ON_LINK: u16 = 4;

/// A status option without a text.
pub open spec fn status_view(status: u16) -> OptionView {
    OptionView::StatusCode { status, text: Seq::empty() }
}

/// Build a Status Code option with no diagnostic text.
fn status_option(status: u16) -> (option: ServerOption)
    ensures
        option@ == status_view(status),
{
    let option = ServerOption::StatusCode { status, text: String::new() };
    assert(vstd::utf8::encode_utf8(Seq::<char>::empty()) == Seq::<u8>::empty());
    option
}

/// The options that every reply starts with: who the client is, and who the server is.
pub open spec fn base_options(request: RequestView, config: DhcpConfig) -> Seq<OptionView> {
    seq![OptionView::ClientId(request.duid), OptionView::ServerId(server_duid(config))]
}

/// The configured name servers, if there are any.
pub open spec fn name_server_options(config: DhcpConfig) -> Seq<OptionView> {
    if config.carbide_nameservers_v6@.len() == 0 {
        Seq::empty()
    } else {
        seq![OptionView::DomainNameServers(address_octets(config.carbide_nameservers_v6@))]
    }
}

/// The configured time servers, if there are any.
pub open spec fn time_server_options(config: DhcpConfig) -> Seq<OptionView> {
    if config.carbide_ntpservers_v6@.len() == 0 {
        Seq::empty()
    } else {
        seq![OptionView::NtpServer(ntp_addresses(config.carbide_ntpservers_v6@))]
    }
}

/// The domain that the client's name is in, if it has a name in a domain.
pub open spec fn search_options(fqdn: Seq<char>) -> Seq<OptionView> {
    match parent(vstd::utf8::encode_utf8(fqdn)) {
        Some(domain) if fqdn.len() > 0 => seq![
            OptionView::Unknown { code: 24, data: name_octets(domain)->Ok_0 },
        ],
        _ => Seq::empty(),
    }
}

/// The client's name behind the flags that it sent, if it sent flags and has a name.
pub open spec fn fqdn_options(fqdn: Seq<char>, flags: Option<u8>) -> Seq<OptionView> {
    match flags {
        Some(flags) if fqdn.len() > 0 => seq![
            OptionView::Unknown {
                code: 39,
                data: seq![flags] + name_octets(vstd::utf8::encode_utf8(fqdn))->Ok_0,
            },
        ],
        _ => Seq::empty(),
    }
}

/// What is wrong with a name, if there is one.
pub open spec fn fqdn_fault(fqdn: Seq<char>) -> Option<ErrorView> {
    if fqdn.len() > 0 && domain_name(fqdn) is Err {
        Some(domain_name(fqdn)->Err_0)
    } else {
        None
    }
}

/// The flags of the client's own name option, which are the client's to choose.
pub open spec fn fqdn_flags(options: Seq<OptionView>) -> Option<u8> {
    let found = numbered(options, 39);
    if found.len() > 0 && found[0] is Unknown && found[0]->Unknown_data.len() > 0 {
        Some(found[0]->Unknown_data[0])
    } else {
        None
    }
}

/// The options of a reply in ascending order: `association` stands for the identity association,
/// where the reply has one.
pub open spec fn reply_options(
    request: RequestView,
    association: Seq<OptionView>,
    fqdn: Seq<char>,
    config: DhcpConfig,
) -> Seq<OptionView> {
    base_options(request, config) + association + name_server_options(config) + search_options(fqdn)
        + fqdn_options(fqdn, fqdn_flags(request.message.options)) + time_server_options(config)
}

/// An option goes between those with smaller numbers and those without.
proof fn lemma_with_option_between(
    front: Seq<OptionView>,
    back: Seq<OptionView>,
    option: OptionView,
)
    requires
        forall|i: int| 0 <= i < front.len() ==> (#[trigger] front[i]).number() < option.number(),
        back.len() > 0 ==> back[0].number() >= option.number(),
    ensures
        with_option(front + back, option) == front + seq![option] + back,
    decreases front.len(),
{
    lemma_position_between(front, back, option.number());
    assert((front + back).insert(front.len() as int, option) == front + seq![option] + back);
}

/// The front that is below a number ends where it ends.
proof fn lemma_position_between(front: Seq<OptionView>, back: Seq<OptionView>, number: u16)
    requires
        forall|i: int| 0 <= i < front.len() ==> (#[trigger] front[i]).number() < number,
        back.len() > 0 ==> back[0].number() >= number,
    ensures
        position(front + back, number) == front.len(),
    decreases front.len(),
{
    if front.len() == 0 {
        assert(front + back == back);
    } else {
        assert((front + back)[0] == front[0]);
        assert((front + back).skip(1) == front.skip(1) + back);
        assert forall|i: int| 0 <= i < front.skip(1).len() implies (
        #[trigger] front.skip(1)[i]).number() < number by {
            assert(front[i + 1].number() < number);
        }
        lemma_position_between(front.skip(1), back, number);
    }
}

/// Create the common identity options of one response.
fn base_reply(request: &DecodedPacketV6, config: &Config) -> (list: OptionList)
    ensures
        list@ == base_options(request@, config.dhcp_config),
{
    let duid = slice_to_vec(request.duid.as_slice());
    let client = ServerOption::ClientId(duid);
    let server = ServerOption::ServerId(server_identifier(config));
    proof {
        lemma_with_option_between(Seq::empty(), Seq::empty(), client@);
        assert(Seq::<OptionView>::empty() + seq![client@] + Seq::empty() == seq![client@]);
        assert(Seq::<OptionView>::empty() + Seq::empty() == Seq::<OptionView>::empty());
        assert(seq![client@] + Seq::empty() == seq![client@]);
        lemma_with_option_between(seq![client@], Seq::empty(), server@);
        assert(seq![client@] + seq![server@] + Seq::empty() == seq![client@, server@]);
    }
    OptionList::new().insert(client).insert(server)
}

/// Return a copy of a list of addresses.
fn copy_addresses(addresses: &Vec<Ipv6Addr>) -> (copy: Vec<Ipv6Addr>)
    ensures
        copy@ == addresses@,
{
    slice_to_vec(addresses.as_slice())
}

/// A list with more options put into it, one after another.
pub open spec fn with_options(list: Seq<OptionView>, more: Seq<OptionView>) -> Seq<OptionView>
    decreases more.len(),
{
    if more.len() == 0 {
        list
    } else {
        with_option(with_options(list, more.drop_last()), more.last())
    }
}

/// The configured service options and the naming options, in the order in which they are added.
pub open spec fn service_options(fqdn: Seq<char>, flags: Option<u8>, config: DhcpConfig) -> Seq<
    OptionView,
> {
    name_server_options(config) + time_server_options(config) + search_options(fqdn)
        + fqdn_options(fqdn, flags)
}

/// Putting in one option more.
proof fn lemma_with_options_push(list: Seq<OptionView>, more: Seq<OptionView>, option: OptionView)
    ensures
        with_options(list, more + seq![option]) == with_option(with_options(list, more), option),
{
    assert((more + seq![option]).drop_last() == more);
}

/// Behind options with smaller numbers, the service options stand in ascending order.
proof fn lemma_service_options_in_order(
    list: Seq<OptionView>,
    fqdn: Seq<char>,
    flags: Option<u8>,
    config: DhcpConfig,
)
    requires
        forall|i: int| 0 <= i < list.len() ==> (#[trigger] list[i]).number() < 23,
    ensures
        with_options(list, service_options(fqdn, flags, config)) == list + name_server_options(
            config,
        ) + search_options(fqdn) + fqdn_options(fqdn, flags) + time_server_options(config),
{
    let dns = name_server_options(config);
    let ntp = time_server_options(config);
    let search = search_options(fqdn);
    let name = fqdn_options(fqdn, flags);
    let none = Seq::<OptionView>::empty();
    assert(list + none == list);
    if dns.len() > 0 {
        lemma_with_options_push(list, none, dns[0]);
        assert(none + seq![dns[0]] == dns);
        lemma_with_option_between(list, none, dns[0]);
    }
    assert(with_options(list, dns) == list + dns);
    assert(list + dns + none == list + dns);
    assert(dns + ntp == if ntp.len() > 0 {
        dns + seq![ntp[0]]
    } else {
        dns
    });
    if ntp.len() > 0 {
        lemma_with_options_push(list, dns, ntp[0]);
        lemma_with_option_between(list + dns, none, ntp[0]);
        assert(list + dns + seq![ntp[0]] + none == list + dns + ntp);
    }
    assert(with_options(list, dns + ntp) == list + dns + ntp);
    assert(dns + ntp + search == if search.len() > 0 {
        dns + ntp + seq![search[0]]
    } else {
        dns + ntp
    });
    if search.len() > 0 {
        lemma_with_options_push(list, dns + ntp, search[0]);
        lemma_with_option_between(list + dns, ntp, search[0]);
        assert(list + dns + seq![search[0]] + ntp == list + dns + search + ntp);
    } else {
        assert(list + dns + search + ntp == list + dns + ntp);
    }
    assert(with_options(list, dns + ntp + search) == list + dns + search + ntp);
    assert(dns + ntp + search + name == if name.len() > 0 {
        dns + ntp + search + seq![name[0]]
    } else {
        dns + ntp + search
    });
    if name.len() > 0 {
        lemma_with_options_push(list, dns + ntp + search, name[0]);
        lemma_with_option_between(list + dns + search, ntp, name[0]);
        assert(list + dns + search + seq![name[0]] + ntp == list + dns + search + name + ntp);
    } else {
        assert(list + dns + search + name + ntp == list + dns + search + ntp);
    }
}

/// What an optional name says; without one there is no name to speak of.
pub open spec fn name_of(fqdn: Option<&str>) -> Seq<char> {
    match fqdn {
        Some(fqdn) => fqdn@,
        None => Seq::empty(),
    }
}

/// Append configured service options and request-negotiated naming options.
pub fn add_config_options(
    list: OptionList,
    fqdn: Option<&str>,
    requested_fqdn_flags: Option<u8>,
    config: &Config,
) -> (result: Result<OptionList, DhcpError>)
    ensures
        match result {
            Ok(more) => {
                &&& fqdn_fault(name_of(fqdn)) is None
                &&& more@ == with_options(
                    list@,
                    service_options(name_of(fqdn), requested_fqdn_flags, config.dhcp_config),
                )
            },
            Err(error) => fqdn_fault(name_of(fqdn)) == Some(error@),
        },
{
    let ghost first = list@;
    let ghost dns = name_server_options(config.dhcp_config);
    let ghost ntp = time_server_options(config.dhcp_config);
    let ghost none = Seq::<OptionView>::empty();
    let mut more = list;
    if config.dhcp_config.carbide_nameservers_v6.len() > 0 {
        let servers = copy_addresses(&config.dhcp_config.carbide_nameservers_v6);
        let option = ServersOption::DomainNameServers(servers);
        proof {
            lemma_with_options_push(first, none, option@);
            assert(none + seq![option@] == dns);
        }
        more = more.insert_servers(option);
    }
    assert(more@ == with_options(first, dns));
    if config.dhcp_config.carbide_ntpservers_v6.len() > 0 {
        let servers = copy_addresses(&config.dhcp_config.carbide_ntpservers_v6);
        let option = ServersOption::NtpServer(servers);
        proof {
            lemma_with_options_push(first, dns, option@);
            assert(dns + seq![option@] == dns + ntp);
        }
        more = more.insert_servers(option);
    } else {
        assert(dns + ntp == dns);
    }
    assert(more@ == with_options(first, dns + ntp));
    let ghost name = name_of(fqdn);
    let fqdn = match fqdn {
        Some(fqdn) => fqdn,
        None => "",
    };
    proof {
        reveal_strlit("");
        assert(""@ == Seq::<char>::empty());
    }
    if fqdn.is_empty() {
        assert(service_options(name, requested_fqdn_flags, config.dhcp_config) == dns + ntp);
        return Ok(more);
    }
    let encoded_fqdn = match encode_domain_name(fqdn) {
        Ok(encoded_fqdn) => encoded_fqdn,
        Err(error) => {
            return Err(error);
        },
    };
    let ghost search = search_options(name);

    // The domain is searched whether or not the client negotiates its name.
    match encode_parent(fqdn) {
        Some(domain) => {
            let option = ServerOption::Unknown { code: 24, data: domain };
            proof {
                lemma_with_options_push(first, dns + ntp, option@);
                assert(dns + ntp + seq![option@] == dns + ntp + search);
            }
            more = more.insert(option);
        },
        None => {
            assert(dns + ntp + search == dns + ntp);
        },
    }
    assert(more@ == with_options(first, dns + ntp + search));

    // The client's flags stay, and the name behind them is the one that the client really has.
    match requested_fqdn_flags {
        Some(flags) => {
            let mut client_fqdn: Vec<u8> = Vec::new();
            client_fqdn.push(flags);
            push_slice(&mut client_fqdn, encoded_fqdn.as_slice());
            let option = ServerOption::Unknown { code: 39, data: client_fqdn };
            proof {
                assert(client_fqdn@ == seq![flags] + encoded_fqdn@);
                lemma_with_options_push(first, dns + ntp + search, option@);
                assert(dns + ntp + search + seq![option@] == service_options(
                    name,
                    requested_fqdn_flags,
                    config.dhcp_config,
                ));
            }
            more = more.insert(option);
        },
        None => {
            assert(service_options(name, requested_fqdn_flags, config.dhcp_config) == dns + ntp
                + search);
        },
    }
    Ok(more)
}

/// Return the flags of the client's own name option, if it has one that is not empty.
fn requested_fqdn_flags(message: &Message) -> (flags: Option<u8>)
    ensures
        flags == fqdn_flags(message@.options),
{
    let found = message.options.get_all(39);
    if found.len() == 0 {
        return None;
    }
    assert(found@[0].shows(numbered(message@.options, 39)[0]));
    match &found[0] {
        ClientOption::Unknown(data) => {
            if data.len() > 0 {
                Some(data[0])
            } else {
                None
            }
        },
        _ => None,
    }
}

/// Where an identity association goes into a reply.
proof fn lemma_association_in_order(
    request: RequestView,
    association: OptionView,
    fqdn: Seq<char>,
    config: DhcpConfig,
)
    requires
        association.number() == 3,
    ensures
        ({
            let flags = fqdn_flags(request.message.options);
            let list = with_options(
                base_options(request, config),
                service_options(fqdn, flags, config),
            );
            &&& list == reply_options(request, Seq::empty(), fqdn, config)
            &&& with_option(list, association) == reply_options(
                request,
                seq![association],
                fqdn,
                config,
            )
        }),
{
    let flags = fqdn_flags(request.message.options);
    let base = base_options(request, config);
    lemma_service_options_in_order(base, fqdn, flags, config);
    let back = name_server_options(config) + search_options(fqdn) + fqdn_options(fqdn, flags)
        + time_server_options(config);
    let list = with_options(base, service_options(fqdn, flags, config));
    assert(list == base + back);
    assert(list == reply_options(request, Seq::empty(), fqdn, config));
    assert forall|i: int| 0 <= i < back.len() implies (#[trigger] back[i]).number() >= 3 by {}
    lemma_with_option_between(base, back, association);
    assert(base + seq![association] + back == reply_options(
        request,
        seq![association],
        fqdn,
        config,
    ));
}

/// The error for an option whose payload is too long for its length field.
pub open spec fn oversized(option: OptionCode) -> ErrorView {
    ErrorView::InvalidInput("DHCPv6 option "@ + option_name(option) + " exceeds 65535 bytes"@)
}

/// Append one raw DHCPv6 triple after checking its 16-bit wire length.
fn encode_raw_option(packet: &mut Vec<u8>, option_code: OptionCode, payload: &[u8]) -> (result:
    Result<(), DhcpError>)
    ensures
        match result {
            Ok(_) => {
                &&& payload@.len() <= 0xffff
                &&& final(packet)@ == old(packet)@ + (RawView {
                    code: option_number(option_code),
                    data: payload@,
                }).encoded()
            },
            Err(error) => payload@.len() > 0xffff && error@ == oversized(option_code),
        },
{
    if push_raw_option(packet, option_code.number(), payload) {
        Ok(())
    } else {
        let mut text = "DHCPv6 option ".to_owned();
        text.append(option_code.name().as_str());
        text.append(" exceeds 65535 bytes");
        Err(DhcpError::InvalidInput(text))
    }
}

/// The octets of an option that is there or not.
pub open spec fn optional_triple(code: u16, data: Option<Seq<u8>>) -> Seq<u8> {
    match data {
        Some(data) => (RawView { code, data }).encoded(),
        None => Seq::empty(),
    }
}

/// Whether an option is there and too long for its length field.
pub open spec fn too_long(data: Option<Seq<u8>>) -> bool {
    data is Some && data->Some_0.len() > 0xffff
}

/// A response in the Relay-Reply envelope that answers a Relay-Forward envelope.
pub open spec fn wrapped(inner: Seq<u8>, relay: RelayView) -> Result<Seq<u8>, ErrorView> {
    if too_long(relay.interface_id) {
        Err(oversized(OptionCode::InterfaceId))
    } else if too_long(relay.remote_id) {
        Err(oversized(OptionCode::RemoteId))
    } else if inner.len() > 0xffff {
        Err(oversized(OptionCode::RelayMsg))
    } else {
        Ok(
            seq![RELAY_REPLY, relay.hop_count] + relay.link_address + relay.peer_address
                + optional_triple(18, relay.interface_id) + optional_triple(37, relay.remote_id) + (
            RawView { code: 9, data: inner }).encoded(),
        )
    }
}

/// Wrap an encoded client response in the matching one-hop Relay-Reply envelope.
pub fn wrap_relay_reply(inner_response: &[u8], relay: &RelayEnvelope) -> (result: Result<
    Vec<u8>,
    DhcpError,
>)
    ensures
        answer(result) == wrapped(inner_response@, relay@),
{
    let mut response: Vec<u8> = Vec::new();
    response.push(RELAY_REPLY);
    response.push(relay.hop_count);
    push_slice(&mut response, relay.link_address.octets.as_slice());
    push_slice(&mut response, relay.peer_address.octets.as_slice());
    let ghost header = seq![RELAY_REPLY, relay.hop_count] + relay.link_address@
        + relay.peer_address@;
    assert(response@ == header);
    if let Some(interface_id) = &relay.interface_id {
        match encode_raw_option(&mut response, OptionCode::InterfaceId, interface_id.as_slice()) {
            Ok(_) => {},
            Err(error) => {
                return Err(error);
            },
        }
    } else {
        assert(header + Seq::empty() == header);
    }
    let ghost first = header + optional_triple(18, relay@.interface_id);
    assert(response@ == first);
    if let Some(remote_id) = &relay.remote_id {
        match encode_raw_option(&mut response, OptionCode::RemoteId, remote_id.as_slice()) {
            Ok(_) => {},
            Err(error) => {
                return Err(error);
            },
        }
    } else {
        assert(first + Seq::empty() == first);
    }
    match encode_raw_option(&mut response, OptionCode::RelayMsg, inner_response) {
        Ok(_) => Ok(response),
        Err(error) => Err(error),
    }
}

/// A response as a packet: in an envelope where the request came in one.
pub open spec fn response_packet(message: MessageView, relay: Option<RelayView>) -> Result<
    PacketView,
    ErrorView,
> {
    let octets = match relay {
        Some(relay) => wrapped(message_octets(message), relay),
        None => Ok(message_octets(message)),
    };
    match octets {
        Ok(octets) => Ok(
            PacketView {
                octets,
                message_type: if message.msg_type is Advertise {
                    V6ReplyMessageType::Advertise
                } else {
                    V6ReplyMessageType::Reply
                },
            },
        ),
        Err(error) => Err(error),
    }
}

/// Encode the inner response and optionally restore its Relay-Reply envelope.
fn encode_packet(response: Message, relay: &Option<RelayEnvelope>) -> (result: Result<
    PacketV6,
    DhcpError,
>)
    requires
        writable(response@.options),
    ensures
        answer(result) == response_packet(response@, relay_of(*relay)),
{
    let message_type = if response.msg_type == MessageType::Advertise {
        V6ReplyMessageType::Advertise
    } else {
        V6ReplyMessageType::Reply
    };
    let encoded = match encode_message(&response) {
        Ok(encoded) => encoded,
        Err(reason) => {
            return Err(DhcpError::PacketEncodeFailure(reason));
        },
    };
    let encoded_packet = match relay {
        Some(relay) => match wrap_relay_reply(encoded.as_slice(), relay) {
            Ok(wrapped) => wrapped,
            Err(error) => {
                return Err(error);
            },
        },
        None => encoded,
    };
    Ok(PacketV6 { encoded_packet, message_type })
}

/// The type of the reply to a message: ADVERTISE for SOLICIT, and REPLY for every other one.
pub open spec fn reply_type(request_type: MessageType) -> MessageType {
    if request_type is Solicit {
        MessageType::Advertise
    } else {
        MessageType::Reply
    }
}

/// Select ADVERTISE for SOLICIT and REPLY for every subsequent exchange.
pub fn reply_type_for(request_type: MessageType) -> (message_type: MessageType)
    ensures
        message_type == reply_type(request_type),
{
    if request_type == MessageType::Solicit {
        MessageType::Advertise
    } else {
        MessageType::Reply
    }
}

/// The identity association of a reply that assigns an address.
pub open spec fn assigned(id: u32, address: Seq<u8>, config: DhcpConfig) -> OptionView {
    OptionView::IaNa {
        id,
        t1: 0,
        t2: 0,
        options: seq![
            OptionView::IaAddr {
                address,
                preferred_life: config.dhcpv6_preferred_lifetime_secs,
                valid_life: config.dhcpv6_valid_lifetime_secs,
                options: Seq::empty(),
            },
        ],
    }
}

/// The identity association of a reply that assigns none.
pub open spec fn unassigned(id: u32, status: u16) -> OptionView {
    OptionView::IaNa { id, t1: 0, t2: 0, options: seq![status_view(status)] }
}

/// The error for a text that is no IPv6 address.
pub open spec fn address_error() -> ErrorView {
    ErrorView::AddressParseError("invalid IPv6 address syntax"@)
}

/// The reply to a request, given what the serving mode knows of the client.
pub open spec fn mode_reply(
    request: RequestView,
    outcome: OutcomeView,
    config: DhcpConfig,
) -> Result<MessageView, ErrorView> {
    let message = request.message;
    let ia = association(message.options);
    let missing = ErrorView::MissingOptionV6(OptionCode::IANA);
    let reply = |options: Seq<OptionView>|
        MessageView { msg_type: reply_type(message.msg_type), xid: message.xid, options };
    match outcome {
        OutcomeView::Stateful(record) => if fqdn_fault(record.fqdn) is Some {
            Err(fqdn_fault(record.fqdn)->Some_0)
        } else if ia is Err {
            Err(ia->Err_0)
        } else if ia->Ok_0 is None {
            Err(missing)
        } else if bad_lifetimes(config) {
            Err(lifetime_error())
        } else if ipv6_parsed(record.address) is None {
            Err(address_error())
        } else {
            let association = assigned(
                ia->Ok_0->Some_0.id,
                ipv6_parsed(record.address)->Some_0,
                config,
            );
            Ok(reply(reply_options(request, seq![association], record.fqdn, config)))
        },
        OutcomeView::OptionsOnly(record) => if fqdn_fault(record.fqdn) is Some {
            Err(fqdn_fault(record.fqdn)->Some_0)
        } else {
            Ok(reply(reply_options(request, Seq::empty(), record.fqdn, config)))
        },
        OutcomeView::NoAddress => if ia is Err {
            Err(ia->Err_0)
        } else if ia->Ok_0 is None {
            Err(missing)
        } else if message.msg_type is Solicit || message.msg_type is Request {
            let association = unassigned(ia->Ok_0->Some_0.id, STATUS_NO_ADDRS_AVAIL);
            Ok(reply(reply_options(request, seq![association], Seq::empty(), config)))
        } else if message.msg_type is Renew || message.msg_type is Rebind {
            let association = unassigned(ia->Ok_0->Some_0.id, STATUS_NO_BINDING);
            Ok(reply(reply_options(request, seq![association], Seq::empty(), config)))
        } else {
            Err(ErrorView::UnhandledMessageTypeV6(message.msg_type))
        },
    }
}

/// Whether the codec computes the length of the configured name servers without an overflow.
pub open spec fn encodable(config: DhcpConfig) -> bool {
    (config.carbide_nameservers_v6@.len() % 0x1_0000) * 16 < 0x1_0000
}

/// Every list of less than 4096 name servers can be written, and so can one whose length, in the
/// sixteen bits that the codec takes of it, is less than that.
pub proof fn law_short_server_lists_are_encodable(config: DhcpConfig)
    ensures
        config.carbide_nameservers_v6@.len() < 4096 ==> encodable(config),
        encodable(config) <==> config.carbide_nameservers_v6@.len() % 65536 < 4096,
{
}

/// Whether the configured name servers can be written into an answer.
pub fn can_encode(config: &DhcpConfig) -> (can: bool)
    ensures
        can == encodable(*config),
{
    config.carbide_nameservers_v6.len() % 0x1_0000 < 0x1000
}

/// A list is writable when its parts are.
proof fn lemma_writable_add(left: Seq<OptionView>, right: Seq<OptionView>)
    requires
        writable(left),
        writable(right),
    ensures
        writable(left + right),
    decreases left.len(),
{
    if left.len() == 0 {
        assert(left + right == right);
    } else {
        assert((left + right).skip(1) == left.skip(1) + right);
        lemma_writable_add(left.skip(1), right);
    }
}

/// An identity association of a reply is writable.
proof fn lemma_association_writable(option: OptionView)
    requires
        option is IaNa,
        option->IaNa_options.len() == 1,
        match option->IaNa_options[0] {
            OptionView::IaAddr { address, options, .. } => address.len() == 16 && options.len()
                == 0,
            OptionView::StatusCode { text, .. } => text.len() == 0,
            _ => false,
        },
    ensures
        writable(seq![option]),
{
    let nested = option->IaNa_options;
    assert(nested.skip(1).len() == 0);
    assert(seq![option].skip(1).len() == 0);
    reveal_with_fuel(options_octets, 3);
    reveal_with_fuel(payload_octets, 3);
    reveal_with_fuel(writable, 3);
    assert(options_octets(nested).len() <= 28);
}

/// The options of a reply are writable.
proof fn lemma_reply_writable(
    request: RequestView,
    association: Seq<OptionView>,
    fqdn: Seq<char>,
    config: DhcpConfig,
)
    requires
        encodable(config),
        writable(association),
    ensures
        writable(reply_options(request, association, fqdn, config)),
        writable(base_options(request, config)),
{
    let flags = fqdn_flags(request.message.options);
    let base = base_options(request, config);
    let dns = name_server_options(config);
    let search = search_options(fqdn);
    let name = fqdn_options(fqdn, flags);
    let ntp = time_server_options(config);
    reveal_with_fuel(writable, 3);
    assert(base.skip(1).skip(1).len() == 0);
    assert(dns.len() > 0 ==> dns.skip(1).len() == 0);
    assert(search.len() > 0 ==> search.skip(1).len() == 0);
    assert(name.len() > 0 ==> name.skip(1).len() == 0);
    assert(ntp.len() > 0 ==> ntp.skip(1).len() == 0);
    lemma_writable_add(base, association);
    lemma_writable_add(base + association, dns);
    lemma_writable_add(base + association + dns, search);
    lemma_writable_add(base + association + dns + search, name);
    lemma_writable_add(base + association + dns + search + name, ntp);
}

/// Build the reply to a request, given what the serving mode knows of the client.
fn reply_message(request: &DecodedPacketV6, outcome: &V6Outcome, config: &Config) -> (result:
    Result<Message, DhcpError>)
    requires
        encodable(config.dhcp_config),
    ensures
        answer(result) == mode_reply(request@, outcome@, config.dhcp_config),
        result is Ok ==> writable(result->Ok_0@.options),
{
    let msg_type = reply_type_for(request.message.msg_type);
    let xid = request.message.xid;
    let flags = requested_fqdn_flags(&request.message);
    let base = base_reply(request, config);
    let fqdn = match outcome {
        V6Outcome::Stateful(record) => Some(record.fqdn.as_str()),
        V6Outcome::OptionsOnly(record) => Some(record.fqdn.as_str()),
        V6Outcome::NoAddress => None,
    };
    let ghost name = name_of(fqdn);
    let list = match add_config_options(base, fqdn, flags, config) {
        Ok(list) => list,
        Err(error) => {
            return Err(error);
        },
    };
    let association = match outcome {
        V6Outcome::OptionsOnly(_) => {
            proof {
                lemma_association_in_order(
                    request@,
                    unassigned(0, 0),
                    name,
                    config.dhcp_config,
                );
                lemma_reply_writable(request@, Seq::empty(), name, config.dhcp_config);
            }
            return Ok(Message { msg_type, xid, options: list });
        },
        _ => match ia_na(&request.message) {
            Ok(Some(association)) => association,
            Ok(None) => {
                return Err(DhcpError::MissingOptionV6(OptionCode::IANA));
            },
            Err(error) => {
                return Err(error);
            },
        },
    };
    let nested = match outcome {
        V6Outcome::Stateful(record) => {
            let (preferred_life, valid_life) = match stateful_lifetimes(config) {
                Ok(lifetimes) => lifetimes,
                Err(error) => {
                    return Err(error);
                },
            };
            let address = match Ipv6Addr::parse(record.address.as_str()) {
                Some(address) => address,
                None => {
                    return Err(
                        DhcpError::AddressParseError("invalid IPv6 address syntax".to_owned()),
                    );
                },
            };
            ServerOption::IaAddr { address, preferred_life, valid_life, options: OptionList::new() }
        },
        _ => match request.message.msg_type {
            MessageType::Solicit | MessageType::Request => status_option(STATUS_NO_ADDRS_AVAIL),
            MessageType::Renew | MessageType::Rebind => status_option(STATUS_NO_BINDING),
            other => {
                return Err(DhcpError::UnhandledMessageTypeV6(other));
            },
        },
    };
    proof {
        let none = Seq::<OptionView>::empty();
        lemma_with_option_between(none, none, nested@);
        assert(none + none == none);
        assert(none + seq![nested@] + none == seq![nested@]);
    }
    let options = OptionList::new().insert(nested);
    let option = ServerOption::IaNa { id: association.id, t1: 0, t2: 0, options };
    proof {
        lemma_association_in_order(request@, option@, name, config.dhcp_config);
        lemma_association_writable(option@);
        lemma_reply_writable(request@, seq![option@], name, config.dhcp_config);
    }
    Ok(Message { msg_type, xid, options: list.insert(option) })
}

/// What a request is answered, given what the serving mode knows of the client.
pub open spec fn mode_packet(
    request: RequestView,
    outcome: OutcomeView,
    config: DhcpConfig,
) -> Result<PacketView, ErrorView> {
    match mode_reply(request, outcome, config) {
        Ok(reply) => response_packet(reply, request.relay),
        Err(error) => Err(error),
    }
}

/// Encode a mode-backed address or options response.
pub fn encode_mode_reply(request: &DecodedPacketV6, outcome: &V6Outcome, config: &Config) -> (result:
    Result<PacketV6, DhcpError>)
    requires
        encodable(config.dhcp_config),
    ensures
        answer(result) == mode_packet(request@, outcome@, config.dhcp_config),
{
    match reply_message(request, outcome, config) {
        Ok(reply) => encode_packet(reply, &request.relay),
        Err(error) => Err(error),
    }
}

/// The network that the addresses of an interface are in, if it is known.
pub open spec fn link_of(config: Config, interface: Seq<char>) -> Option<(Seq<u8>, u8)> {
    match config.host_config {
        None => None,
        Some(host) => match host.host_ip_addresses.lookup(interface) {
            None => None,
            Some(info) => match info.ipv6 {
                None => None,
                Some(ipv6) => network_parsed(ipv6.prefix@),
            },
        },
    }
}

/// The status that confirms or refuses the addresses of a client, if the server can tell.
pub open spec fn confirmation(
    options: Seq<OptionView>,
    config: Config,
    interface: Seq<char>,
) -> Result<Option<u16>, ErrorView> {
    match association(options) {
        Err(error) => Err(error),
        Ok(None) => Ok(None),
        Ok(Some(ia)) => {
            let found = addresses(ia.options);
            match link_of(config, interface) {
                Some((network, prefix)) if found.len() > 0 => Ok(
                    Some(
                        if forall|i: int|
                            0 <= i < found.len() ==> same_network(
                                network,
                                #[trigger] found[i],
                                prefix,
                            ) {
                            STATUS_SUCCESS
                        } else {
                            STATUS_NOT_ON_LINK
                        },
                    ),
                ),
                _ => Ok(None),
            }
        },
    }
}

/// Return the network that the addresses of an interface are in, if it is known.
fn link_network(config: &Config, interface: &str) -> (network: Option<Ipv6Network>)
    ensures
        match network {
            Some(network) => {
                &&& link_of(*config, interface@) == Some((network.address@, network.prefix))
                &&& network.prefix <= 128
            },
            None => link_of(*config, interface@) is None,
        },
{
    // A controller has no host configuration and knows no link.
    let host_config = match config.host_config() {
        Some(host_config) => host_config,
        None => {
            return None;
        },
    };
    match host_config.host_ip_addresses.get(interface) {
        Some(info) => match &info.ipv6 {
            Some(ipv6) => Ipv6Network::parse(ipv6.prefix.as_str()),
            None => None,
        },
        None => None,
    }
}

/// Determine CONFIRM status when this server has authoritative link knowledge.
fn confirm_status(request: &DecodedPacketV6, config: &Config, local_interface: &str) -> (result:
    Result<Option<u16>, DhcpError>)
    ensures
        match result {
            Ok(status) => confirmation(request@.message.options, *config, local_interface@) == Ok::<
                Option<u16>,
                ErrorView,
            >(status),
            Err(error) => confirmation(request@.message.options, *config, local_interface@)
                == Err::<Option<u16>, ErrorView>(error@),
        },
{
    let association = match ia_na(&request.message) {
        Ok(Some(association)) => association,
        Ok(None) => {
            return Ok(None);
        },
        Err(error) => {
            return Err(error);
        },
    };
    let listed = listed_addresses(&association.options);
    let ghost found = addresses(association@.options);
    assert(found.len() == listed@.len());
    if listed.len() == 0 {
        return Ok(None);
    }
    // A server that cannot tell whether the addresses are on the link stays silent.
    let network = match link_network(config, local_interface) {
        Some(network) => network,
        None => {
            return Ok(None);
        },
    };
    let mut i: usize = 0;
    while i < listed.len()
        invariant
            i <= listed@.len(),
            network.prefix <= 128,
            found == address_octets(listed@),
            forall|k: int|
                0 <= k < i ==> same_network(
                    network.address@,
                    #[trigger] found[k],
                    network.prefix,
                ),
        ensures
            i < listed@.len() ==> !same_network(
                network.address@,
                found[i as int],
                network.prefix,
            ),
        decreases listed@.len() - i,
    {
        assert(found[i as int] == listed@[i as int]@);
        if !network.contains(&listed[i]) {
            break ;
        }
        i += 1;
    }
    if i == listed.len() {
        Ok(Some(STATUS_SUCCESS))
    } else {
        assert(!same_network(network.address@, found[i as int], network.prefix));
        Ok(Some(STATUS_NOT_ON_LINK))
    }
}

/// A reply that says no more than a status.
pub open spec fn status_reply(request: RequestView, status: u16, config: DhcpConfig) -> MessageView {
    MessageView {
        msg_type: MessageType::Reply,
        xid: request.message.xid,
        options: base_options(request, config).push(status_view(status)),
    }
}

/// What a CONFIRM, a RELEASE or a DECLINE is answered without asking anybody, if anything.
pub open spec fn local_reply(request: RequestView, config: Config, interface: Seq<char>) -> Result<
    Option<MessageView>,
    ErrorView,
> {
    let message_type = request.message.msg_type;
    if message_type is Confirm {
        match confirmation(request.message.options, config, interface) {
            Err(error) => Err(error),
            Ok(None) => Ok(None),
            Ok(Some(status)) => Ok(Some(status_reply(request, status, config.dhcp_config))),
        }
    } else if message_type is Release || message_type is Decline {
        Ok(Some(status_reply(request, STATUS_SUCCESS, config.dhcp_config)))
    } else {
        Err(ErrorView::UnhandledMessageTypeV6(message_type))
    }
}

/// The packet that a CONFIRM, a RELEASE or a DECLINE is answered with, if any.
pub open spec fn local_packet(request: RequestView, config: Config, interface: Seq<char>) -> Result<
    Option<PacketView>,
    ErrorView,
> {
    match local_reply(request, config, interface) {
        Err(error) => Err(error),
        Ok(None) => Ok(None),
        Ok(Some(reply)) => match response_packet(reply, request.relay) {
            Ok(packet) => Ok(Some(packet)),
            Err(error) => Err(error),
        },
    }
}

/// What an optional packet is.
pub open spec fn packet_of(packet: Option<PacketV6>) -> Option<PacketView> {
    match packet {
        Some(packet) => Some(packet@),
        None => None,
    }
}

/// Encode protocol-local CONFIRM, RELEASE, and DECLINE responses.
pub fn encode_local_reply(request: &DecodedPacketV6, config: &Config, local_interface: &str) -> (
result: Result<Option<PacketV6>, DhcpError>)
    ensures
        match result {
            Ok(packet) => local_packet(request@, *config, local_interface@) == Ok::<
                Option<PacketView>,
                ErrorView,
            >(packet_of(packet)),
            Err(error) => local_packet(request@, *config, local_interface@) == Err::<
                Option<PacketView>,
                ErrorView,
            >(error@),
        },
{
    let status: u16 = match request.message.msg_type {
        MessageType::Confirm => match confirm_status(request, config, local_interface) {
            Ok(Some(status)) => status,
            Ok(None) => {
                return Ok(None);
            },
            Err(error) => {
                return Err(error);
            },
        },
        MessageType::Release | MessageType::Decline => STATUS_SUCCESS,
        other => {
            return Err(DhcpError::UnhandledMessageTypeV6(other));
        },
    };
    let base = base_reply(request, config);
    let option = status_option(status);
    proof {
        let none = Seq::<OptionView>::empty();
        assert(base@ + none == base@);
        lemma_with_option_between(base@, none, option@);
        assert(base@ + seq![option@] + none == base@.push(option@));
        reveal_with_fuel(writable, 4);
        assert(base@.push(option@).skip(1).skip(1).skip(1).len() == 0);
    }
    let reply = Message {
        msg_type: MessageType::Reply,
        xid: request.message.xid,
        options: base.insert(option),
    };
    match encode_packet(reply, &request.relay) {
        Ok(packet) => Ok(Some(packet)),
        Err(error) => Err(error),
    }
}

} // verus!
