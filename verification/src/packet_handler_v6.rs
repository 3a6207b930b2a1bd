//! Serving one DHCPv6 packet.
//!
//! What a packet asks for is decided in two steps, because the answer may have to be fetched: the
//! first step replies, stays silent or asks a question, and the second one turns the answer into a
//! reply.

use crate::address::Ipv6Addr;
use crate::codec::MessageView;
use crate::config::{Config, DhcpConfig};
use crate::decode::RelayView;
use crate::errors::{DhcpError, ErrorView};
use crate::message::{MessageType, OptionCode};
use crate::modes::{DhcpDiscovery, DhcpMode, DiscoveryView, MessageKind, OutcomeView, V6Outcome};
use crate::reply::{encode_local_reply, encode_mode_reply, PacketV6, PacketView};
use crate::request::{
    ensure_server_identifier, ia_na, stateful_lifetimes, DecodedPacketV6, IdentityWarning,
    IdentityWarningView, RequestView,
};
#[allow(unused_imports)]
use crate::{
    address::{ipv6_parsed, ipv6_text},
    decode::{client_octets, envelope_of, message_of, packet_fault},
    duid::option79_identity,
    modes::{answer, AddressFamily, RecordView, RequestedKind},
    options::numbered,
    reply::{address_error, confirmation, encodable, local_packet, mode_packet, packet_of},
    request::{
        association, bad_lifetimes, circuit, client_identity, discovery, identity_doubt,
        lifetime_error, named_address, reported, selected_mac, selected_server, server_duid, server_fault,
    },
    text::mac_text,
};
use vstd::prelude::*;

verus! {

/// What follows from a request before anybody is asked.
pub enum StepView {
    /// The protocol requires silence.
    Silent,
    Reply(PacketView),
    /// The answer to this question decides.
    Ask(DiscoveryView),
}

/// What follows from a request before anybody is asked.
#[derive(Debug)]
pub enum Step {
    Silent,
    Reply(PacketV6),
    Ask(DhcpDiscovery),
}

impl View for Step {
    type V = StepView;

    open spec fn view(&self) -> StepView {
        match self {
            Step::Silent => StepView::Silent,
            Step::Reply(packet) => StepView::Reply(packet@),
            Step::Ask(question) => StepView::Ask(question@),
        }
    }
}

/// The exchange that a message starts or continues, if somebody has to be asked about it.
pub open spec fn exchange(message_type: MessageType, has_association: bool) -> Option<MessageKind> {
    match message_type {
        MessageType::Solicit | MessageType::InformationRequest => if !has_association {
            Some(MessageKind::V6InfoRequest)
        } else if message_type is Solicit {
            Some(MessageKind::V6Solicit)
        } else {
            None
        },
        MessageType::Request | MessageType::Renew | MessageType::Rebind => if has_association {
            Some(MessageKind::V6Request)
        } else {
            None
        },
        _ => None,
    }
}

/// How a request is dealt with, once it is found to be one that is served.
#[derive(Debug, Clone, Copy, PartialEq, Eq, Structural)]
pub enum Course {
    /// Somebody is asked about it, as this kind of exchange.
    Ask(MessageKind),
    /// It is answered from what is known here, or not at all.
    Local,
}

/// How a request is dealt with, or why it is refused, given whether the serving mode takes relayed
/// packets only or direct ones only.
pub open spec fn course_of(request: RequestView, config: DhcpConfig, requires_relay: bool) -> Result<
    Course,
    ErrorView,
> {
    let message = request.message;
    let message_type = message.msg_type;
    let ia = association(message.options);
    if requires_relay && request.relay is None {
        Err(ErrorView::InvalidInput("controller mode requires a relayed DHCPv6 packet"@))
    } else if !requires_relay && request.relay is Some {
        Err(ErrorView::InvalidInput("DPU mode requires a direct DHCPv6 packet"@))
    } else if server_fault(message, config) is Some {
        Err(server_fault(message, config)->Some_0)
    } else if ia is Err {
        Err(ia->Err_0)
    } else if numbered(message.options, 4).len() > 0 || numbered(message.options, 25).len() > 0 {
        Err(ErrorView::UnhandledMessageTypeV6(message_type))
    } else if exchange(message_type, ia->Ok_0 is Some) is Some {
        let kind = exchange(message_type, ia->Ok_0 is Some)->Some_0;
        if requires_relay && kind != MessageKind::V6InfoRequest && bad_lifetimes(config) {
            Err(lifetime_error())
        } else {
            Ok(Course::Ask(kind))
        }
    } else if message_type is Confirm || message_type is Release || message_type is Decline {
        Ok(Course::Local)
    } else if message_type is Request || message_type is Renew || message_type is Rebind {
        Err(ErrorView::MissingOptionV6(OptionCode::IANA))
    } else {
        Err(ErrorView::UnhandledMessageTypeV6(message_type))
    }
}

/// What follows from a request, given who it came from, on which interface, and whether the serving
/// mode takes relayed packets only or direct ones only.
pub open spec fn first_step(
    request: RequestView,
    source: Seq<u8>,
    config: Config,
    interface: Seq<char>,
    requires_relay: bool,
) -> Result<StepView, ErrorView> {
    match course_of(request, config.dhcp_config, requires_relay) {
        Err(error) => Err(error),
        Ok(Course::Ask(kind)) => match discovery(
            request,
            source,
            interface,
            kind,
            !requires_relay,
        ) {
            Ok(question) => Ok(StepView::Ask(question)),
            Err(error) => Err(error),
        },
        Ok(Course::Local) => if requires_relay && !(request.message.msg_type is Confirm)
            && selected_mac(request) is None {
            Err(ErrorView::NoMacNoOption79)
        } else {
            match local_packet(request, config, interface) {
                Ok(Some(packet)) => Ok(StepView::Reply(packet)),
                Ok(None) => Ok(StepView::Silent),
                Err(error) => Err(error),
            }
        },
    }
}

/// Whether the hardware address that identifies a client is resolved on the way to the first step:
/// by a controller, before it asks and before it acknowledges the end of a lease.
pub open spec fn resolves_identity(
    request: RequestView,
    config: DhcpConfig,
    requires_relay: bool,
) -> bool {
    requires_relay && match course_of(request, config, requires_relay) {
        Ok(Course::Ask(_)) => true,
        Ok(Course::Local) => !(request.message.msg_type is Confirm),
        Err(_) => false,
    }
}

/// What the operator is told about the identity of a client, where it is resolved.
pub open spec fn warning_due(request: RequestView, config: DhcpConfig, requires_relay: bool) -> Option<
    IdentityWarningView,
> {
    if resolves_identity(request, config, requires_relay) {
        identity_doubt(request)
    } else {
        None
    }
}

/// Where a controller goes by the identity of a client, the operator is told of every doubt about
/// it, whatever is found wrong with the request afterwards. A client that cannot be identified is
/// refused, and the operator is told so; a DPU goes by no hardware address and tells nothing.
pub proof fn law_doubts_are_told_where_identity_counts(
    request: RequestView,
    source: Seq<u8>,
    config: Config,
    interface: Seq<char>,
    requires_relay: bool,
)
    ensures
        requires_relay && (first_step(request, source, config, interface, requires_relay) matches Ok(
            StepView::Ask(_),
        )) ==> warning_due(request, config.dhcp_config, requires_relay) == identity_doubt(request),
        resolves_identity(request, config.dhcp_config, requires_relay) && selected_mac(request)
            is None ==> {
            &&& first_step(request, source, config, interface, requires_relay) == Err::<
                StepView,
                ErrorView,
            >(ErrorView::NoMacNoOption79)
            &&& warning_due(request, config.dhcp_config, requires_relay) matches Some(
                IdentityWarningView::Missing { .. },
            )
        },
        course_of(request, config.dhcp_config, requires_relay) is Ok && requires_relay
            && !(request.message.msg_type is Confirm) && selected_mac(request) is Some ==> match (
            course_of(request, config.dhcp_config, requires_relay)->Ok_0,
            named_address(request.message.options),
        ) {
            (Course::Ask(_), Err(error)) => {
                &&& first_step(request, source, config, interface, requires_relay) == Err::<
                    StepView,
                    ErrorView,
                >(error)
                &&& warning_due(request, config.dhcp_config, requires_relay) == identity_doubt(
                    request,
                )
            },
            _ => true,
        },
        !requires_relay ==> warning_due(request, config.dhcp_config, requires_relay) is None,
{
}

/// The outcome that a request is answered from: a RENEW or a REBIND is good only for the address
/// that the client names.
pub open spec fn refreshed(request: RequestView, outcome: OutcomeView) -> Result<
    OutcomeView,
    ErrorView,
> {
    let message_type = request.message.msg_type;
    match outcome {
        OutcomeView::Stateful(record) if message_type is Renew || message_type is Rebind => {
            match named_address(request.message.options) {
                Err(error) => Err(error),
                Ok(None) => Ok(OutcomeView::NoAddress),
                Ok(Some(named)) => match ipv6_parsed(record.address) {
                    None => Err(address_error()),
                    Some(address) => if address == named {
                        Ok(outcome)
                    } else {
                        Ok(OutcomeView::NoAddress)
                    },
                },
            }
        },
        _ => Ok(outcome),
    }
}

/// What a request is answered once the answer to its question is known.
pub open spec fn second_step(
    request: RequestView,
    outcome: OutcomeView,
    config: DhcpConfig,
) -> Result<PacketView, ErrorView> {
    match refreshed(request, outcome) {
        Ok(outcome) => mode_packet(request, outcome, config),
        Err(error) => Err(error),
    }
}

/// A controller serves relayed packets only, and a DPU direct ones only.
pub proof fn law_modes_do_not_share_packets(
    request: RequestView,
    source: Seq<u8>,
    config: Config,
    interface: Seq<char>,
    requires_relay: bool,
)
    requires
        requires_relay != (request.relay is Some),
    ensures
        first_step(request, source, config, interface, requires_relay) is Err,
        first_step(request, source, config, interface, requires_relay)->Err_0 is InvalidInput,
{
}

/// A question names the client by its DUID. A controller asks about the hardware address that
/// identifies the client and about the circuit that the relay tells; a DPU asks about the interface
/// that the packet came in on, and about no hardware address.
pub proof fn law_question_names_the_client(
    request: RequestView,
    source: Seq<u8>,
    config: Config,
    interface: Seq<char>,
    requires_relay: bool,
)
    requires
        first_step(request, source, config, interface, requires_relay) matches Ok(StepView::Ask(_)),
    ensures
        ({
            let question = first_step(
                request,
                source,
                config,
                interface,
                requires_relay,
            )->Ok_0->Ask_0;
            &&& question.duid == Some(request.duid)
            &&& question.address_family == Some(AddressFamily::V6)
            &&& if requires_relay {
                &&& selected_mac(request) is Some
                &&& question.mac_address == mac_text(selected_mac(request)->Some_0)
                &&& question.circuit_id == circuit(request, None)
                &&& question.link_address == Some(ipv6_text(request.relay->Some_0.link_address))
            } else {
                &&& question.mac_address == Seq::<char>::empty()
                &&& question.circuit_id == Some(interface)
                &&& question.link_address is None
            }
        }),
{
}

/// A relay's word on who the client is goes before the client's own: the question is about the
/// hardware address of the relay, whatever the client's DUID says.
pub proof fn law_relay_identity_goes_first(
    request: RequestView,
    relay: RelayView,
    payload: Seq<u8>,
    duid: Seq<u8>,
    duid_mac: Option<Seq<u8>>,
)
    requires
        request.relay == Some(relay),
        relay.client_link_layer == Some(payload),
        option79_identity(payload) is Some,
    ensures
        selected_mac(request) == option79_identity(payload),
        selected_mac(RequestView { duid, duid_mac, ..request }) == selected_mac(request),
{
}

/// A controller asks for no address when it could not send its lifetimes: only a question about
/// options is left.
pub proof fn law_unusable_lifetimes_allocate_nothing(
    request: RequestView,
    source: Seq<u8>,
    config: Config,
    interface: Seq<char>,
)
    requires
        bad_lifetimes(config.dhcp_config),
    ensures
        first_step(request, source, config, interface, true) matches Ok(StepView::Ask(question))
            ==> question.message_kind == Some(RequestedKind::Listed(MessageKind::V6InfoRequest)),
{
}

/// A message about temporary addresses or delegated prefixes is neither answered nor asked about.
pub proof fn law_temporary_and_prefix_associations_are_refused(
    request: RequestView,
    source: Seq<u8>,
    config: Config,
    interface: Seq<char>,
    requires_relay: bool,
)
    requires
        numbered(request.message.options, 4).len() > 0 || numbered(
            request.message.options,
            25,
        ).len() > 0,
    ensures
        first_step(request, source, config, interface, requires_relay) is Err,
{
}

/// A message that selects another server is neither answered nor asked about.
pub proof fn law_other_servers_clients_are_left_alone(
    request: RequestView,
    source: Seq<u8>,
    config: Config,
    interface: Seq<char>,
    requires_relay: bool,
)
    requires
        selected_server(request.message.options) is Some,
        selected_server(request.message.options)->Some_0 != server_duid(config.dhcp_config),
    ensures
        first_step(request, source, config, interface, requires_relay) is Err,
{
}

/// A controller acknowledges the end of a lease to an identified client only.
pub proof fn law_lease_end_needs_an_identity(
    request: RequestView,
    source: Seq<u8>,
    config: Config,
    interface: Seq<char>,
)
    requires
        request.message.msg_type is Release || request.message.msg_type is Decline,
        selected_mac(request) is None,
    ensures
        first_step(request, source, config, interface, true) is Err,
{
}

/// Only a CONFIRM that the server cannot decide is met with silence.
pub proof fn law_silence_is_for_undecided_confirms(
    request: RequestView,
    source: Seq<u8>,
    config: Config,
    interface: Seq<char>,
    requires_relay: bool,
)
    requires
        first_step(request, source, config, interface, requires_relay) == Ok::<StepView, ErrorView>(
            StepView::Silent,
        ),
    ensures
        request.message.msg_type is Confirm,
        confirmation(request.message.options, config, interface) == Ok::<Option<u16>, ErrorView>(
            None,
        ),
{
}

/// A RENEW or a REBIND is granted an address exactly when it names the address that is bound.
pub proof fn law_refresh_is_for_the_named_address(request: RequestView, record: RecordView)
    requires
        request.message.msg_type is Renew || request.message.msg_type is Rebind,
    ensures
        refreshed(request, OutcomeView::Stateful(record)) == Ok::<OutcomeView, ErrorView>(
            OutcomeView::Stateful(record),
        ) <==> {
            &&& named_address(request.message.options) matches Ok(Some(named))
            &&& ipv6_parsed(record.address) == Some(named)
        },
{
}

/// Decide how a request is dealt with.
fn course(request: &DecodedPacketV6, config: &Config, requires_relay: bool) -> (result: Result<
    Course,
    DhcpError,
>)
    ensures
        match result {
            Ok(course) => course_of(request@, config.dhcp_config, requires_relay) == Ok::<
                Course,
                ErrorView,
            >(course),
            Err(error) => course_of(request@, config.dhcp_config, requires_relay) == Err::<
                Course,
                ErrorView,
            >(error@),
        },
{
    // A controller trusts its relays; a DPU trusts only the interface that a packet came in on.
    if requires_relay && request.relay.is_none() {
        return Err(
            DhcpError::InvalidInput("controller mode requires a relayed DHCPv6 packet".to_owned()),
        );
    }
    if !requires_relay && request.relay.is_some() {
        return Err(
            DhcpError::InvalidInput("DPU mode requires a direct DHCPv6 packet".to_owned()),
        );
    }
    match ensure_server_identifier(&request.message, config) {
        Ok(_) => {},
        Err(error) => {
            return Err(error);
        },
    }
    let wire_type = request.message.msg_type;
    let has_association: bool = match ia_na(&request.message) {
        Ok(association) => association.is_some(),
        Err(error) => {
            return Err(error);
        },
    };

    // Temporary addresses and delegated prefixes are not served. They are refused before a local
    // reply could acknowledge them.
    if request.message.options.get_all(4).len() > 0 || request.message.options.get_all(25).len()
        > 0 {
        return Err(DhcpError::UnhandledMessageTypeV6(wire_type));
    }
    let message_kind = match wire_type {
        MessageType::Solicit => {
            if has_association {
                MessageKind::V6Solicit
            } else {
                MessageKind::V6InfoRequest
            }
        },
        MessageType::InformationRequest => {
            if has_association {
                return Err(DhcpError::UnhandledMessageTypeV6(wire_type));
            }
            MessageKind::V6InfoRequest
        },
        MessageType::Request | MessageType::Renew | MessageType::Rebind => {
            if !has_association {
                return Err(DhcpError::MissingOptionV6(OptionCode::IANA));
            }
            MessageKind::V6Request
        },
        MessageType::Confirm | MessageType::Release | MessageType::Decline => {
            return Ok(Course::Local);
        },
        other => {
            return Err(DhcpError::UnhandledMessageTypeV6(other));
        },
    };

    // A controller's question may allocate an address, so lifetimes that could not be sent are
    // refused before it is asked.
    if requires_relay && message_kind != MessageKind::V6InfoRequest {
        match stateful_lifetimes(config) {
            Ok(_) => {},
            Err(error) => {
                return Err(error);
            },
        }
    }
    Ok(Course::Ask(message_kind))
}

/// Return what the operator is told about the identity of a client, if it is resolved and there is a
/// doubt about it.
pub fn due_warning(request: &DecodedPacketV6, config: &Config, requires_relay: bool) -> (warning: Option<
    IdentityWarning,
>)
    ensures
        match warning {
            Some(warning) => warning_due(request@, config.dhcp_config, requires_relay) == Some(
                warning@,
            ),
            None => warning_due(request@, config.dhcp_config, requires_relay) is None,
        },
{
    if !requires_relay {
        return None;
    }
    match course(request, config, requires_relay) {
        Ok(Course::Ask(_)) => request.identity_warning(),
        Ok(Course::Local) => {
            if request.message.msg_type == MessageType::Confirm {
                None
            } else {
                request.identity_warning()
            }
        },
        Err(_) => None,
    }
}

/// Decide what follows from a request before anybody is asked.
pub fn start_request(
    request: &DecodedPacketV6,
    source_address: Ipv6Addr,
    config: &Config,
    local_interface: &str,
    requires_relay: bool,
) -> (result: Result<Step, DhcpError>)
    ensures
        answer(result) == first_step(
            request@,
            source_address@,
            *config,
            local_interface@,
            requires_relay,
        ),
{
    let message_kind = match course(request, config, requires_relay) {
        Ok(Course::Ask(message_kind)) => message_kind,
        Ok(Course::Local) => {
            // The end of a lease is acknowledged to a client that the relay or the DUID identifies.
            // No binding is looked up: success only says that the notice reached its server.
            if requires_relay && request.message.msg_type != MessageType::Confirm {
                match request.selected_mac_address() {
                    Ok(_) => {},
                    Err(error) => {
                        return Err(error);
                    },
                }
            }
            return match encode_local_reply(request, config, local_interface) {
                Ok(Some(packet)) => Ok(Step::Reply(packet)),
                Ok(None) => Ok(Step::Silent),
                Err(error) => Err(error),
            };
        },
        Err(error) => {
            return Err(error);
        },
    };
    match request.discovery_request(
        source_address,
        local_interface,
        message_kind,
        !requires_relay,
    ) {
        Ok(question) => Ok(Step::Ask(question)),
        Err(error) => Err(error),
    }
}

/// Answer a request once the answer to its question is known.
pub fn finish_request(request: &DecodedPacketV6, outcome: V6Outcome, config: &Config) -> (result:
    Result<PacketV6, DhcpError>)
    requires
        encodable(config.dhcp_config),
    ensures
        answer(result) == second_step(request@, outcome@, config.dhcp_config),
{
    let wire_type = request.message.msg_type;
    let outcome = match outcome {
        V6Outcome::Stateful(record) => {
            if wire_type == MessageType::Renew || wire_type == MessageType::Rebind {
                // Without the address that is bound there is no binding to renew.
                match request.desired_address() {
                    Ok(Some(desired)) => match Ipv6Addr::parse(record.address.as_str()) {
                        Some(address) => {
                            if address.same(&desired) {
                                V6Outcome::Stateful(record)
                            } else {
                                V6Outcome::NoAddress
                            }
                        },
                        None => {
                            return Err(
                                DhcpError::AddressParseError(
                                    "invalid IPv6 address syntax".to_owned(),
                                ),
                            );
                        },
                    },
                    Ok(None) => V6Outcome::NoAddress,
                    Err(error) => {
                        return Err(error);
                    },
                }
            } else {
                V6Outcome::Stateful(record)
            }
        },
        other => other,
    };
    encode_mode_reply(request, &outcome, config)
}

/// The request that a client message and its envelope make, or why they make none.
pub open spec fn request_of(message: MessageView, relay: Option<RelayView>) -> Result<
    RequestView,
    ErrorView,
> {
    match client_identity(message.options) {
        Ok((duid, duid_mac)) => Ok(RequestView { message, relay, duid, duid_mac }),
        Err(error) => Err(error),
    }
}

/// Whether `result` is what a serving mode makes of a request, as one that takes relayed packets only
/// or direct ones only.
pub open spec fn served_as<M: DhcpMode>(
    request: RequestView,
    source: Seq<u8>,
    config: Config,
    interface: Seq<char>,
    handler: M,
    requires_relay: bool,
    result: Result<Option<PacketV6>, DhcpError>,
) -> bool {
    match first_step(request, source, config, interface, requires_relay) {
        Err(error) => result is Err && result->Err_0@ == error,
        Ok(StepView::Silent) => result is Ok && result->Ok_0 is None,
        Ok(StepView::Reply(packet)) => result is Ok && packet_of(result->Ok_0) == Some(packet),
        Ok(StepView::Ask(question)) => exists|
            asked: DhcpDiscovery,
            answered: Result<V6Outcome, DhcpError>,
        |
            {
                &&& asked@ == question
                &&& #[trigger] call_ensures(
                    M::discover_dhcp_v6,
                    (&handler, asked, &config),
                    answered,
                )
                &&& match answered {
                    Err(error) => result is Err && result->Err_0@ == error@,
                    Ok(outcome) => match second_step(request, outcome@, config.dhcp_config) {
                        Err(error) => result is Err && result->Err_0@ == error,
                        Ok(packet) => result is Ok && packet_of(result->Ok_0) == Some(packet),
                    },
                }
            },
    }
}

/// Whether `result` is what a serving mode makes of a request.
pub open spec fn served<M: DhcpMode>(
    request: RequestView,
    source: Seq<u8>,
    config: Config,
    interface: Seq<char>,
    handler: M,
    result: Result<Option<PacketV6>, DhcpError>,
) -> bool {
    exists|requires_relay: bool|
        {
            &&& #[trigger] call_ensures(M::should_be_relayed, (&handler,), requires_relay)
            &&& served_as(request, source, config, interface, handler, requires_relay, result)
        }
}

/// Whether the client message of a packet is of a type that somebody may be asked about: a SOLICIT, a
/// REQUEST, a RENEW, a REBIND or an INFORMATION-REQUEST.
pub open spec fn may_ask(packet: Seq<u8>) -> bool {
    let number = client_octets(packet)[0];
    number == 1 || number == 3 || number == 5 || number == 6 || number == 11
}

/// Process one DHCPv6 request and return no packet when the protocol requires silence. Name servers
/// are only written into an answer that somebody was asked for.
pub fn process_packet<M: DhcpMode>(
    packet: &[u8],
    source_address: Ipv6Addr,
    config: &Config,
    local_interface: &str,
    handler: &M,
) -> (result: Result<Option<PacketV6>, DhcpError>)
    requires
        may_ask(packet@) ==> encodable(config.dhcp_config),
    ensures
        match packet_fault(packet@) {
            Some(fault) => result is Err && result->Err_0@ == reported(fault),
            None => exists|message: MessageView|
                {
                    &&& #[trigger] message_of(client_octets(packet@), message)
                    &&& match request_of(message, envelope_of(packet@)) {
                        Err(error) => result is Err && result->Err_0@ == error,
                        Ok(request) => served(
                            request,
                            source_address@,
                            *config,
                            local_interface@,
                            *handler,
                            result,
                        ),
                    }
                },
        },
{
    let request = match DecodedPacketV6::decode(packet) {
        Ok(request) => request,
        Err(error) => {
            return Err(error);
        },
    };
    let requires_relay: bool = handler.should_be_relayed();
    assert(call_ensures(M::should_be_relayed, (handler,), requires_relay));
    let question = match start_request(
        &request,
        source_address,
        config,
        local_interface,
        requires_relay,
    ) {
        Ok(Step::Ask(question)) => question,
        Ok(Step::Reply(packet)) => {
            return Ok(Some(packet));
        },
        Ok(Step::Silent) => {
            return Ok(None);
        },
        Err(error) => {
            return Err(error);
        },
    };
    let ghost asked = question;
    let answered = handler.discover_dhcp_v6(question, config);
    assert(call_ensures(M::discover_dhcp_v6, (handler, asked, config), answered));
    match answered {
        Ok(outcome) => match finish_request(&request, outcome, config) {
            Ok(packet) => Ok(Some(packet)),
            Err(error) => Err(error),
        },
        Err(error) => Err(error),
    }
}

} // verus!
