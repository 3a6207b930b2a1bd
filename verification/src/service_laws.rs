//! Who is served, told from what stands in a message and in the configuration.

#[allow(unused_imports)]
use crate::{
    address::ipv6_parsed,
    answer_laws::{
        granted, known_as, law_answer_continues_the_exchange, law_answer_tells_the_lease, told,
        well_sized,
    },
    bytes::u32_octets,
    codec::{message_octets, options_octets, payload_octets, MessageView},
    config::{Config, DhcpConfig, InterfaceInfoV6},
    decode::{client_octets, message_of, RelayView},
    duid::{duid_identity, DuidError},
    errors::{DhcpError, ErrorView},
    exchange_laws::{
        as_association, has_association, law_addresses_are_the_iaaddr_options,
        law_associations_are_the_ia_na_options, law_numbered_are_all_with_the_number,
        lemma_has_association, lemma_only_one, tells_ethernet,
    },
    message::{message_name, MessageType, OptionCode},
    modes::{DhcpDiscovery, DhcpMode, Dpu, V6Outcome},
    options::{numbered, OptionView},
    packet_handler_v6::{
        first_step, may_ask, request_of, second_step, served, warning_due, StepView,
    },
    raw::raw_options,
    reply::{packet_of, status_reply, PacketV6},
    request::{associations, client_identity, server_duid, IdentityWarningView, RequestView},
    text::{hex_text, mac_text},
};
use vstd::prelude::*;

verus! {

/// Whether two different elements of a list pass a test.
pub open spec fn repeated(options: Seq<OptionView>, pred: spec_fn(OptionView) -> bool) -> bool {
    exists|i: int, j: int|
        0 <= i < j < options.len() && pred(#[trigger] options[i]) && pred(#[trigger] options[j])
}

/// Whether an element of a list passes a test.
pub open spec fn present(options: Seq<OptionView>, pred: spec_fn(OptionView) -> bool) -> bool {
    exists|i: int| 0 <= i < options.len() && pred(#[trigger] options[i])
}

/// A filter leaves more than one element exactly when two pass, and none exactly when none does.
pub(crate) proof fn lemma_counted(options: Seq<OptionView>, pred: spec_fn(OptionView) -> bool)
    ensures
        options.filter(pred).len() > 1 <==> repeated(options, pred),
        options.filter(pred).len() > 0 <==> present(options, pred),
    decreases options.len(),
{
    reveal_with_fuel(Seq::filter, 2);
    if options.len() > 0 {
        let front = options.drop_last();
        let last = options.len() - 1;
        lemma_counted(front, pred);
        if present(front, pred) {
            let i = choose|i: int| 0 <= i < front.len() && pred(#[trigger] front[i]);
            assert(pred(options[i]));
            if pred(options[last]) {
                assert(repeated(options, pred));
            }
        }
        if repeated(front, pred) {
            let (i, j) = choose|i: int, j: int|
                0 <= i < j < front.len() && pred(#[trigger] front[i]) && pred(#[trigger] front[j]);
            assert(pred(options[i]) && pred(options[j]));
        }
        if present(options, pred) {
            let i = choose|i: int| 0 <= i < options.len() && pred(#[trigger] options[i]);
            if i < last {
                assert(pred(front[i]));
            }
        }
        if repeated(options, pred) {
            let (i, j) = choose|i: int, j: int|
                0 <= i < j < options.len() && pred(#[trigger] options[i]) && pred(
                    #[trigger] options[j],
                );
            assert(pred(front[i]));
            if j < last {
                assert(pred(front[j]));
            }
        }
        if pred(options[last]) {
            assert(present(options, pred));
        }
    }
}

/// Whether the server that a message names, or does not name, lets this server deal with it: a
/// SOLICIT, a CONFIRM and a REBIND name none; a REQUEST, a RENEW, a RELEASE and a DECLINE name this
/// one; and no message names another or two.
pub open spec fn addressed(
    message_type: MessageType,
    options: Seq<OptionView>,
    config: DhcpConfig,
) -> bool {
    &&& !repeated(options, |option: OptionView| option is ServerId)
    &&& forall|i: int|
        0 <= i < options.len() && (#[trigger] options[i]) is ServerId ==> {
            &&& options[i]->ServerId_0 == known_as(config)
            &&& !(message_type is Solicit || message_type is Confirm || message_type is Rebind)
        }
    &&& message_type is Request || message_type is Renew || message_type is Release
        || message_type is Decline ==> present(options, |option: OptionView| option is ServerId)
}

/// Whether a message asks about one non-temporary address at most, and about nothing else.
pub open spec fn asks_for_one_address(options: Seq<OptionView>) -> bool {
    &&& !repeated(options, |option: OptionView| option is IaNa)
    &&& !present(options, |option: OptionView| option.number() == 4)
    &&& !present(options, |option: OptionView| option.number() == 25)
}

/// Whether the type of a message is one that is served: the types of the exchanges about an address
/// need an IA_NA, a request for options must have none, and a SOLICIT may have one.
pub open spec fn served_type(message_type: MessageType, associated: bool) -> bool {
    match message_type {
        MessageType::Solicit | MessageType::Confirm | MessageType::Release
        | MessageType::Decline => true,
        MessageType::Request | MessageType::Renew | MessageType::Rebind => associated,
        MessageType::InformationRequest => !associated,
        _ => false,
    }
}

/// Whether a message is dealt with without asking anybody.
pub open spec fn decided_here(message_type: MessageType) -> bool {
    message_type is Confirm || message_type is Release || message_type is Decline
}

/// Whether a controller knows the hardware address of a client: its relay tells one or its DUID is
/// made of one.
pub open spec fn identified(request: RequestView) -> bool {
    (request.relay is Some && tells_ethernet(request.relay->Some_0)) || request.duid_mac is Some
}

/// Who is served. A controller serves relayed packets and a DPU direct ones. The message has to be
/// addressed to this server, to ask about one address at most, and to be of a type that is served. A
/// controller has to know the client, except for a CONFIRM, and to have lifetimes that it can send
/// where an address is asked for. A question names one address at most. Everybody else is refused.
pub proof fn law_who_is_served(
    request: RequestView,
    source: Seq<u8>,
    config: Config,
    interface: Seq<char>,
    requires_relay: bool,
)
    requires
        well_sized(request),
        request.duid.len() <= 0xff00,
        request.relay matches Some(relay) ==> {
            &&& relay.interface_id matches Some(id) ==> id.len() <= 0xffff
            &&& relay.remote_id matches Some(id) ==> id.len() <= 0xffff
        },
        forall|i: int|
            0 <= i < request.message.options.len() && (
            #[trigger] request.message.options[i]).number() == 2
                ==> request.message.options[i] is ServerId,
    ensures
        ({
            let message = request.message;
            let kind = message.msg_type;
            let options = message.options;
            let associated = has_association(options);
            let step = first_step(request, source, config, interface, requires_relay);
            let preferred = config.dhcp_config.dhcpv6_preferred_lifetime_secs;
            let valid = config.dhcp_config.dhcpv6_valid_lifetime_secs;
            &&& step is Ok <==> {
                &&& requires_relay == (request.relay is Some)
                &&& addressed(kind, options, config.dhcp_config)
                &&& asks_for_one_address(options)
                &&& served_type(kind, associated)
                &&& requires_relay && !(kind is Confirm) ==> identified(request)
                &&& requires_relay && associated && !decided_here(kind) ==> 0 < preferred <= valid
                &&& !decided_here(kind) ==> forall|i: int|
                    0 <= i < options.len() && (#[trigger] options[i]) is IaNa ==> !repeated(
                        options[i]->IaNa_options,
                        |option: OptionView| option is IaAddr,
                    )
            }
            &&& step is Ok ==> (step->Ok_0 is Ask <==> !decided_here(kind))
            &&& step is Ok && (kind is Release || kind is Decline) ==> step->Ok_0 is Reply
        }),
{
    let message = request.message;
    let kind = message.msg_type;
    let options = message.options;
    let is_ia = |option: OptionView| option is IaNa;
    let is_address = |option: OptionView| option is IaAddr;
    let is_server = |option: OptionView| option is ServerId;
    let is_two = |option: OptionView| option.number() == 2;
    let is_four = |option: OptionView| option.number() == 4;
    let is_prefix = |option: OptionView| option.number() == 25;
    lemma_has_association(options);
    law_associations_are_the_ia_na_options(options);
    lemma_counted(options, is_ia);
    law_numbered_are_all_with_the_number(options, 4);
    lemma_counted(options, is_four);
    law_numbered_are_all_with_the_number(options, 25);
    lemma_counted(options, is_prefix);
    law_numbered_are_all_with_the_number(options, 2);
    lemma_counted(options, is_two);
    assert(known_as(config.dhcp_config) =~= server_duid(config.dhcp_config));
    assert(repeated(options, is_two) <==> repeated(options, is_server));
    assert(present(options, is_two) <==> present(options, is_server));
    if present(options, is_two) && !repeated(options, is_two) {
        let at = choose|at: int| 0 <= at < options.len() && is_two(#[trigger] options[at]);
        lemma_only_one(options, at, is_two);
        assert(options[at] is ServerId);
        assert(numbered(options, 2)[0] == options[at]);
        assert forall|i: int| 0 <= i < options.len() && (#[trigger] options[i]) is ServerId implies i
            == at by {
            assert(is_two(options[i]) && is_two(options[at]));
        }
    }
    if present(options, is_ia) && !repeated(options, is_ia) {
        let at = choose|at: int| 0 <= at < options.len() && is_ia(#[trigger] options[at]);
        lemma_only_one(options, at, is_ia);
        assert(associations(options)[0] == as_association(options[at]));
        let listed = options[at]->IaNa_options;
        law_addresses_are_the_iaaddr_options(listed);
        lemma_counted(listed, is_address);
        assert forall|i: int| 0 <= i < options.len() && (#[trigger] options[i]) is IaNa implies i
            == at by {
            assert(is_ia(options[i]) && is_ia(options[at]));
        }
    } else if !present(options, is_ia) {
        assert forall|i: int| 0 <= i < options.len() implies !((#[trigger] options[i]) is IaNa) by {
            assert(!is_ia(options[i]));
        }
    }
    assert forall|status: u16| (#[trigger] message_octets(
        status_reply(request, status, config.dhcp_config),
    )).len() <= 0xffff by {
        lemma_status_reply_is_short(request, status, config.dhcp_config);
    }
}

/// What the counts of options say, and which server a message names.
proof fn lemma_what_is_there(options: Seq<OptionView>)
    requires
        forall|i: int|
            0 <= i < options.len() && (#[trigger] options[i]).number() == 2
                ==> options[i] is ServerId,
    ensures
        numbered(options, 2).len() > 1 <==> repeated(
            options,
            |option: OptionView| option is ServerId,
        ),
        numbered(options, 2).len() > 0 <==> present(options, |option: OptionView| option is ServerId),
        numbered(options, 2).len() == 1 ==> forall|i: int|
            0 <= i < options.len() && (#[trigger] options[i]) is ServerId ==> numbered(options, 2)[0]
                == options[i],
        associations(options).len() > 1 <==> repeated(options, |option: OptionView| option is IaNa),
        associations(options).len() > 0 <==> present(options, |option: OptionView| option is IaNa),
        associations(options).len() > 0 <==> has_association(options),
        numbered(options, 4).len() > 0 <==> present(
            options,
            |option: OptionView| option.number() == 4,
        ),
        numbered(options, 25).len() > 0 <==> present(
            options,
            |option: OptionView| option.number() == 25,
        ),
{
    let is_ia = |option: OptionView| option is IaNa;
    let is_server = |option: OptionView| option is ServerId;
    let is_two = |option: OptionView| option.number() == 2;
    lemma_has_association(options);
    law_associations_are_the_ia_na_options(options);
    lemma_counted(options, is_ia);
    law_numbered_are_all_with_the_number(options, 4);
    lemma_counted(options, |option: OptionView| option.number() == 4);
    law_numbered_are_all_with_the_number(options, 25);
    lemma_counted(options, |option: OptionView| option.number() == 25);
    law_numbered_are_all_with_the_number(options, 2);
    lemma_counted(options, is_two);
    assert(repeated(options, is_two) <==> repeated(options, is_server));
    assert(present(options, is_two) <==> present(options, is_server));
    assert forall|i: int|
        numbered(options, 2).len() == 1 && 0 <= i < options.len() && (
        #[trigger] options[i]) is ServerId implies numbered(options, 2)[0] == options[i] by {
        lemma_only_one(options, i, is_two);
    }
}

/// What a client that is refused is refused for. A packet of the wrong mode is refused as such. A
/// message that names two servers, or one where it must not, is malformed; one that names another
/// server is not for this one, and is logged with the server that it names; and one that names none
/// where it must is told so. Then a second IA_NA, an association of another kind, a missing IA_NA
/// and a type that is not served are refused, then unusable lifetimes and an unknown client, and two
/// addresses in the IA_NA of a question last. `named` is the option that the refusal is about.
pub proof fn law_refusals_tell_why(
    request: RequestView,
    source: Seq<u8>,
    config: Config,
    interface: Seq<char>,
    requires_relay: bool,
    named: int,
)
    requires
        forall|i: int|
            0 <= i < request.message.options.len() && (
            #[trigger] request.message.options[i]).number() == 2
                ==> request.message.options[i] is ServerId,
    ensures
        ({
            let step = first_step(request, source, config, interface, requires_relay);
            let options = request.message.options;
            let kind = request.message.msg_type;
            let right_mode = requires_relay == (request.relay is Some);
            let two_servers = repeated(options, |option: OptionView| option is ServerId);
            let a_server = present(options, |option: OptionView| option is ServerId);
            let must_not = kind is Solicit || kind is Confirm || kind is Rebind;
            let must = kind is Request || kind is Renew || kind is Release || kind is Decline;
            let ours = addressed(kind, options, config.dhcp_config);
            let two_associations = repeated(options, |option: OptionView| option is IaNa);
            let other_association = present(options, |option: OptionView| option.number() == 4)
                || present(options, |option: OptionView| option.number() == 25);
            let associated = has_association(options);
            let heard = right_mode && ours && asks_for_one_address(options);
            let preferred = config.dhcp_config.dhcpv6_preferred_lifetime_secs;
            let valid = config.dhcp_config.dhcpv6_valid_lifetime_secs;
            let sendable = !requires_relay || !associated || decided_here(kind) || 0 < preferred
                <= valid;
            &&& !right_mode ==> step == Err::<StepView, ErrorView>(
                ErrorView::InvalidInput(
                    if requires_relay {
                        "controller mode requires a relayed DHCPv6 packet"@
                    } else {
                        "DPU mode requires a direct DHCPv6 packet"@
                    },
                ),
            )
            &&& right_mode && two_servers ==> step == Err::<StepView, ErrorView>(
                ErrorView::InvalidInput("multiple DHCPv6 ServerId options are unsupported"@),
            )
            &&& right_mode && !two_servers && a_server && must_not ==> step == Err::<
                StepView,
                ErrorView,
            >(
                ErrorView::InvalidInput(
                    message_name(kind) + " must not include a DHCPv6 ServerId option"@,
                ),
            )
            &&& right_mode && !two_servers && !must_not && 0 <= named < options.len()
                && options[named] is ServerId && options[named]->ServerId_0 != known_as(
                config.dhcp_config,
            ) ==> step == Err::<StepView, ErrorView>(
                ErrorView::NotMyPacket(hex_text(options[named]->ServerId_0)),
            )
            &&& right_mode && !a_server && must ==> step == Err::<StepView, ErrorView>(
                ErrorView::MissingOptionV6(OptionCode::ServerId),
            )
            &&& right_mode && ours && two_associations ==> step == Err::<StepView, ErrorView>(
                ErrorView::InvalidInput("multiple DHCPv6 IA_NA options are unsupported"@),
            )
            &&& right_mode && ours && !two_associations && other_association ==> step == Err::<
                StepView,
                ErrorView,
            >(ErrorView::UnhandledMessageTypeV6(kind))
            &&& heard && !served_type(kind, associated) ==> step == Err::<StepView, ErrorView>(
                if kind is Request || kind is Renew || kind is Rebind {
                    ErrorView::MissingOptionV6(OptionCode::IANA)
                } else {
                    ErrorView::UnhandledMessageTypeV6(kind)
                },
            )
            &&& heard && served_type(kind, associated) && !sendable ==> step == Err::<
                StepView,
                ErrorView,
            >(
                ErrorView::InvalidInput(
                    "DHCPv6 lifetimes must be nonzero with preferred not exceeding valid"@,
                ),
            )
            &&& heard && served_type(kind, associated) && sendable && !decided_here(kind) && (
            requires_relay ==> identified(request)) && 0 <= named < options.len()
                && options[named] is IaNa && repeated(
                options[named]->IaNa_options,
                |option: OptionView| option is IaAddr,
            ) ==> step == Err::<StepView, ErrorView>(
                ErrorView::InvalidInput("multiple DHCPv6 IAADDR options are unsupported"@),
            )
            &&& heard && served_type(kind, associated) && sendable && requires_relay && !(
            kind is Confirm) && !identified(request) ==> step == Err::<StepView, ErrorView>(
                ErrorView::NoMacNoOption79,
            )
        }),
{
    let options = request.message.options;
    lemma_what_is_there(options);
    assert(known_as(config.dhcp_config) =~= server_duid(config.dhcp_config));
    if present(options, |option: OptionView| option is ServerId) {
        let at = choose|at: int| 0 <= at < options.len() && (#[trigger] options[at]) is ServerId;
        assert(options[at] is ServerId);
    }
    if 0 <= named < options.len() && options[named] is ServerId {
        let is_server = |option: OptionView| option is ServerId;
        assert(is_server(options[named]));
    }
    if 0 <= named < options.len() && options[named] is IaNa && asks_for_one_address(options) {
        let is_ia = |option: OptionView| option is IaNa;
        let listed = options[named]->IaNa_options;
        law_associations_are_the_ia_na_options(options);
        lemma_only_one(options, named, is_ia);
        assert(associations(options)[0] == as_association(options[named]));
        law_addresses_are_the_iaaddr_options(listed);
        lemma_counted(listed, |option: OptionView| option is IaAddr);
    }
    if addressed(request.message.msg_type, options, config.dhcp_config) && present(
        options,
        |option: OptionView| option is ServerId,
    ) {
        let at = choose|at: int| 0 <= at < options.len() && (#[trigger] options[at]) is ServerId;
        assert(numbered(options, 2)[0] == options[at]);
    }
}

/// What an operator is told. Where a controller goes by the identity of a client, which is for every
/// message that it serves but a CONFIRM, the operator is told of a relay and a DUID that name
/// different hardware addresses, with both, and of a client that neither names, with the link that
/// it is on. Nothing else is told, and nothing in any other case.
pub proof fn law_operator_is_told_of_doubts(
    request: RequestView,
    config: DhcpConfig,
    requires_relay: bool,
)
    requires
        forall|i: int|
            0 <= i < request.message.options.len() && (
            #[trigger] request.message.options[i]).number() == 2
                ==> request.message.options[i] is ServerId,
    ensures
        ({
            let told = warning_due(request, config, requires_relay);
            let options = request.message.options;
            let kind = request.message.msg_type;
            let associated = has_association(options);
            let preferred = config.dhcpv6_preferred_lifetime_secs;
            let valid = config.dhcpv6_valid_lifetime_secs;
            let identity_counts = {
                &&& requires_relay
                &&& request.relay is Some
                &&& addressed(kind, options, config)
                &&& asks_for_one_address(options)
                &&& served_type(kind, associated)
                &&& !(kind is Confirm)
                &&& associated && !decided_here(kind) ==> 0 < preferred <= valid
            };
            let relay = request.relay->Some_0;
            let tells = tells_ethernet(relay);
            let seen = relay.client_link_layer->Some_0.skip(2);
            let own = request.duid_mac;
            &&& !identity_counts ==> told is None
            &&& identity_counts && tells && own is Some && own->Some_0 != seen ==> told == Some(
                IdentityWarningView::Disagreement {
                    client_mac_address: mac_text(seen),
                    duid_mac_address: mac_text(own->Some_0),
                },
            )
            &&& identity_counts && !tells && own is None ==> told == Some(
                IdentityWarningView::Missing { relay_link_ip_address: Some(relay.link_address) },
            )
            &&& tells && (own is None || own->Some_0 == seen) ==> told is None
            &&& !tells && own is Some ==> told is None
        }),
{
    let options = request.message.options;
    lemma_what_is_there(options);
    assert(known_as(config) =~= server_duid(config));
    if present(options, |option: OptionView| option is ServerId) {
        let at = choose|at: int| 0 <= at < options.len() && (#[trigger] options[at]) is ServerId;
        assert(options[at] is ServerId);
        if !repeated(options, |option: OptionView| option is ServerId) {
            assert(numbered(options, 2)[0] == options[at]);
        }
    }
}

/// A client is known by the only identifier that it sends: the payload of its one client identifier
/// option, at `at`, and the hardware address that the payload is made of. A message with none, or
/// with two, or with an identifier that is malformed or of an unsupported kind, is refused for that.
pub proof fn law_client_is_known_by_its_identifier(options: Seq<OptionView>, at: int)
    requires
        forall|i: int|
            0 <= i < options.len() && (#[trigger] options[i]).number() == 1
                ==> options[i] is ClientId,
    ensures
        ({
            let known = client_identity(options);
            let is_client = |option: OptionView| option is ClientId;
            &&& !present(options, is_client) ==> known == Err::<
                (Seq<u8>, Option<Seq<u8>>),
                ErrorView,
            >(ErrorView::MissingOptionV6(OptionCode::ClientId))
            &&& repeated(options, is_client) ==> known == Err::<
                (Seq<u8>, Option<Seq<u8>>),
                ErrorView,
            >(ErrorView::InvalidInput("multiple DHCPv6 ClientId options are unsupported"@))
            &&& !repeated(options, is_client) && 0 <= at < options.len()
                && options[at] is ClientId ==> {
                let duid = options[at]->ClientId_0;
                &&& known is Ok <==> duid_identity(duid) is Ok
                &&& known is Ok ==> known->Ok_0.0 == duid && known->Ok_0.1 == duid_identity(
                    duid,
                )->Ok_0
                &&& duid_identity(duid) == Err::<Option<Seq<u8>>, DuidError>(DuidError::Malformed)
                    ==> known->Err_0 == ErrorView::MalformedDuid
                &&& duid_identity(duid) == Err::<Option<Seq<u8>>, DuidError>(
                    DuidError::UnsupportedType,
                ) ==> known->Err_0 == ErrorView::UnsupportedDuidType(
                    (duid[0] * 256 + duid[1]) as u16,
                )
            }
        }),
{
    let is_client = |option: OptionView| option is ClientId;
    let is_one = |option: OptionView| option.number() == 1;
    law_numbered_are_all_with_the_number(options, 1);
    lemma_counted(options, is_one);
    assert(repeated(options, is_one) <==> repeated(options, is_client));
    assert(present(options, is_one) <==> present(options, is_client));
    if 0 <= at < options.len() && options[at] is ClientId {
        assert(is_one(options[at]));
        assert(is_client(options[at]));
        if !repeated(options, is_one) {
            lemma_only_one(options, at, is_one);
        }
    }
}

/// A client that asks a DPU for an address reads, in the octets that it is sent, the address that is
/// configured for the interface that its packet came in on, with the configured lifetimes, in an
/// identity association of the number that it sent.
pub proof fn law_dpu_client_reads_its_configured_address(
    request: RequestView,
    source: Seq<u8>,
    config: Config,
    interface: Seq<char>,
    dpu: Dpu,
    result: Result<Option<PacketV6>, DhcpError>,
    ipv6: InterfaceInfoV6,
    ia: int,
)
    requires
        served(request, source, config, interface, dpu, result),
        result is Ok,
        request.message.msg_type is Solicit || request.message.msg_type is Request,
        0 <= ia < request.message.options.len(),
        request.message.options[ia] is IaNa,
        well_sized(request),
        request.duid.len() <= 0xffff,
        config.dhcp_config.carbide_nameservers_v6@.len() < 0x1000,
        config.dhcp_config.carbide_ntpservers_v6@.len() < 0xccd,
        config.host_config is Some,
        config.host_config->Some_0.host_ip_addresses.lookup(interface) is Some,
        config.host_config->Some_0.host_ip_addresses.lookup(interface)->Some_0.ipv6 == Some(ipv6),
        ipv6.address is Some,
    ensures
        result->Ok_0 is Some,
        ({
            let octets = result->Ok_0->Some_0@.octets;
            let read = raw_options(octets.skip(4));
            &&& octets.len() >= 4
            &&& octets[0] == (if request.message.msg_type is Solicit {
                2u8
            } else {
                7u8
            })
            &&& octets.subrange(1, 4) == request.message.xid
            &&& read is Ok
            &&& told(
                read->Ok_0,
                3,
                u32_octets(request.message.options[ia]->IaNa_id) + seq![0u8, 0, 0, 0, 0, 0, 0, 0]
                    + seq![0u8, 5, 0, 24] + ipv6.address->Some_0@ + u32_octets(
                    config.dhcp_config.dhcpv6_preferred_lifetime_secs,
                ) + u32_octets(config.dhcp_config.dhcpv6_valid_lifetime_secs),
            )
        }),
{
    let options = request.message.options;
    lemma_has_association(options);
    assert(has_association(options)) by {
        assert(options[ia] is IaNa);
    }
    let question = first_step(request, source, config, interface, false)->Ok_0->Ask_0;
    let (asked, answered) = choose|asked: DhcpDiscovery, answered: Result<V6Outcome, DhcpError>|
        {
            &&& asked@ == question
            &&& #[trigger] call_ensures(Dpu::discover_dhcp_v6, (&dpu, asked, &config), answered)
            &&& match answered {
                Err(error) => result is Err && result->Err_0@ == error@,
                Ok(outcome) => match second_step(request, outcome@, config.dhcp_config) {
                    Err(error) => result is Err && result->Err_0@ == error,
                    Ok(packet) => result is Ok && packet_of(result->Ok_0) == Some(packet),
                },
            }
        };
    let outcome = answered->Ok_0@;
    assert(outcome is Stateful);
    assert(ipv6_parsed(outcome->Stateful_0.address) == Some(ipv6.address->Some_0@));
    assert(granted(request, outcome, ia));
    law_answer_continues_the_exchange(request, outcome, config.dhcp_config);
    law_answer_tells_the_lease(request, outcome, config.dhcp_config, ia);
}

/// A request is the client's message and its envelope as they were read, with the identity of the
/// client beside them; a client that cannot be identified makes no request.
pub proof fn law_request_is_what_was_read(message: MessageView, relay: Option<RelayView>)
    ensures
        ({
            let request = request_of(message, relay);
            let identity = client_identity(message.options);
            &&& request is Ok <==> identity is Ok
            &&& request is Ok ==> {
                &&& request->Ok_0.message == message
                &&& request->Ok_0.relay == relay
                &&& request->Ok_0.duid == identity->Ok_0.0
                &&& request->Ok_0.duid_mac == identity->Ok_0.1
            }
            &&& request is Err ==> request->Err_0 == identity->Err_0
        }),
{
}

/// What follows from a request before anybody is asked is what a DPU does: it sends a reply, keeps
/// silent or refuses, without a question. Where there is a question, it sends something or refuses.
pub proof fn law_dpu_does_what_follows(
    request: RequestView,
    source: Seq<u8>,
    config: Config,
    interface: Seq<char>,
    dpu: Dpu,
    result: Result<Option<PacketV6>, DhcpError>,
)
    requires
        served(request, source, config, interface, dpu, result),
    ensures
        ({
            let step = first_step(request, source, config, interface, false);
            &&& step is Err ==> result is Err && result->Err_0@ == step->Err_0
            &&& step is Ok && step->Ok_0 is Reply ==> result is Ok && result->Ok_0 is Some
                && result->Ok_0->Some_0@ == step->Ok_0->Reply_0
            &&& result is Ok && result->Ok_0 is None <==> step is Ok && step->Ok_0 is Silent
        }),
{
}

/// Nobody is asked about a packet whose client message is of no type to ask about, and a CONFIRM, a
/// RELEASE and a DECLINE are none. So the name servers that could not be written into an answer are no
/// hindrance to those.
pub proof fn law_questions_are_about_types_to_ask_about(
    packet: Seq<u8>,
    message: MessageView,
    request: RequestView,
    source: Seq<u8>,
    config: Config,
    interface: Seq<char>,
    requires_relay: bool,
)
    requires
        message_of(client_octets(packet), message),
        request.message == message,
    ensures
        first_step(request, source, config, interface, requires_relay) matches Ok(StepView::Ask(_))
            ==> may_ask(packet),
        decided_here(message.msg_type) ==> !may_ask(packet),
{
}

/// A reply that tells a status fits an envelope.
proof fn lemma_status_reply_is_short(request: RequestView, status: u16, config: DhcpConfig)
    requires
        request.message.xid.len() == 3,
        request.duid.len() <= 0xff00,
    ensures
        message_octets(status_reply(request, status, config)).len() <= 0xffff,
{
    let options = status_reply(request, status, config).options;
    let first = options.skip(1);
    let second = first.skip(1);
    let third = second.skip(1);
    assert(third.len() == 0);
    assert(options_octets(third).len() == 0);
    assert(second[0] == options[2]);
    assert(first[0] == options[1]);
    assert(payload_octets(options[2]).len() == 2);
    assert(payload_octets(options[1]).len() == 10);
    assert(options_octets(second).len() == 6);
    assert(options_octets(first).len() == 20);
    assert(options[0] == OptionView::ClientId(request.duid));
    assert(payload_octets(options[0]) == request.duid);
    assert(options_octets(options).len() == 24 + request.duid.len());
}

} // verus!
