//! What a client reads in the octets that it is sent.

#[allow(unused_imports)]
use crate::{
    address::{bit_at, ipv6_parsed, network_parsed, same_network},
    bytes::{u16_octets, u32_octets},
    codec::{
        addresses, as_triple, joined, law_written_options_read_back, length_field, message_octets,
        ntp_suboption, options_octets, payload_octets, MessageView,
    },
    config::{Config, DhcpConfig},
    decode::RelayView,
    errors::ErrorView,
    exchange_laws::{
        as_association, has_association, law_addresses_are_the_iaaddr_options,
        law_associations_are_the_ia_na_options, lemma_has_association,
        lemma_numbered_first, lemma_numbered_none, lemma_only_one,
    },
    laws::{law_relay_reply_returns_the_envelope, refusal},
    message::OptionCode,
    modes::{OutcomeView, RecordView},
    names::{
        domain_name, in_wire_format, law_domain_stands_behind_the_first_dot,
        law_encoded_name_says_the_name, law_names_are_encoded_in_place,
        law_parent_of_encodable_name, name_octets, parent, without_end_dots,
    },
    options::{address_octets, ntp_addresses, NtpView, OptionView},
    packet_handler_v6::{first_step, refreshed, second_step, StepView},
    raw::{raw_options, RawView},
    reply::{
        assigned, base_options, fqdn_flags, fqdn_options, local_packet, mode_reply,
        name_server_options, reply_options, response_packet, search_options, status_reply,
        time_server_options, unassigned, PacketView,
    },
    request::{association, associations, server_duid, IaView, RequestView},
    service_laws::{lemma_counted, present, repeated},
};
use vstd::prelude::*;

verus! {

/// The client message in a packet: the packet itself, or what the last option of an envelope holds.
pub open spec fn message_inside(packet: Seq<u8>, relayed: bool) -> Seq<u8> {
    if relayed {
        raw_options(packet.skip(34))->Ok_0.last().data
    } else {
        packet
    }
}

/// Whether a packet that answers a relay is an envelope with a client message in it.
pub open spec fn well_enveloped(packet: Seq<u8>, relayed: bool) -> bool {
    relayed ==> {
        &&& packet.len() > 34
        &&& packet[0] == 13
        &&& raw_options(packet.skip(34)) is Ok
        &&& raw_options(packet.skip(34))->Ok_0.len() > 0
        &&& raw_options(packet.skip(34))->Ok_0.last().code == 9
    }
}

/// Whether a request holds a transaction of three octets and, where it was relayed, addresses of
/// sixteen.
pub open spec fn well_sized(request: RequestView) -> bool {
    &&& request.message.xid.len() == 3
    &&& request.relay matches Some(relay) ==> relay.link_address.len() == 16
        && relay.peer_address.len() == 16
}

/// The octets by which a server at this address is known: a DUID with the vendor's enterprise number.
pub open spec fn known_as(config: DhcpConfig) -> Seq<u8> {
    seq![0u8, 2, 0, 0, 0x16, 0x47] + config.carbide_dhcp_server@
}

/// A response is read back from its packet.
proof fn lemma_response_read(message: MessageView, request: RequestView)
    requires
        response_packet(message, request.relay) is Ok,
        message.xid.len() == 3,
        well_sized(request),
        forall|i: int| 0 <= i < message.options.len() ==> as_triple(#[trigger] message.options[i]).fits(),
    ensures
        ({
            let packet = response_packet(message, request.relay)->Ok_0.octets;
            let inside = message_inside(packet, request.relay is Some);
            &&& well_enveloped(packet, request.relay is Some)
            &&& inside == message_octets(message)
            &&& inside.len() >= 4
            &&& inside.subrange(1, 4) == message.xid
            &&& raw_options(inside.skip(4)) == Ok::<Seq<RawView>, Seq<char>>(
                message.options.map_values(|option: OptionView| as_triple(option)),
            )
        }),
{
    let octets = message_octets(message);
    if let Some(relay) = request.relay {
        law_relay_reply_returns_the_envelope(octets, relay);
        let packet = response_packet(message, request.relay)->Ok_0.octets;
        let options = raw_options(packet.skip(34))->Ok_0;
        assert(options.last() == RawView { code: 9, data: octets });
        if packet.len() <= 34 {
            assert(packet.skip(34).len() == 0);
        }
    }
    assert(octets.subrange(1, 4) == message.xid);
    assert(octets.skip(4) == options_octets(message.options));
    law_written_options_read_back(message.options);
}

/// The server's identifier in octets.
proof fn lemma_known_as(config: DhcpConfig)
    ensures
        server_duid(config) == known_as(config),
{
    assert(server_duid(config) =~= known_as(config));
}

/// A CONFIRM, a RELEASE or a DECLINE that is answered is answered with a REPLY of the client's own
/// transaction. Its options are the client's identifier, this server's identifier and a status, and
/// nothing else. A RELEASE and a DECLINE always succeed.
pub proof fn law_local_reply_answers_its_request(
    request: RequestView,
    config: Config,
    interface: Seq<char>,
)
    requires
        local_packet(request, config, interface) matches Ok(Some(_)),
        well_sized(request),
        request.duid.len() <= 0xffff,
    ensures
        ({
            let packet = local_packet(request, config, interface)->Ok_0->Some_0;
            let inside = message_inside(packet.octets, request.relay is Some);
            let read = raw_options(inside.skip(4));
            let kind = request.message.msg_type;
            &&& kind is Confirm || kind is Release || kind is Decline
            &&& packet.message_type is Reply
            &&& well_enveloped(packet.octets, request.relay is Some)
            &&& inside.len() >= 4
            &&& inside[0] == 7
            &&& inside.subrange(1, 4) == request.message.xid
            &&& read is Ok
            &&& read->Ok_0.len() == 3
            &&& read->Ok_0[0] == RawView { code: 1, data: request.duid }
            &&& read->Ok_0[1] == RawView { code: 2, data: known_as(config.dhcp_config) }
            &&& read->Ok_0[2].code == 13
            &&& read->Ok_0[2].data.len() == 2
            &&& kind is Release || kind is Decline ==> read->Ok_0[2].data == seq![0u8, 0u8]
        }),
{
    let packet = local_packet(request, config, interface)->Ok_0->Some_0;
    let status = choose|status: u16|
        response_packet(#[trigger] status_reply(request, status, config.dhcp_config), request.relay)
            == Ok::<PacketView, ErrorView>(packet) && (request.message.msg_type is Confirm || status
            == 0);
    lemma_status_read(request, config.dhcp_config, status);
    assert(u16_octets(0) == seq![0u8, 0u8]);
}

/// A packet that the first step replies with is such a reply: it carries the transaction of the
/// request and names the client and this server, once each.
pub proof fn law_first_step_replies_to_its_request(
    request: RequestView,
    source: Seq<u8>,
    config: Config,
    interface: Seq<char>,
    requires_relay: bool,
)
    requires
        first_step(request, source, config, interface, requires_relay) matches Ok(
            StepView::Reply(_),
        ),
        well_sized(request),
        request.duid.len() <= 0xffff,
    ensures
        ({
            let packet = first_step(
                request,
                source,
                config,
                interface,
                requires_relay,
            )->Ok_0->Reply_0;
            let inside = message_inside(packet.octets, request.relay is Some);
            let read = raw_options(inside.skip(4));
            &&& packet.message_type is Reply
            &&& well_enveloped(packet.octets, request.relay is Some)
            &&& inside.len() >= 4
            &&& inside[0] == 7
            &&& inside.subrange(1, 4) == request.message.xid
            &&& read is Ok
            &&& read->Ok_0.len() == 3
            &&& read->Ok_0[0] == RawView { code: 1, data: request.duid }
            &&& read->Ok_0[1] == RawView { code: 2, data: known_as(config.dhcp_config) }
            &&& read->Ok_0[2].code == 13
            &&& request.message.msg_type is Release || request.message.msg_type is Decline
                ==> read->Ok_0[2].data == seq![0u8, 0u8]
        }),
{
    law_local_reply_answers_its_request(request, config, interface);
}

/// Nothing but a CONFIRM, a RELEASE and a DECLINE is answered without asking, and a RELEASE and a
/// DECLINE that came directly always are.
pub proof fn law_lease_ends_are_answered_here(
    request: RequestView,
    config: Config,
    interface: Seq<char>,
)
    ensures
        ({
            let kind = request.message.msg_type;
            let packet = local_packet(request, config, interface);
            &&& !(kind is Confirm || kind is Release || kind is Decline) ==> packet == Err::<
                Option<PacketView>,
                ErrorView,
            >(ErrorView::UnhandledMessageTypeV6(kind))
            &&& (kind is Release || kind is Decline) && packet is Ok ==> packet->Ok_0 is Some
            &&& (kind is Release || kind is Decline) && request.relay is None ==> packet is Ok
        }),
{
}

/// What is read out of a reply that tells a status.
proof fn lemma_status_read(request: RequestView, config: DhcpConfig, status: u16)
    requires
        response_packet(status_reply(request, status, config), request.relay) is Ok,
        well_sized(request),
        request.duid.len() <= 0xffff,
    ensures
        ({
            let packet = response_packet(status_reply(request, status, config), request.relay)->Ok_0;
            let inside = message_inside(packet.octets, request.relay is Some);
            &&& packet.message_type is Reply
            &&& well_enveloped(packet.octets, request.relay is Some)
            &&& inside.len() >= 4
            &&& inside[0] == 7
            &&& inside.subrange(1, 4) == request.message.xid
            &&& raw_options(inside.skip(4)) == Ok::<Seq<RawView>, Seq<char>>(
                seq![
                    RawView { code: 1, data: request.duid },
                    RawView { code: 2, data: known_as(config) },
                    RawView { code: 13, data: u16_octets(status) },
                ],
            )
        }),
{
    let reply = status_reply(request, status, config);
    lemma_known_as(config);
    assert(payload_octets(reply.options[2]) == u16_octets(status));
    assert forall|i: int| 0 <= i < reply.options.len() implies as_triple(
        #[trigger] reply.options[i],
    ).fits() by {}
    lemma_response_read(reply, request);
    assert(reply.options.map_values(|option: OptionView| as_triple(option)) =~= seq![
        RawView { code: 1, data: request.duid },
        RawView { code: 2, data: known_as(config) },
        RawView { code: 13, data: u16_octets(status) },
    ]);
}

/// Whether two addresses agree in their first bits, as many as a prefix has.
pub open spec fn agree(left: Seq<u8>, right: Seq<u8>, prefix: int) -> bool {
    forall|at: int| 0 <= at < prefix ==> #[trigger] bit_at(left, at) == bit_at(right, at)
}

/// A CONFIRM is decided by the prefix of the interface that it came in on, whatever else is
/// configured for that interface: where the prefix is known, and the client's IA_NA lists an
/// address, the client is answered, with success if every listed address agrees with the network in
/// the bits of the prefix, and with NotOnLink if one does not. Where no address is listed the server
/// is silent.
#[verifier::spinoff_prover]
#[verifier::rlimit(40)]
pub proof fn law_confirm_is_decided_by_the_prefix(
    request: RequestView,
    source: Seq<u8>,
    config: Config,
    interface: Seq<char>,
    requires_relay: bool,
    ia: int,
    network: Seq<u8>,
    prefix: u8,
)
    requires
        request.message.msg_type is Confirm,
        first_step(request, source, config, interface, requires_relay) is Ok,
        well_sized(request),
        request.duid.len() <= 0xffff,
        config.host_config is Some,
        config.host_config->Some_0.host_ip_addresses.lookup(interface) is Some,
        config.host_config->Some_0.host_ip_addresses.lookup(interface)->Some_0.ipv6 is Some,
        network_parsed(
            config.host_config->Some_0.host_ip_addresses.lookup(
                interface,
            )->Some_0.ipv6->Some_0.prefix@,
        ) == Some((network, prefix)),
        0 <= ia < request.message.options.len(),
        request.message.options[ia] is IaNa,
    ensures
        ({
            let step = first_step(request, source, config, interface, requires_relay)->Ok_0;
            let listed = request.message.options[ia]->IaNa_options;
            let inside = message_inside(step->Reply_0.octets, request.relay is Some);
            let status = raw_options(inside.skip(4))->Ok_0[2];
            &&& step is Silent || step is Reply
            &&& step is Reply <==> exists|i: int|
                0 <= i < listed.len() && (#[trigger] listed[i]) is IaAddr
            &&& step is Reply ==> {
                &&& status.code == 13
                &&& (forall|i: int|
                    0 <= i < listed.len() && (#[trigger] listed[i]) is IaAddr ==> agree(
                        network,
                        listed[i]->IaAddr_address,
                        prefix as int,
                    )) ==> status.data == seq![0u8, 0u8]
                &&& !(forall|i: int|
                    0 <= i < listed.len() && (#[trigger] listed[i]) is IaAddr ==> agree(
                        network,
                        listed[i]->IaAddr_address,
                        prefix as int,
                    )) ==> status.data == seq![0u8, 4u8]
            }
        }),
{
    let options = request.message.options;
    let listed = options[ia]->IaNa_options;
    let found = addresses(listed);
    let is_ia = |option: OptionView| option is IaNa;
    law_associations_are_the_ia_na_options(options);
    lemma_only_one(options, ia, is_ia);
    assert(associations(options)[0] == as_association(options[ia]));
    lemma_listed(listed);
    let agreed = forall|i: int|
        0 <= i < listed.len() && (#[trigger] listed[i]) is IaAddr ==> agree(
            network,
            listed[i]->IaAddr_address,
            prefix as int,
        );
    if found.len() > 0 {
        assert forall|i: int| 0 <= i < found.len() implies same_network(
            network,
            #[trigger] found[i],
            prefix,
        ) <==> agree(network, found[i], prefix as int) by {}
        let all = forall|i: int|
            0 <= i < found.len() ==> same_network(network, #[trigger] found[i], prefix);
        if agreed {
            assert forall|i: int| 0 <= i < found.len() implies same_network(
                network,
                #[trigger] found[i],
                prefix,
            ) by {
                let at = choose|at: int|
                    0 <= at < listed.len() && (#[trigger] listed[at]) is IaAddr
                        && listed[at]->IaAddr_address == found[i];
                assert(agree(network, listed[at]->IaAddr_address, prefix as int));
            }
            lemma_status_read(request, config.dhcp_config, 0);
        } else {
            let at = choose|at: int|
                0 <= at < listed.len() && (#[trigger] listed[at]) is IaAddr && !agree(
                    network,
                    listed[at]->IaAddr_address,
                    prefix as int,
                );
            assert(found.contains(listed[at]->IaAddr_address));
            let i = choose|i: int| 0 <= i < found.len() && found[i] == listed[at]->IaAddr_address;
            assert(!same_network(network, found[i], prefix));
            assert(!all);
            lemma_status_read(request, config.dhcp_config, 4);
        }
        assert(u16_octets(0) == seq![0u8, 0u8]);
        assert(u16_octets(4) == seq![0u8, 4u8]);
    }
}

/// The addresses of a list are those that its IAADDR options tell.
proof fn lemma_listed(listed: Seq<OptionView>)
    ensures
        addresses(listed).len() > 0 <==> exists|i: int|
            0 <= i < listed.len() && (#[trigger] listed[i]) is IaAddr,
        forall|i: int|
            0 <= i < listed.len() && (#[trigger] listed[i]) is IaAddr ==> addresses(
                listed,
            ).contains(listed[i]->IaAddr_address),
        forall|k: int|
            0 <= k < addresses(listed).len() ==> exists|i: int|
                0 <= i < listed.len() && (#[trigger] listed[i]) is IaAddr
                    && listed[i]->IaAddr_address == #[trigger] addresses(listed)[k],
    decreases listed.len(),
{
    let found = addresses(listed);
    if listed.len() > 0 {
        let rest = listed.skip(1);
        lemma_listed(rest);
        let more = addresses(rest);
        let front = found.len() - more.len();
        assert forall|i: int| 0 <= i < listed.len() && (#[trigger] listed[i]) is IaAddr implies
            found.contains(listed[i]->IaAddr_address) by {
            if i == 0 {
                assert(found[0] == listed[0]->IaAddr_address);
            } else {
                assert(rest[i - 1] is IaAddr);
                let k = choose|k: int| 0 <= k < more.len() && more[k] == rest[i - 1]->IaAddr_address;
                assert(found[k + front] == more[k]);
            }
        }
        assert forall|k: int| 0 <= k < found.len() implies exists|i: int|
            0 <= i < listed.len() && (#[trigger] listed[i]) is IaAddr && listed[i]->IaAddr_address
                == #[trigger] found[k] by {
            if k < front {
                assert(listed[0] is IaAddr && listed[0]->IaAddr_address == found[k]);
            } else {
                assert(more[k - front] == found[k]);
                let i = choose|i: int|
                    0 <= i < rest.len() && (#[trigger] rest[i]) is IaAddr && rest[i]->IaAddr_address
                        == more[k - front];
                assert(listed[i + 1] is IaAddr && listed[i + 1]->IaAddr_address == found[k]);
            }
        }
        if found.len() > 0 {
            assert(found.contains(found[0]));
        }
    }
}

/// A CONFIRM is met with silence where the server knows no prefix for the interface that it came in
/// on, or where the client asks about no IA_NA.
pub proof fn law_confirm_without_a_prefix_is_silent(
    request: RequestView,
    source: Seq<u8>,
    config: Config,
    interface: Seq<char>,
    requires_relay: bool,
)
    requires
        request.message.msg_type is Confirm,
        first_step(request, source, config, interface, requires_relay) is Ok,
    ensures
        ({
            let silent = first_step(request, source, config, interface, requires_relay)->Ok_0
                is Silent;
            let host = config.host_config;
            let info = host->Some_0.host_ip_addresses.lookup(interface);
            &&& host is None ==> silent
            &&& host is Some && info is None ==> silent
            &&& host is Some && info is Some && info->Some_0.ipv6 is None ==> silent
            &&& host is Some && info is Some && info->Some_0.ipv6 is Some && network_parsed(
                info->Some_0.ipv6->Some_0.prefix@,
            ) is None ==> silent
            &&& !has_association(request.message.options) ==> silent
        }),
{
    lemma_has_association(request.message.options);
}

/// The options that a client reads in the answer to its request.
pub open spec fn answer_options(
    request: RequestView,
    outcome: OutcomeView,
    config: DhcpConfig,
) -> Seq<RawView> {
    let packet = second_step(request, outcome, config)->Ok_0.octets;
    raw_options(message_inside(packet, request.relay is Some).skip(4))->Ok_0
}

/// Whether every option of an answer fits its length field: the address in it is one of sixteen
/// octets.
pub open spec fn answer_fits(
    request: RequestView,
    outcome: OutcomeView,
    config: DhcpConfig,
) -> bool {
    &&& well_sized(request)
    &&& outcome matches OutcomeView::Stateful(record) ==> (ipv6_parsed(record.address) matches Some(
        address,
    ) ==> address.len() == 16)
    &&& request.duid.len() <= 0xffff
    &&& config.carbide_nameservers_v6@.len() < 0x1000
    &&& config.carbide_ntpservers_v6@.len() < 0xccd
}

/// The name that an answer goes by.
spec fn name_told(request: RequestView, outcome: OutcomeView) -> Seq<char> {
    match refreshed(request, outcome)->Ok_0 {
        OutcomeView::Stateful(record) => record.fqdn,
        OutcomeView::OptionsOnly(record) => record.fqdn,
        OutcomeView::NoAddress => Seq::empty(),
    }
}

/// The identity association of an answer.
spec fn association_told(request: RequestView, outcome: OutcomeView, config: DhcpConfig) -> Seq<
    OptionView,
> {
    let id = association(request.message.options)->Ok_0->Some_0.id;
    match refreshed(request, outcome)->Ok_0 {
        OutcomeView::Stateful(record) => seq![
            assigned(id, ipv6_parsed(record.address)->Some_0, config),
        ],
        OutcomeView::OptionsOnly(_) => Seq::empty(),
        OutcomeView::NoAddress => seq![unassigned(id, refusal(request.message.msg_type))],
    }
}

/// What an option of an answer holds, if the answer has it.
pub open spec fn told(read: Seq<RawView>, code: u16, data: Seq<u8>) -> bool {
    exists|i: int| 0 <= i < read.len() && #[trigger] read[i] == RawView { code, data }
}

/// Whether an answer has no option of a code.
pub open spec fn untold(read: Seq<RawView>, code: u16) -> bool {
    forall|i: int| 0 <= i < read.len() ==> (#[trigger] read[i]).code != code
}

/// Whether the options of an answer are of different codes, in ascending order, and of no codes but
/// those of the identifiers, the identity association, the servers and the names.
pub open spec fn in_code_order(read: Seq<RawView>) -> bool {
    &&& forall|i: int, j: int|
        0 <= i < j < read.len() ==> (#[trigger] read[i]).code < (#[trigger] read[j]).code
    &&& forall|i: int|
        0 <= i < read.len() ==> {
            let code = (#[trigger] read[i]).code;
            code == 1 || code == 2 || code == 3 || code == 23 || code == 24 || code == 39 || code
                == 56
        }
}

/// How long equal parts are together.
proof fn lemma_joined_len(parts: Seq<Seq<u8>>, size: int)
    requires
        forall|i: int| 0 <= i < parts.len() ==> (#[trigger] parts[i]).len() == size,
    ensures
        joined(parts).len() == size * parts.len(),
    decreases parts.len(),
{
    if parts.len() > 0 {
        let rest = parts.skip(1);
        assert forall|i: int| 0 <= i < rest.len() implies (#[trigger] rest[i]).len() == size by {
            assert(parts[i + 1].len() == size);
        }
        lemma_joined_len(rest, size);
        assert(parts[0].len() == size);
        assert(size * parts.len() == size + size * rest.len()) by (nonlinear_arith)
            requires
                rest.len() == parts.len() - 1,
        ;
    } else {
        assert(size * parts.len() == 0) by (nonlinear_arith)
            requires
                parts.len() == 0,
        ;
    }
}

/// Where one of several equal parts stands.
proof fn lemma_joined_at(parts: Seq<Seq<u8>>, size: int, at: int)
    requires
        size > 0,
        forall|i: int| 0 <= i < parts.len() ==> (#[trigger] parts[i]).len() == size,
        0 <= at < parts.len(),
    ensures
        0 <= size * at,
        size * at + size <= joined(parts).len(),
        joined(parts).subrange(size * at, size * at + size) == parts[at],
    decreases parts.len(),
{
    let rest = parts.skip(1);
    let all = joined(parts);
    assert(parts[0].len() == size);
    if at == 0 {
        assert(size * at == 0) by (nonlinear_arith)
            requires
                at == 0,
        ;
        assert(all.subrange(0, size) =~= parts[0]);
    } else {
        assert forall|i: int| 0 <= i < rest.len() implies (#[trigger] rest[i]).len() == size by {
            assert(parts[i + 1].len() == size);
        }
        lemma_joined_at(rest, size, at - 1);
        assert(size * at == size * (at - 1) + size) by (nonlinear_arith);
        assert(all.subrange(size * at, size * at + size) =~= joined(rest).subrange(
            size * (at - 1),
            size * (at - 1) + size,
        ));
    }
}

/// What the options of an answer are.
proof fn lemma_answer_read(request: RequestView, outcome: OutcomeView, config: DhcpConfig)
    requires
        second_step(request, outcome, config) is Ok,
        answer_fits(request, outcome, config),
    ensures
        ({
            let packet = second_step(request, outcome, config)->Ok_0;
            let inside = message_inside(packet.octets, request.relay is Some);
            let options = reply_options(
                request,
                association_told(request, outcome, config),
                name_told(request, outcome),
                config,
            );
            &&& packet.message_type is Advertise <==> request.message.msg_type is Solicit
            &&& well_enveloped(packet.octets, request.relay is Some)
            &&& inside.len() >= 4
            &&& inside[0] == (if request.message.msg_type is Solicit {
                2u8
            } else {
                7u8
            })
            &&& inside.subrange(1, 4) == request.message.xid
            &&& raw_options(inside.skip(4)) == Ok::<Seq<RawView>, Seq<char>>(
                options.map_values(|option: OptionView| as_triple(option)),
            )
        }),
{
    let settled = refreshed(request, outcome)->Ok_0;
    let reply = mode_reply(request, settled, config)->Ok_0;
    let fqdn = name_told(request, outcome);
    let association = association_told(request, outcome, config);
    let options = reply_options(request, association, fqdn, config);
    assert(reply.options == options);
    let dns = name_server_options(config);
    let ntp = time_server_options(config);
    let search = search_options(fqdn);
    let name = fqdn_options(fqdn, fqdn_flags(request.message.options));
    if association.len() > 0 {
        lemma_association_octets(association[0]);
    }
    lemma_servers_octets(config);
    if fqdn.len() > 0 {
        let octets = vstd::utf8::encode_utf8(fqdn);
        law_encoded_name_says_the_name(octets);
        if parent(octets) is Some {
            law_parent_of_encodable_name(octets);
            law_encoded_name_says_the_name(parent(octets)->Some_0);
        }
    }
    assert forall|i: int| 0 <= i < options.len() implies as_triple(
        #[trigger] options[i],
    ).fits() by {
        let option = options[i];
        let base = base_options(request, config);
        assert(base.contains(option) || association.contains(option) || dns.contains(option)
            || search.contains(option) || name.contains(option) || ntp.contains(option)) by {
            lemma_in_parts(request, association, fqdn, config, i);
        }
        assert(server_duid(config).len() == 10);
    }
    lemma_response_read(reply, request);
}

/// Every option of a reply stands in one of its parts.
proof fn lemma_in_parts(
    request: RequestView,
    association: Seq<OptionView>,
    fqdn: Seq<char>,
    config: DhcpConfig,
    i: int,
)
    requires
        0 <= i < reply_options(request, association, fqdn, config).len(),
    ensures
        ({
            let option = reply_options(request, association, fqdn, config)[i];
            ||| base_options(request, config).contains(option)
            ||| association.contains(option)
            ||| name_server_options(config).contains(option)
            ||| search_options(fqdn).contains(option)
            ||| fqdn_options(fqdn, fqdn_flags(request.message.options)).contains(option)
            ||| time_server_options(config).contains(option)
        }),
{
    let base = base_options(request, config);
    let dns = name_server_options(config);
    let ntp = time_server_options(config);
    let search = search_options(fqdn);
    let name = fqdn_options(fqdn, fqdn_flags(request.message.options));
    let one = base.len() as int;
    let two = one + association.len();
    let three = two + dns.len();
    let four = three + search.len();
    let five = four + name.len();
    let option = reply_options(request, association, fqdn, config)[i];
    if i < one {
        assert(base[i] == option);
    } else if i < two {
        assert(association[i - one] == option);
    } else if i < three {
        assert(dns[i - two] == option);
    } else if i < four {
        assert(search[i - three] == option);
    } else if i < five {
        assert(name[i - four] == option);
    } else {
        assert(ntp[i - five] == option);
    }
}

/// The octets of an identity association with one option in it.
proof fn lemma_association_octets(given: OptionView)
    requires
        given is IaNa,
        given->IaNa_t1 == 0,
        given->IaNa_t2 == 0,
        given->IaNa_options.len() == 1,
        match given->IaNa_options[0] {
            OptionView::IaAddr { address, options, .. } => options.len() == 0 && address.len() == 16,
            OptionView::StatusCode { text, .. } => text.len() == 0,
            _ => false,
        },
    ensures
        payload_octets(given).len() <= 40,
        payload_octets(given) == u32_octets(given->IaNa_id) + seq![0u8, 0, 0, 0, 0, 0, 0, 0] + (
        match given->IaNa_options[0] {
            OptionView::IaAddr { address, preferred_life, valid_life, .. } => seq![0u8, 5, 0, 24]
                + address + u32_octets(preferred_life) + u32_octets(valid_life),
            OptionView::StatusCode { status, .. } => seq![0u8, 13, 0, 2] + u16_octets(status),
            _ => Seq::empty(),
        }),
{
    let inside = given->IaNa_options;
    let payload = payload_octets(inside[0]);
    match inside[0] {
        OptionView::IaAddr { address, preferred_life, valid_life, options } => {
            assert(options_octets(options) == Seq::<u8>::empty());
            assert(payload == address + u32_octets(preferred_life) + u32_octets(valid_life));
        },
        OptionView::StatusCode { status, text } => {
            assert(payload == u16_octets(status));
        },
        _ => {},
    }
    assert(inside.skip(1).len() == 0);
    assert(options_octets(inside.skip(1)) == Seq::<u8>::empty());
    assert(u32_octets(0) == seq![0u8, 0, 0, 0]);
    assert(u16_octets(5) == seq![0u8, 5]);
    assert(u16_octets(13) == seq![0u8, 13]);
    assert(u16_octets(24) == seq![0u8, 24]);
    assert(u16_octets(2) == seq![0u8, 2]);
    assert(options_octets(inside) == u16_octets(inside[0].number()) + length_field(payload.len())
        + payload);
    assert(payload_octets(given) == u32_octets(given->IaNa_id) + u32_octets(0) + u32_octets(0)
        + options_octets(inside));
    match inside[0] {
        OptionView::IaAddr { address, preferred_life, valid_life, options } => {
            assert(payload_octets(given) =~= u32_octets(given->IaNa_id) + seq![
                0u8, 0, 0, 0, 0, 0, 0, 0,
            ] + (seq![0u8, 5, 0, 24] + address + u32_octets(preferred_life) + u32_octets(valid_life)));
        },
        OptionView::StatusCode { status, text } => {
            assert(payload_octets(given) =~= u32_octets(given->IaNa_id) + seq![
                0u8, 0, 0, 0, 0, 0, 0, 0,
            ] + (seq![0u8, 13, 0, 2] + u16_octets(status)));
        },
        _ => {},
    }
}

/// The octets of the options that tell of servers.
proof fn lemma_servers_octets(config: DhcpConfig)
    ensures
        ({
            let dns = config.carbide_nameservers_v6@;
            let ntp = config.carbide_ntpservers_v6@;
            &&& dns.len() > 0 ==> {
                let data = payload_octets(name_server_options(config)[0]);
                &&& data.len() == 16 * dns.len()
                &&& forall|i: int|
                    0 <= i < dns.len() ==> data.subrange(16 * i, 16 * i + 16) == (
                    #[trigger] dns[i])@
            }
            &&& ntp.len() > 0 ==> {
                let data = payload_octets(time_server_options(config)[0]);
                &&& data.len() == 20 * ntp.len()
                &&& forall|i: int|
                    0 <= i < ntp.len() ==> data.subrange(20 * i, 20 * i + 20) == time_suboption(
                        #[trigger] ntp[i]@,
                    )
            }
        }),
{
    let dns = config.carbide_nameservers_v6@;
    let ntp = config.carbide_ntpservers_v6@;
    if dns.len() > 0 {
        let parts = address_octets(dns);
        assert(payload_octets(name_server_options(config)[0]) == joined(parts));
        lemma_joined_len(parts, 16);
        let data = joined(parts);
        assert forall|i: int| 0 <= i < dns.len() implies data.subrange(16 * i, 16 * i + 16) == (
        #[trigger] dns[i])@ by {
            assert(parts[i] == dns[i]@);
            lemma_joined_at(parts, 16, i);
        }
    }
    if ntp.len() > 0 {
        let servers = ntp_addresses(ntp);
        let parts = servers.map_values(|server: NtpView| ntp_suboption(server));
        assert(payload_octets(time_server_options(config)[0]) == joined(parts));
        assert forall|i: int| 0 <= i < parts.len() implies #[trigger] parts[i] == time_suboption(
            ntp[i]@,
        ) && parts[i].len() == 20 by {
            assert(servers[i] == NtpView::Address(ntp[i]@));
            assert(u16_octets(1) == seq![0u8, 1]);
            assert(u16_octets(2) == seq![0u8, 2]);
            assert(u16_octets(16) == seq![0u8, 16]);
            assert(parts[i] =~= time_suboption(ntp[i]@));
        }
        lemma_joined_len(parts, 20);
        let data = joined(parts);
        assert forall|i: int| 0 <= i < ntp.len() implies data.subrange(20 * i, 20 * i + 20)
            == time_suboption(#[trigger] ntp[i]@) by {
            assert(parts[i] == time_suboption(ntp[i]@));
            lemma_joined_at(parts, 20, i);
        }
    }
}

/// One time server in octets: an address, as a unicast or, where it is one, a multicast address.
spec fn time_suboption(address: Seq<u8>) -> Seq<u8> {
    seq![
        0u8,
        if address[0] == 0xff {
            2
        } else {
            1
        },
        0,
        16,
    ] + address
}

/// What stands where in an answer.
proof fn lemma_answer_layout(request: RequestView, outcome: OutcomeView, config: DhcpConfig)
    requires
        second_step(request, outcome, config) is Ok,
        answer_fits(request, outcome, config),
    ensures
        ({
            let read = answer_options(request, outcome, config);
            let given = association_told(request, outcome, config);
            let fqdn = name_told(request, outcome);
            let dns = name_server_options(config);
            let search = search_options(fqdn);
            let name = fqdn_options(fqdn, fqdn_flags(request.message.options));
            let ntp = time_server_options(config);
            &&& in_code_order(read)
            &&& told(read, 1, request.duid)
            &&& told(read, 2, known_as(config))
            &&& given.len() == 0 ==> untold(read, 3)
            &&& given.len() > 0 ==> told(read, 3, payload_octets(given[0]))
            &&& dns.len() == 0 ==> untold(read, 23)
            &&& dns.len() > 0 ==> told(read, 23, payload_octets(dns[0]))
            &&& search.len() == 0 ==> untold(read, 24)
            &&& search.len() > 0 ==> told(read, 24, payload_octets(search[0]))
            &&& name.len() == 0 ==> untold(read, 39)
            &&& name.len() > 0 ==> told(read, 39, payload_octets(name[0]))
            &&& ntp.len() == 0 ==> untold(read, 56)
            &&& ntp.len() > 0 ==> told(read, 56, payload_octets(ntp[0]))
        }),
{
    lemma_answer_read(request, outcome, config);
    lemma_known_as(config);
    let read = answer_options(request, outcome, config);
    let given = association_told(request, outcome, config);
    let fqdn = name_told(request, outcome);
    let dns = name_server_options(config);
    let search = search_options(fqdn);
    let name = fqdn_options(fqdn, fqdn_flags(request.message.options));
    let ntp = time_server_options(config);
    let options = reply_options(request, given, fqdn, config);
    let base = seq![
        RawView { code: 1, data: request.duid },
        RawView { code: 2, data: known_as(config) },
    ];
    assert(read =~= base + triples(given) + triples(dns) + triples(search) + triples(name)
        + triples(ntp));
    lemma_layout(
        read,
        base,
        triples(given),
        triples(dns),
        triples(search),
        triples(name),
        triples(ntp),
    );
}

/// What the options of a list look like to a reader that gives them no meaning.
spec fn triples(options: Seq<OptionView>) -> Seq<RawView> {
    options.map_values(|option: OptionView| as_triple(option))
}

/// A part of an answer: at most one option, of a known code.
spec fn optional_part(part: Seq<RawView>, code: u16) -> bool {
    part.len() == 0 || part.len() == 1 && part[0].code == code
}

/// A part of an answer stands in it, or nothing of its code does.
spec fn part_told(read: Seq<RawView>, part: Seq<RawView>, code: u16) -> bool {
    &&& part.len() == 0 ==> untold(read, code)
    &&& part.len() > 0 ==> told(read, code, part[0].data)
}

/// Parts in ascending order are told in order.
proof fn lemma_layout(
    read: Seq<RawView>,
    base: Seq<RawView>,
    given: Seq<RawView>,
    dns: Seq<RawView>,
    search: Seq<RawView>,
    name: Seq<RawView>,
    ntp: Seq<RawView>,
)
    requires
        read == base + given + dns + search + name + ntp,
        base.len() == 2,
        base[0].code == 1,
        base[1].code == 2,
        optional_part(given, 3),
        optional_part(dns, 23),
        optional_part(search, 24),
        optional_part(name, 39),
        optional_part(ntp, 56),
    ensures
        in_code_order(read),
        told(read, 1, base[0].data),
        told(read, 2, base[1].data),
        part_told(read, given, 3),
        part_told(read, dns, 23),
        part_told(read, search, 24),
        part_told(read, name, 39),
        part_told(read, ntp, 56),
{
    let two = 2 + given.len() as int;
    let three = two + dns.len();
    let four = three + search.len();
    let five = four + name.len();
    assert(read.len() == five + ntp.len());
    assert(read[0] == base[0]);
    assert(read[1] == base[1]);
    assert(given.len() > 0 ==> read[2] == given[0]);
    assert(dns.len() > 0 ==> read[two] == dns[0]);
    assert(search.len() > 0 ==> read[three] == search[0]);
    assert(name.len() > 0 ==> read[four] == name[0]);
    assert(ntp.len() > 0 ==> read[five] == ntp[0]);
}

/// An answer continues the client's exchange: it is an ADVERTISE for a SOLICIT and a REPLY for
/// anything else, it carries the client's transaction, it names the client and this server, each
/// once, and no option stands in it twice. Where the request was relayed it stands in an envelope.
pub proof fn law_answer_continues_the_exchange(
    request: RequestView,
    outcome: OutcomeView,
    config: DhcpConfig,
)
    requires
        second_step(request, outcome, config) is Ok,
        answer_fits(request, outcome, config),
    ensures
        ({
            let packet = second_step(request, outcome, config)->Ok_0;
            let inside = message_inside(packet.octets, request.relay is Some);
            let read = answer_options(request, outcome, config);
            &&& packet.message_type is Advertise <==> request.message.msg_type is Solicit
            &&& well_enveloped(packet.octets, request.relay is Some)
            &&& inside.len() >= 4
            &&& inside[0] == (if request.message.msg_type is Solicit {
                2u8
            } else {
                7u8
            })
            &&& inside.subrange(1, 4) == request.message.xid
            &&& raw_options(inside.skip(4)) is Ok
            &&& in_code_order(read)
            &&& told(read, 1, request.duid)
            &&& told(read, 2, known_as(config))
        }),
{
    lemma_answer_read(request, outcome, config);
    lemma_answer_layout(request, outcome, config);
}

/// Whether a time server is told at a place: its kind, which is that of a multicast or of a unicast
/// address, the length of an address, and the address.
pub open spec fn time_server_at(data: Seq<u8>, at: int, server: Seq<u8>) -> bool {
    &&& data[at] == 0
    &&& data[at + 1] == (if server[0] == 0xff {
        2u8
    } else {
        1u8
    })
    &&& data[at + 2] == 0
    &&& data[at + 3] == 16
    &&& data.subrange(at + 4, at + 20) == server
}

/// Every configured server is told, in the configured order: an answer has the option of the name
/// servers exactly when there are any, with sixteen octets for each, and the octets at the place of
/// a server are those of its address. So it is with the time servers, each behind its kind and its
/// length.
pub proof fn law_answer_tells_the_servers(
    request: RequestView,
    outcome: OutcomeView,
    config: DhcpConfig,
    at: int,
)
    requires
        second_step(request, outcome, config) is Ok,
        answer_fits(request, outcome, config),
        0 <= at < answer_options(request, outcome, config).len(),
    ensures
        ({
            let read = answer_options(request, outcome, config);
            let data = read[at].data;
            let dns = config.carbide_nameservers_v6@;
            let ntp = config.carbide_ntpservers_v6@;
            &&& untold(read, 23) <==> dns.len() == 0
            &&& untold(read, 56) <==> ntp.len() == 0
            &&& read[at].code == 23 ==> {
                &&& data.len() == 16 * dns.len()
                &&& forall|i: int|
                    0 <= i < dns.len() ==> data.subrange(16 * i, 16 * i + 16) == (
                    #[trigger] dns[i])@
            }
            &&& read[at].code == 56 ==> {
                &&& data.len() == 20 * ntp.len()
                &&& forall|i: int|
                    0 <= i < ntp.len() ==> time_server_at(data, 20 * i, (#[trigger] ntp[i])@)
            }
        }),
{
    let read = answer_options(request, outcome, config);
    let data = read[at].data;
    let dns = config.carbide_nameservers_v6@;
    let ntp = config.carbide_ntpservers_v6@;
    lemma_answer_layout(request, outcome, config);
    lemma_servers_octets(config);
    assert(read[at].code == 23 ==> !untold(read, 23));
    assert(read[at].code == 56 ==> !untold(read, 56));
    if dns.len() > 0 {
        let place = choose|i: int|
            0 <= i < read.len() && #[trigger] read[i] == (RawView {
                code: 23,
                data: payload_octets(name_server_options(config)[0]),
            });
        assert(read[place].code == 23);
        if read[at].code == 23 {
            lemma_one_of_a_code(read, at, place);
        }
    }
    if ntp.len() > 0 {
        let place = choose|i: int|
            0 <= i < read.len() && #[trigger] read[i] == (RawView {
                code: 56,
                data: payload_octets(time_server_options(config)[0]),
            });
        assert(read[place].code == 56);
        if read[at].code == 56 {
            lemma_one_of_a_code(read, at, place);
            assert forall|i: int| 0 <= i < ntp.len() implies time_server_at(
                data,
                20 * i,
                (#[trigger] ntp[i])@,
            ) by {
                let part = data.subrange(20 * i, 20 * i + 20);
                assert(part == time_suboption(ntp[i]@));
                assert(part[0] == data[20 * i]);
                assert(part[1] == data[20 * i + 1]);
                assert(part[2] == data[20 * i + 2]);
                assert(part[3] == data[20 * i + 3]);
                assert(data.subrange(20 * i + 4, 20 * i + 20) =~= part.subrange(4, 20));
                assert(part.subrange(4, 20) =~= ntp[i]@);
            }
        }
    }
}

/// No two options of an answer have one code.
proof fn lemma_one_of_a_code(read: Seq<RawView>, left: int, right: int)
    requires
        in_code_order(read),
        0 <= left < read.len(),
        0 <= right < read.len(),
        read[left].code == read[right].code,
    ensures
        left == right,
{
}

/// Whether a message lists an address in its IA_NA at `ia`.
pub open spec fn lists(options: Seq<OptionView>, ia: int, address: Seq<u8>) -> bool {
    exists|i: int|
        0 <= i < options[ia]->IaNa_options.len() && (
        #[trigger] options[ia]->IaNa_options[i]) is IaAddr
            && options[ia]->IaNa_options[i]->IaAddr_address == address
}

/// Whether a client is given the address that is bound to it: a RENEW or a REBIND is given the
/// address only if it lists it.
pub open spec fn granted(request: RequestView, outcome: OutcomeView, ia: int) -> bool {
    &&& outcome matches OutcomeView::Stateful(record)
    &&& ipv6_parsed(record.address) is Some
    &&& request.message.msg_type is Renew || request.message.msg_type is Rebind ==> lists(
        request.message.options,
        ia,
        ipv6_parsed(record.address)->Some_0,
    )
}

/// What an address is refreshed for.
proof fn lemma_granted(request: RequestView, outcome: OutcomeView, config: DhcpConfig, ia: int)
    requires
        second_step(request, outcome, config) is Ok,
        0 <= ia < request.message.options.len(),
        request.message.options[ia] is IaNa,
        !(outcome is OptionsOnly),
    ensures
        association(request.message.options) == Ok::<Option<IaView>, ErrorView>(
            Some(as_association(request.message.options[ia])),
        ),
        refreshed(request, outcome) == Ok::<OutcomeView, ErrorView>(
            if granted(request, outcome, ia) {
                outcome
            } else {
                OutcomeView::NoAddress
            },
        ),
{
    let options = request.message.options;
    let is_ia = |option: OptionView| option is IaNa;
    law_associations_are_the_ia_na_options(options);
    lemma_only_one(options, ia, is_ia);
    assert(associations(options)[0] == as_association(options[ia]));
    let listed = options[ia]->IaNa_options;
    let found = addresses(listed);
    lemma_listed(listed);
    let refreshes = request.message.msg_type is Renew || request.message.msg_type is Rebind;
    if let OutcomeView::Stateful(record) = outcome {
        if refreshes && found.len() == 1 {
            let at = choose|at: int|
                0 <= at < listed.len() && (#[trigger] listed[at]) is IaAddr
                    && listed[at]->IaAddr_address == found[0];
            assert(lists(options, ia, found[0]));
            let address = ipv6_parsed(record.address)->Some_0;
            if lists(options, ia, address) {
                assert(found.contains(address));
            }
        }
        if refreshes && found.len() == 0 {
            let address = ipv6_parsed(record.address)->Some_0;
            if lists(options, ia, address) {
                assert(found.contains(address));
            }
        }
    }
}

/// The identity association of an answer is the client's: it has the number of the client's IA_NA
/// and leaves the times of renewal to the client. A client that is given its address reads that
/// address, with the configured lifetimes. A client that is not reads why: that there is no address
/// for its SOLICIT or REQUEST, or that its RENEW or REBIND names no address bound to it. An answer
/// about options alone has no identity association.
pub proof fn law_answer_tells_the_lease(
    request: RequestView,
    outcome: OutcomeView,
    config: DhcpConfig,
    ia: int,
)
    requires
        second_step(request, outcome, config) is Ok,
        answer_fits(request, outcome, config),
    ensures
        ({
            let read = answer_options(request, outcome, config);
            let options = request.message.options;
            let kind = request.message.msg_type;
            let head = u32_octets(options[ia]->IaNa_id) + seq![0u8, 0, 0, 0, 0, 0, 0, 0];
            &&& outcome is OptionsOnly ==> untold(read, 3)
            &&& !(outcome is OptionsOnly) ==> has_association(options)
            &&& !(outcome is OptionsOnly) && 0 <= ia < options.len() && options[ia] is IaNa
                && granted(request, outcome, ia) ==> told(
                read,
                3,
                head + seq![0u8, 5, 0, 24] + ipv6_parsed(outcome->Stateful_0.address)->Some_0
                    + u32_octets(config.dhcpv6_preferred_lifetime_secs) + u32_octets(
                    config.dhcpv6_valid_lifetime_secs,
                ),
            )
            &&& !(outcome is OptionsOnly) && 0 <= ia < options.len() && options[ia] is IaNa
                && !granted(request, outcome, ia) ==> told(
                read,
                3,
                head + seq![
                    0u8,
                    13,
                    0,
                    2,
                    0,
                    if kind is Solicit || kind is Request {
                        2
                    } else {
                        3
                    },
                ],
            )
        }),
{
    let read = answer_options(request, outcome, config);
    let options = request.message.options;
    let kind = request.message.msg_type;
    let head = u32_octets(options[ia]->IaNa_id) + seq![0u8, 0, 0, 0, 0, 0, 0, 0];
    lemma_answer_layout(request, outcome, config);
    lemma_has_association(options);
    if !(outcome is OptionsOnly) && 0 <= ia < options.len() && options[ia] is IaNa {
        lemma_granted(request, outcome, config, ia);
        let given = association_told(request, outcome, config)[0];
        lemma_association_octets(given);
        if granted(request, outcome, ia) {
            assert(payload_octets(given) =~= head + seq![0u8, 5, 0, 24] + ipv6_parsed(
                outcome->Stateful_0.address,
            )->Some_0 + u32_octets(config.dhcpv6_preferred_lifetime_secs) + u32_octets(
                config.dhcpv6_valid_lifetime_secs,
            ));
        } else {
            assert(u16_octets(2) == seq![0u8, 2]);
            assert(u16_octets(3) == seq![0u8, 3]);
            assert(payload_octets(given) =~= head + seq![
                0u8,
                13,
                0,
                2,
                0,
                if kind is Solicit || kind is Request {
                    2
                } else {
                    3
                },
            ]);
        }
    }
}

/// The record that an answer goes by: that of a client that is given its address, or of one that
/// only asks for options.
pub open spec fn record_told(request: RequestView, outcome: OutcomeView, ia: int) -> Option<
    RecordView,
> {
    match outcome {
        OutcomeView::OptionsOnly(record) => Some(record),
        OutcomeView::Stateful(record) if granted(request, outcome, ia) => Some(record),
        _ => None,
    }
}

/// A client is told the domain of its name, whether or not it asks: the name behind the first dot of
/// `whole`, which is at `dot`. It is told its name where it sent a name of its own: behind the flags
/// that it sent, in its first option of that code, at `sent`. A client without a name is told
/// neither.
#[verifier::spinoff_prover]
#[verifier::rlimit(40)]
pub proof fn law_answer_tells_the_names(
    request: RequestView,
    outcome: OutcomeView,
    config: DhcpConfig,
    ia: int,
    whole: Seq<u8>,
    dot: int,
    sent: int,
)
    requires
        second_step(request, outcome, config) is Ok,
        answer_fits(request, outcome, config),
        !(outcome is OptionsOnly) ==> 0 <= ia < request.message.options.len()
            && request.message.options[ia] is IaNa,
    ensures
        ({
            let read = answer_options(request, outcome, config);
            let options = request.message.options;
            let record = record_told(request, outcome, ia);
            let named = record is Some && record->Some_0.fqdn.len() > 0;
            let first_sent = 0 <= sent < options.len() && options[sent].number() == 39 && (forall|
                i: int,
            |
                0 <= i < sent ==> (#[trigger] options[i]).number() != 39);
            let flagged = first_sent && options[sent] is Unknown
                && options[sent]->Unknown_data.len() > 0;
            &&& !named ==> untold(read, 24) && untold(read, 39)
            &&& named && without_end_dots(
                vstd::utf8::encode_utf8(record->Some_0.fqdn),
                whole,
            ) ==> {
                &&& (forall|i: int| 0 <= i < whole.len() ==> (#[trigger] whole[i]) != 0x2e)
                    ==> untold(read, 24)
                &&& 0 <= dot < whole.len() && whole[dot] == 0x2e && (forall|i: int|
                    0 <= i < dot ==> (#[trigger] whole[i]) != 0x2e) ==> exists|at: int|
                    {
                        &&& 0 <= at < read.len()
                        &&& (#[trigger] read[at]).code == 24
                        &&& in_wire_format(whole.skip(dot + 1), read[at].data)
                    }
                &&& (forall|i: int|
                    0 <= i < options.len() ==> (#[trigger] options[i]).number() != 39) ==> untold(
                    read,
                    39,
                )
                &&& first_sent && !flagged ==> untold(read, 39)
                &&& flagged ==> exists|at: int|
                    {
                        &&& 0 <= at < read.len()
                        &&& (#[trigger] read[at]).code == 39
                        &&& read[at].data.len() > 0
                        &&& read[at].data[0] == options[sent]->Unknown_data[0]
                        &&& in_wire_format(whole, read[at].data.skip(1))
                    }
            }
        }),
{
    let read = answer_options(request, outcome, config);
    let options = request.message.options;
    let record = record_told(request, outcome, ia);
    let fqdn = name_told(request, outcome);
    lemma_answer_layout(request, outcome, config);
    if !(outcome is OptionsOnly) {
        lemma_granted(request, outcome, config, ia);
    }
    let named = record is Some && record->Some_0.fqdn.len() > 0;
    let name = vstd::utf8::encode_utf8(fqdn);
    assert(named ==> record->Some_0.fqdn == fqdn);
    assert(!named ==> fqdn.len() == 0);
    if named && without_end_dots(name, whole) {
        law_domain_stands_behind_the_first_dot(name, whole, dot);
        law_names_are_encoded_in_place(name, whole);
        assert(name_octets(name) is Ok);
        if 0 <= dot < whole.len() && whole[dot] == 0x2e && (forall|i: int|
            0 <= i < dot ==> (#[trigger] whole[i]) != 0x2e) {
            let domain = whole.skip(dot + 1);
            law_parent_of_encodable_name(name);
            assert(without_end_dots(domain, domain)) by {
                assert(domain.take(domain.len() as int) == domain);
                if domain.len() > 0 {
                    assert(domain[domain.len() - 1] == whole[whole.len() - 1]);
                }
            }
            law_names_are_encoded_in_place(domain, domain);
            let data = payload_octets(search_options(fqdn)[0]);
            let at = choose|i: int|
                0 <= i < read.len() && #[trigger] read[i] == (RawView { code: 24, data });
            assert(read[at].code == 24);
        }
        let first_sent = 0 <= sent < options.len() && options[sent].number() == 39 && (forall|
            i: int,
        |
            0 <= i < sent ==> (#[trigger] options[i]).number() != 39);
        if first_sent {
            lemma_numbered_first(options, sent, 39);
            if options[sent] is Unknown && options[sent]->Unknown_data.len() > 0 {
                let data = payload_octets(fqdn_options(fqdn, fqdn_flags(options))[0]);
                assert(data.skip(1) == name_octets(name)->Ok_0);
                let at = choose|i: int|
                    0 <= i < read.len() && #[trigger] read[i] == (RawView { code: 39, data });
                assert(read[at].code == 39);
            }
        }
        if forall|i: int| 0 <= i < options.len() ==> (#[trigger] options[i]).number() != 39 {
            lemma_numbered_none(options, 39);
        }
    }
}

/// Whether a name can be told: there is none, or it can be encoded.
pub open spec fn tellable(fqdn: Seq<char>) -> bool {
    fqdn.len() == 0 || name_octets(vstd::utf8::encode_utf8(fqdn)) is Ok
}

/// When an answer is owed to a client that asked directly. A client that asks for options is owed
/// one if its name can be told. One with a bound address and a single IA_NA is owed one if moreover
/// the address is one and the lifetimes are usable, whether it is then given the address or not; and
/// one without an address, if it is in an exchange about addresses.
pub proof fn law_answer_is_owed(
    request: RequestView,
    outcome: OutcomeView,
    config: DhcpConfig,
    ia: int,
)
    requires
        request.relay is None,
        0 <= ia < request.message.options.len(),
        request.message.options[ia] is IaNa,
        !repeated(request.message.options, |option: OptionView| option is IaNa),
        !repeated(
            request.message.options[ia]->IaNa_options,
            |option: OptionView| option is IaAddr,
        ),
    ensures
        ({
            let answered = second_step(request, outcome, config) is Ok;
            let kind = request.message.msg_type;
            let refreshes = kind is Renew || kind is Rebind;
            let preferred = config.dhcpv6_preferred_lifetime_secs;
            let valid = config.dhcpv6_valid_lifetime_secs;
            match outcome {
                OutcomeView::OptionsOnly(record) => answered <==> tellable(record.fqdn),
                OutcomeView::Stateful(record) => {
                    &&& granted(request, outcome, ia) ==> (answered <==> tellable(record.fqdn) && 0
                        < preferred <= valid)
                    &&& refreshes && ipv6_parsed(record.address) is Some && !granted(
                        request,
                        outcome,
                        ia,
                    ) ==> answered
                    &&& !refreshes && ipv6_parsed(record.address) is None ==> !answered
                    &&& refreshes && !present(
                        request.message.options[ia]->IaNa_options,
                        |option: OptionView| option is IaAddr,
                    ) ==> answered
                    &&& refreshes && ipv6_parsed(record.address) is None && present(
                        request.message.options[ia]->IaNa_options,
                        |option: OptionView| option is IaAddr,
                    ) ==> second_step(request, outcome, config) == Err::<PacketView, ErrorView>(
                        ErrorView::AddressParseError("invalid IPv6 address syntax"@),
                    )
                },
                OutcomeView::NoAddress => answered <==> kind is Solicit || kind is Request
                    || refreshes,
            }
        }),
{
    let options = request.message.options;
    let listed = options[ia]->IaNa_options;
    let found = addresses(listed);
    let is_ia = |option: OptionView| option is IaNa;
    let is_address = |option: OptionView| option is IaAddr;
    law_associations_are_the_ia_na_options(options);
    lemma_counted(options, is_ia);
    lemma_only_one(options, ia, is_ia);
    assert(associations(options)[0] == as_association(options[ia]));
    lemma_listed(listed);
    law_addresses_are_the_iaaddr_options(listed);
    lemma_counted(listed, is_address);
    if let OutcomeView::Stateful(record) = outcome {
        let address = ipv6_parsed(record.address)->Some_0;
        if lists(options, ia, address) {
            assert(found.contains(address));
        }
        if found.len() == 1 {
            let at = choose|at: int|
                0 <= at < listed.len() && (#[trigger] listed[at]) is IaAddr
                    && listed[at]->IaAddr_address == found[0];
            assert(lists(options, ia, found[0]));
        }
    }
}

/// A client that asks directly for options alone is answered exactly when its name can be told,
/// whatever else stands in its message.
pub proof fn law_options_are_owed(request: RequestView, record: RecordView, config: DhcpConfig)
    requires
        request.relay is None,
    ensures
        second_step(request, OutcomeView::OptionsOnly(record), config) is Ok <==> tellable(
            record.fqdn,
        ),
{
}

/// A client reads the same answer behind a relay as it would without one: the envelope holds what
/// would be sent directly. It is sent if and only if it would be sent directly and all that the
/// envelope has to hold fits its length field.
pub proof fn law_relay_does_not_change_the_answer(
    request: RequestView,
    outcome: OutcomeView,
    config: DhcpConfig,
    relay: RelayView,
)
    requires
        request.relay == Some(relay),
        well_sized(request),
    ensures
        ({
            let direct = second_step(RequestView { relay: None, ..request }, outcome, config);
            let relayed = second_step(request, outcome, config);
            &&& relayed is Ok <==> {
                &&& direct is Ok
                &&& direct->Ok_0.octets.len() <= 0xffff
                &&& relay.interface_id matches Some(id) ==> id.len() <= 0xffff
                &&& relay.remote_id matches Some(id) ==> id.len() <= 0xffff
            }
            &&& relayed is Ok ==> {
                &&& relayed->Ok_0.message_type == direct->Ok_0.message_type
                &&& well_enveloped(relayed->Ok_0.octets, true)
                &&& message_inside(relayed->Ok_0.octets, true) == direct->Ok_0.octets
            }
            &&& direct is Err ==> relayed is Err && relayed->Err_0 == direct->Err_0
        }),
{
    let alone = RequestView { relay: None, ..request };
    let settled = refreshed(request, outcome);
    assert(settled == refreshed(alone, outcome));
    if settled is Ok {
        let reply = mode_reply(request, settled->Ok_0, config);
        assert(reply == mode_reply(alone, settled->Ok_0, config));
        if reply is Ok && response_packet(reply->Ok_0, request.relay) is Ok {
            let octets = message_octets(reply->Ok_0);
            law_relay_reply_returns_the_envelope(octets, relay);
            let packet = response_packet(reply->Ok_0, request.relay)->Ok_0.octets;
            let options = raw_options(packet.skip(34))->Ok_0;
            assert(options.last() == RawView { code: 9, data: octets });
            if packet.len() <= 34 {
                assert(packet.skip(34).len() == 0);
            }
        }
    }
}

/// What is told where no answer can be given. A name that cannot be told is reported first, then an
/// IA_NA that is missing or not the only one, then unusable lifetimes, and an address that is none
/// last; a RENEW or a REBIND looks at the address first.
pub proof fn law_unanswerable_requests_tell_why(
    request: RequestView,
    outcome: OutcomeView,
    config: DhcpConfig,
)
    ensures
        ({
            let answered = second_step(request, outcome, config);
            let options = request.message.options;
            let kind = request.message.msg_type;
            let refreshes = kind is Renew || kind is Rebind;
            let refused = |error: ErrorView|
                answered == Err::<PacketView, ErrorView>(error);
            let two = repeated(options, |option: OptionView| option is IaNa);
            let preferred = config.dhcpv6_preferred_lifetime_secs;
            let valid = config.dhcpv6_valid_lifetime_secs;
            match outcome {
                OutcomeView::OptionsOnly(record) => !tellable(record.fqdn) ==> refused(
                    domain_name(record.fqdn)->Err_0,
                ),
                OutcomeView::Stateful(record) => {
                    &&& !refreshes && !tellable(record.fqdn) ==> refused(
                        domain_name(record.fqdn)->Err_0,
                    )
                    &&& !refreshes && tellable(record.fqdn) && two ==> refused(
                        ErrorView::InvalidInput("multiple DHCPv6 IA_NA options are unsupported"@),
                    )
                    &&& !refreshes && tellable(record.fqdn) && !has_association(options)
                        ==> refused(ErrorView::MissingOptionV6(OptionCode::IANA))
                    &&& !refreshes && tellable(record.fqdn) && !two && has_association(options)
                        && !(0 < preferred <= valid) ==> refused(
                        ErrorView::InvalidInput(
                            "DHCPv6 lifetimes must be nonzero with preferred not exceeding valid"@,
                        ),
                    )
                    &&& !refreshes && tellable(record.fqdn) && !two && has_association(options) && 0
                        < preferred <= valid && ipv6_parsed(record.address) is None ==> refused(
                        ErrorView::AddressParseError("invalid IPv6 address syntax"@),
                    )
                    &&& refreshes && two ==> refused(
                        ErrorView::InvalidInput("multiple DHCPv6 IA_NA options are unsupported"@),
                    )
                },
                OutcomeView::NoAddress => {
                    &&& two ==> refused(
                        ErrorView::InvalidInput("multiple DHCPv6 IA_NA options are unsupported"@),
                    )
                    &&& !has_association(options) ==> refused(
                        ErrorView::MissingOptionV6(OptionCode::IANA),
                    )
                    &&& !two && has_association(options) && !refreshes && !(kind is Solicit)
                        && !(kind is Request) ==> refused(ErrorView::UnhandledMessageTypeV6(kind))
                },
            }
        }),
{
    let options = request.message.options;
    let is_ia = |option: OptionView| option is IaNa;
    lemma_has_association(options);
    law_associations_are_the_ia_na_options(options);
    lemma_counted(options, is_ia);
}

} // verus!
