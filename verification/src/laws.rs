//! What holds of the service as a whole.

#[allow(unused_imports)]
use crate::{
    address::ipv6_parsed,
    bytes::{law_u32_octets_read_back, u16_octets, u32_at, u32_octets},
    codec::{
        as_triple, law_written_options_read_back, message_octets, options_octets,
        payload_octets, MessageView,
    },
    config::{Config, DhcpConfig},
    decode::{lemma_coded_add, lemma_numbered_add, unique, RelayView},
    errors::{DhcpError, ErrorView},
    message::{MessageType, RELAY_REPLY},
    modes::{configured_address, dpu_outcome, Dpu, OutcomeView},
    options::{numbered, ordered, NtpView, OptionView},
    packet_handler_v6::{first_step, second_step, served, StepView},
    raw::{coded, encoded_all, law_parse_inverts_encode, raw_options, RawView},
    reply::{
        assigned, base_options, fqdn_flags, fqdn_options, mode_reply, name_server_options,
        optional_triple, packet_of, reply_options, response_packet, search_options,
        time_server_options, unassigned, wrapped, PacketV6, PacketView, STATUS_NO_ADDRS_AVAIL,
        STATUS_NO_BINDING,
    },
    request::{association, associations, lemma_associations_add, server_duid, IaView, RequestView},
};
use vstd::prelude::*;

verus! {

/// The options of a reply stand in ascending order of their numbers.
pub proof fn law_reply_options_are_in_order(
    request: RequestView,
    association: Seq<OptionView>,
    fqdn: Seq<char>,
    config: DhcpConfig,
)
    requires
        association.len() <= 1,
        association.len() == 1 ==> association[0].number() == 3,
    ensures
        ordered(reply_options(request, association, fqdn, config)),
{
}

/// Options without a number are not found under it.
proof fn lemma_numbered_absent(options: Seq<OptionView>, number: u16)
    requires
        forall|i: int| 0 <= i < options.len() ==> (#[trigger] options[i]).number() != number,
    ensures
        numbered(options, number) == Seq::<OptionView>::empty(),
    decreases options.len(),
{
    if options.len() != 0 {
        let rest = options.skip(1);
        assert(options[0].number() != number);
        assert forall|i: int| 0 <= i < rest.len() implies (#[trigger] rest[i]).number()
            != number by {
            assert(options[i + 1].number() != number);
        }
        lemma_numbered_absent(rest, number);
    }
}

/// What is found under a number is in the list and has that number.
proof fn lemma_numbered_found(options: Seq<OptionView>, number: u16)
    ensures
        forall|i: int|
            0 <= i < numbered(options, number).len() ==> options.contains(
                #[trigger] numbered(options, number)[i],
            ) && numbered(options, number)[i].number() == number,
    decreases options.len(),
{
    if options.len() != 0 {
        let rest = options.skip(1);
        lemma_numbered_found(rest, number);
        assert forall|i: int| 0 <= i < numbered(options, number).len() implies options.contains(
            #[trigger] numbered(options, number)[i],
        ) && numbered(options, number)[i].number() == number by {
            let found = numbered(options, number)[i];
            if options[0].number() == number && i == 0 {
                assert(options[0] == found);
            } else {
                let k = if options[0].number() == number {
                    i - 1
                } else {
                    i
                };
                assert(numbered(rest, number)[k] == found);
                let at = choose|at: int| 0 <= at < rest.len() && rest[at] == found;
                assert(options[at + 1] == found);
            }
        }
    }
}

/// Options without the number of an identity association are none.
proof fn lemma_associations_absent(options: Seq<OptionView>)
    requires
        forall|i: int| 0 <= i < options.len() ==> (#[trigger] options[i]).number() != 3,
    ensures
        associations(options) == Seq::<IaView>::empty(),
    decreases options.len(),
{
    if options.len() != 0 {
        let rest = options.skip(1);
        assert(options[0].number() != 3);
        assert forall|i: int| 0 <= i < rest.len() implies (#[trigger] rest[i]).number() != 3 by {
            assert(options[i + 1].number() != 3);
        }
        lemma_associations_absent(rest);
    }
}

/// What the identity options and the identity association of a reply are.
proof fn lemma_reply_parts(
    request: RequestView,
    association: Seq<OptionView>,
    fqdn: Seq<char>,
    config: DhcpConfig,
)
    requires
        association.len() <= 1,
        association.len() == 1 ==> association[0].number() == 3,
    ensures
        ({
            let options = reply_options(request, association, fqdn, config);
            &&& numbered(options, 1) == seq![OptionView::ClientId(request.duid)]
            &&& numbered(options, 2) == seq![OptionView::ServerId(server_duid(config))]
            &&& associations(options) == associations(association)
        }),
{
    let options = reply_options(request, association, fqdn, config);
    let client = seq![OptionView::ClientId(request.duid)];
    let server = seq![OptionView::ServerId(server_duid(config))];
    let back = name_server_options(config) + search_options(fqdn) + fqdn_options(
        fqdn,
        fqdn_flags(request.message.options),
    ) + time_server_options(config);
    assert(options == client + (server + (association + back)));
    assert forall|i: int| 0 <= i < back.len() implies (#[trigger] back[i]).number() >= 23 by {}
    lemma_numbered_add(client, server + (association + back), 1);
    lemma_numbered_absent(server + (association + back), 1);
    lemma_numbered_add(client, server + (association + back), 2);
    lemma_numbered_absent(client, 2);
    lemma_numbered_add(server, association + back, 2);
    lemma_numbered_absent(association + back, 2);
    lemma_associations_add(client, server + (association + back));
    lemma_associations_absent(client);
    lemma_associations_add(server, association + back);
    lemma_associations_absent(server);
    lemma_associations_add(association, back);
    lemma_associations_absent(back);
    reveal_with_fuel(numbered, 2);
    assert(numbered(client, 1) == client);
    assert(numbered(server, 2) == server);
    assert(numbered(options, 1) == client);
    assert(numbered(options, 2) == server);
    assert(associations(options) == associations(association));
}

/// A reply continues the client's exchange: it carries the client's transaction, it is an ADVERTISE
/// for a SOLICIT and a REPLY for anything else, it names the client and this server first, and the
/// identity association in it, where it has one, is the client's.
pub proof fn law_reply_answers_its_request(
    request: RequestView,
    outcome: OutcomeView,
    config: DhcpConfig,
)
    requires
        mode_reply(request, outcome, config) is Ok,
    ensures
        ({
            let reply = mode_reply(request, outcome, config)->Ok_0;
            &&& reply.xid == request.message.xid
            &&& reply.msg_type is Advertise <==> request.message.msg_type is Solicit
            &&& reply.msg_type is Advertise || reply.msg_type is Reply
            &&& numbered(reply.options, 1) == seq![OptionView::ClientId(request.duid)]
            &&& numbered(reply.options, 2) == seq![OptionView::ServerId(server_duid(config))]
            &&& match outcome {
                OutcomeView::OptionsOnly(_) => associations(reply.options).len() == 0,
                _ => {
                    &&& associations(reply.options).len() == 1
                    &&& association(request.message.options) matches Ok(Some(asked))
                    &&& associations(reply.options)[0].id == asked.id
                },
            }
        }),
{
    let ia = association(request.message.options);
    let reply = mode_reply(request, outcome, config)->Ok_0;
    reveal_with_fuel(associations, 2);
    match outcome {
        OutcomeView::OptionsOnly(record) => {
            lemma_reply_parts(request, Seq::empty(), record.fqdn, config);
        },
        OutcomeView::Stateful(record) => {
            let given = assigned(ia->Ok_0->Some_0.id, ipv6_parsed(record.address)->Some_0, config);
            lemma_reply_parts(request, seq![given], record.fqdn, config);
        },
        OutcomeView::NoAddress => {
            let status = if request.message.msg_type is Solicit || request.message.msg_type is Request {
                STATUS_NO_ADDRS_AVAIL
            } else {
                STATUS_NO_BINDING
            };
            let given = unassigned(ia->Ok_0->Some_0.id, status);
            lemma_reply_parts(request, seq![given], Seq::empty(), config);
        },
    }
}

/// Reading the octets of a list finds under a code what the list holds under that number.
proof fn lemma_coded_of_written(options: Seq<OptionView>, number: u16)
    ensures
        coded(options.map_values(|option: OptionView| as_triple(option)), number) == numbered(
            options,
            number,
        ).map_values(|option: OptionView| as_triple(option)),
    decreases options.len(),
{
    let triples = options.map_values(|option: OptionView| as_triple(option));
    let found = numbered(options, number).map_values(|option: OptionView| as_triple(option));
    if options.len() == 0 {
        assert(coded(triples, number) == found);
    } else {
        let rest = options.skip(1);
        lemma_coded_of_written(rest, number);
        assert(triples.skip(1) == rest.map_values(|option: OptionView| as_triple(option)));
        assert(triples[0] == as_triple(options[0]));
        assert(coded(triples, number) == found);
    }
}

/// What a client reads out of the octets of a reply: its own transaction, its own identifier and the
/// server's, each once, and its own identity association where the reply has one. This holds where
/// every option fits its length field.
pub proof fn law_reply_octets_answer_the_request(
    request: RequestView,
    outcome: OutcomeView,
    config: DhcpConfig,
)
    requires
        mode_reply(request, outcome, config) is Ok,
        request.message.xid.len() == 3,
        forall|i: int|
            0 <= i < mode_reply(request, outcome, config)->Ok_0.options.len() ==> as_triple(
                #[trigger] mode_reply(request, outcome, config)->Ok_0.options[i],
            ).fits(),
    ensures
        ({
            let octets = message_octets(mode_reply(request, outcome, config)->Ok_0);
            let read = raw_options(octets.skip(4));
            &&& octets[0] == (if request.message.msg_type is Solicit {
                2u8
            } else {
                7u8
            })
            &&& octets.subrange(1, 4) == request.message.xid
            &&& read is Ok
            &&& coded(read->Ok_0, 1) == seq![RawView { code: 1, data: request.duid }]
            &&& coded(read->Ok_0, 2) == seq![RawView { code: 2, data: server_duid(config) }]
            &&& match outcome {
                OutcomeView::OptionsOnly(_) => coded(read->Ok_0, 3).len() == 0,
                _ => {
                    &&& coded(read->Ok_0, 3).len() == 1
                    &&& association(request.message.options) matches Ok(Some(asked))
                    &&& u32_at(coded(read->Ok_0, 3)[0].data, 0) == asked.id
                },
            }
        }),
{
    let reply = mode_reply(request, outcome, config)->Ok_0;
    let octets = message_octets(reply);
    let written = options_octets(reply.options);
    law_reply_answers_its_request(request, outcome, config);
    assert(octets.skip(4) == written);
    assert(octets.subrange(1, 4) == reply.xid);
    law_written_options_read_back(reply.options);
    let read = raw_options(written)->Ok_0;
    lemma_coded_of_written(reply.options, 1);
    lemma_coded_of_written(reply.options, 2);
    lemma_coded_of_written(reply.options, 3);
    let client = seq![OptionView::ClientId(request.duid)];
    let server = seq![OptionView::ServerId(server_duid(config))];
    assert(client.map_values(|option: OptionView| as_triple(option)) == seq![
        RawView { code: 1, data: request.duid },
    ]);
    assert(server.map_values(|option: OptionView| as_triple(option)) == seq![
        RawView { code: 2, data: server_duid(config) },
    ]);
    lemma_reply_association(request, outcome, config);
    let found = numbered(reply.options, 3);
    if !(outcome is OptionsOnly) {
        let id = found[0]->IaNa_id;
        let data = payload_octets(found[0]);
        let behind = u32_octets(0) + u32_octets(0) + options_octets(found[0]->IaNa_options);
        assert(data == Seq::<u8>::empty() + u32_octets(id) + behind);
        law_u32_octets_read_back(id, Seq::empty(), behind);
        assert(coded(read, 3)[0].data == data);
    }
}

/// The identity association of a reply.
proof fn lemma_reply_association(request: RequestView, outcome: OutcomeView, config: DhcpConfig)
    requires
        mode_reply(request, outcome, config) is Ok,
    ensures
        ({
            let found = numbered(mode_reply(request, outcome, config)->Ok_0.options, 3);
            let ia = association(request.message.options);
            match outcome {
                OutcomeView::OptionsOnly(_) => found.len() == 0,
                OutcomeView::Stateful(record) => {
                    &&& ipv6_parsed(record.address) is Some
                    &&& found == seq![
                        assigned(
                            ia->Ok_0->Some_0.id,
                            ipv6_parsed(record.address)->Some_0,
                            config,
                        ),
                    ]
                },
                OutcomeView::NoAddress => found == seq![
                    unassigned(ia->Ok_0->Some_0.id, refusal(request.message.msg_type)),
                ],
            }
        }),
{
    let ia = association(request.message.options);
    match outcome {
        OutcomeView::OptionsOnly(record) => {
            lemma_reply_numbered_three(request, Seq::empty(), record.fqdn, config);
        },
        OutcomeView::Stateful(record) => {
            let given = assigned(ia->Ok_0->Some_0.id, ipv6_parsed(record.address)->Some_0, config);
            lemma_reply_numbered_three(request, seq![given], record.fqdn, config);
        },
        OutcomeView::NoAddress => {
            let given = unassigned(ia->Ok_0->Some_0.id, refusal(request.message.msg_type));
            lemma_reply_numbered_three(request, seq![given], Seq::empty(), config);
        },
    }
}

/// What a client without an address is told: that there is none, or that it has none.
pub open spec fn refusal(message_type: MessageType) -> u16 {
    if message_type is Solicit || message_type is Request {
        STATUS_NO_ADDRS_AVAIL
    } else {
        STATUS_NO_BINDING
    }
}

/// Among the options of a reply only the identity association has its number.
proof fn lemma_reply_numbered_three(
    request: RequestView,
    association: Seq<OptionView>,
    fqdn: Seq<char>,
    config: DhcpConfig,
)
    requires
        association.len() <= 1,
        association.len() == 1 ==> association[0].number() == 3,
    ensures
        numbered(reply_options(request, association, fqdn, config), 3) == association,
{
    let options = reply_options(request, association, fqdn, config);
    let front = base_options(request, config);
    let back = name_server_options(config) + search_options(fqdn) + fqdn_options(
        fqdn,
        fqdn_flags(request.message.options),
    ) + time_server_options(config);
    assert(options == front + (association + back));
    assert forall|i: int| 0 <= i < back.len() implies (#[trigger] back[i]).number() >= 23 by {}
    lemma_numbered_add(front, association + back, 3);
    lemma_numbered_absent(front, 3);
    lemma_numbered_add(association, back, 3);
    lemma_numbered_absent(back, 3);
    reveal_with_fuel(numbered, 2);
    assert(numbered(association, 3) == association);
    assert(numbered(options, 3) == association);
}

/// A reply lists every configured server, however many there are, in the configured order: the name
/// servers in one option, if there are any, and the time servers in another.
pub proof fn law_reply_lists_the_servers(
    request: RequestView,
    outcome: OutcomeView,
    config: DhcpConfig,
)
    requires
        mode_reply(request, outcome, config) is Ok,
    ensures
        ({
            let options = mode_reply(request, outcome, config)->Ok_0.options;
            let names = numbered(options, 23);
            let times = numbered(options, 56);
            let dns = config.carbide_nameservers_v6@;
            let ntp = config.carbide_ntpservers_v6@;
            &&& dns.len() == 0 ==> names.len() == 0
            &&& dns.len() > 0 ==> {
                &&& names.len() == 1
                &&& names[0] matches OptionView::DomainNameServers(listed)
                &&& listed.len() == dns.len()
                &&& forall|i: int| 0 <= i < dns.len() ==> #[trigger] listed[i] == dns[i]@
            }
            &&& ntp.len() == 0 ==> times.len() == 0
            &&& ntp.len() > 0 ==> {
                &&& times.len() == 1
                &&& times[0] matches OptionView::NtpServer(listed)
                &&& listed.len() == ntp.len()
                &&& forall|i: int|
                    0 <= i < ntp.len() ==> #[trigger] listed[i] == NtpView::Address(ntp[i]@)
            }
        }),
{
    let ia = association(request.message.options);
    let (given, fqdn) = match outcome {
        OutcomeView::OptionsOnly(record) => (Seq::empty(), record.fqdn),
        OutcomeView::Stateful(record) => (
            seq![assigned(ia->Ok_0->Some_0.id, ipv6_parsed(record.address)->Some_0, config)],
            record.fqdn,
        ),
        OutcomeView::NoAddress => (
            seq![unassigned(ia->Ok_0->Some_0.id, refusal(request.message.msg_type))],
            Seq::empty(),
        ),
    };
    let front = base_options(request, config) + given;
    let dns = name_server_options(config);
    let middle = search_options(fqdn) + fqdn_options(fqdn, fqdn_flags(request.message.options));
    let ntp = time_server_options(config);
    let options = mode_reply(request, outcome, config)->Ok_0.options;
    assert(options =~= front + (dns + (middle + ntp)));
    lemma_numbered_add(front, dns + (middle + ntp), 23);
    lemma_numbered_add(dns, middle + ntp, 23);
    lemma_numbered_absent(front, 23);
    lemma_numbered_absent(middle + ntp, 23);
    lemma_numbered_add(front, dns + (middle + ntp), 56);
    lemma_numbered_add(dns, middle + ntp, 56);
    lemma_numbered_add(middle, ntp, 56);
    lemma_numbered_absent(front, 56);
    lemma_numbered_absent(dns, 56);
    lemma_numbered_absent(middle, 56);
    reveal_with_fuel(numbered, 2);
    assert(numbered(dns, 23) =~= dns);
    assert(numbered(ntp, 56) =~= ntp);
    assert(numbered(options, 23) =~= dns);
    assert(numbered(options, 56) =~= ntp);
}

/// A reply tells the client its name where the client sent flags for a name and has one, behind
/// those flags; and it tells the domain of the name whether or not the client asks.
pub proof fn law_names_follow_the_negotiation(
    request: RequestView,
    association: Seq<OptionView>,
    fqdn: Seq<char>,
    config: DhcpConfig,
)
    requires
        association.len() <= 1,
        association.len() == 1 ==> association[0].number() == 3,
    ensures
        ({
            let options = reply_options(request, association, fqdn, config);
            let flags = fqdn_flags(request.message.options);
            let told = numbered(options, 39);
            &&& told.len() == 1 <==> flags is Some && fqdn.len() > 0
            &&& told.len() <= 1
            &&& told.len() == 1 ==> told[0] is Unknown && told[0]->Unknown_data[0] == flags->Some_0
            &&& numbered(options, 24) == search_options(fqdn)
        }),
{
    let options = reply_options(request, association, fqdn, config);
    let search = search_options(fqdn);
    let name = fqdn_options(fqdn, fqdn_flags(request.message.options));
    let front = base_options(request, config) + association + name_server_options(config);
    let back = time_server_options(config);
    assert(options == front + (search + (name + back)));
    lemma_numbered_add(front, search + (name + back), 39);
    lemma_numbered_absent(front, 39);
    lemma_numbered_add(search, name + back, 39);
    lemma_numbered_absent(search, 39);
    lemma_numbered_add(name, back, 39);
    lemma_numbered_absent(back, 39);
    lemma_numbered_add(front, search + (name + back), 24);
    lemma_numbered_absent(front, 24);
    lemma_numbered_add(search, name + back, 24);
    lemma_numbered_absent(name + back, 24);
    reveal_with_fuel(numbered, 2);
    assert(numbered(name, 39) == name);
    assert(numbered(search, 24) == search);
    assert(numbered(options, 39) == name);
    assert(numbered(options, 24) == search);
}

/// What is read out of an identity association with one option in it.
proof fn lemma_association_reads_back(given: OptionView)
    requires
        given is IaNa,
        given->IaNa_options.len() == 1,
        as_triple(given).fits(),
        match given->IaNa_options[0] {
            OptionView::IaAddr { options, .. } => options.len() == 0,
            OptionView::StatusCode { text, .. } => text.len() == 0,
            _ => false,
        },
    ensures
        raw_options(as_triple(given).data.skip(12)) == Ok::<Seq<RawView>, Seq<char>>(
            seq![
                match given->IaNa_options[0] {
                    OptionView::IaAddr { address, preferred_life, valid_life, .. } => RawView {
                        code: 5,
                        data: address + u32_octets(preferred_life) + u32_octets(valid_life),
                    },
                    OptionView::StatusCode { status, .. } => RawView {
                        code: 13,
                        data: u16_octets(status),
                    },
                    other => as_triple(other),
                },
            ],
        ),
{
    let inside = given->IaNa_options;
    let data = payload_octets(given);
    assert(data.skip(12) == options_octets(inside));
    let triple = as_triple(inside[0]);
    match inside[0] {
        OptionView::IaAddr { address, preferred_life, valid_life, options } => {
            assert(options_octets(options) == Seq::<u8>::empty());
            assert(triple.data == address + u32_octets(preferred_life) + u32_octets(valid_life));
        },
        OptionView::StatusCode { status, text } => {
            assert(triple.data == u16_octets(status));
        },
        _ => {},
    }
    assert(inside.skip(1).len() == 0);
    assert(options_octets(inside.skip(1)) == Seq::<u8>::empty());
    assert(options_octets(inside).len() == 4 + triple.data.len());
    assert(triple.fits());
    law_written_options_read_back(inside);
    assert(inside.map_values(|option: OptionView| as_triple(option)) == seq![triple]);
}

/// The address that a client reads out of its identity association is the one that is bound to it,
/// with the configured lifetimes, and a client without an address reads no address and the reason.
pub proof fn law_reply_octets_tell_the_address(
    request: RequestView,
    outcome: OutcomeView,
    config: DhcpConfig,
)
    requires
        mode_reply(request, outcome, config) is Ok,
        request.message.xid.len() == 3,
        forall|i: int|
            0 <= i < mode_reply(request, outcome, config)->Ok_0.options.len() ==> as_triple(
                #[trigger] mode_reply(request, outcome, config)->Ok_0.options[i],
            ).fits(),
        !(outcome is OptionsOnly),
    ensures
        ({
            let octets = message_octets(mode_reply(request, outcome, config)->Ok_0);
            let read = raw_options(octets.skip(4))->Ok_0;
            let nested = raw_options(coded(read, 3)[0].data.skip(12));
            match outcome {
                OutcomeView::Stateful(record) => nested == Ok::<Seq<RawView>, Seq<char>>(
                    seq![
                        RawView {
                            code: 5,
                            data: ipv6_parsed(record.address)->Some_0 + u32_octets(
                                config.dhcpv6_preferred_lifetime_secs,
                            ) + u32_octets(config.dhcpv6_valid_lifetime_secs),
                        },
                    ],
                ),
                _ => nested == Ok::<Seq<RawView>, Seq<char>>(
                    seq![RawView { code: 13, data: u16_octets(refusal(request.message.msg_type)) }],
                ),
            }
        }),
{
    let reply = mode_reply(request, outcome, config)->Ok_0;
    let octets = message_octets(reply);
    assert(octets.skip(4) == options_octets(reply.options));
    law_written_options_read_back(reply.options);
    lemma_coded_of_written(reply.options, 3);
    lemma_reply_association(request, outcome, config);
    let given = numbered(reply.options, 3)[0];
    let read = raw_options(octets.skip(4))->Ok_0;
    assert(coded(read, 3)[0] == as_triple(given));
    lemma_numbered_found(reply.options, 3);
    let at = choose|at: int| 0 <= at < reply.options.len() && reply.options[at] == given;
    assert(as_triple(reply.options[at]).fits());
    lemma_association_reads_back(given);
}

/// An option that is there or not, as a list.
pub open spec fn optional_option(code: u16, data: Option<Seq<u8>>) -> Seq<RawView> {
    match data {
        Some(data) => seq![RawView { code, data }],
        None => Seq::empty(),
    }
}

/// The octets of an option that is there or not.
proof fn lemma_optional_option(code: u16, data: Option<Seq<u8>>)
    ensures
        encoded_all(optional_option(code, data)) == optional_triple(code, data),
{
    reveal_with_fuel(encoded_all, 2);
    if let Some(data) = data {
        let option = RawView { code, data };
        assert(seq![option].skip(1) == Seq::<RawView>::empty());
        assert(option.encoded() + Seq::<u8>::empty() == option.encoded());
    }
}

/// The octets of a list are those of its parts.
proof fn lemma_encoded_all_add(left: Seq<RawView>, right: Seq<RawView>)
    ensures
        encoded_all(left + right) == encoded_all(left) + encoded_all(right),
    decreases left.len(),
{
    if left.len() == 0 {
        assert(left + right == right);
    } else {
        assert((left + right).skip(1) == left.skip(1) + right);
        lemma_encoded_all_add(left.skip(1), right);
        assert(encoded_all(left + right) == left[0].encoded() + (encoded_all(left.skip(1))
            + encoded_all(right)));
    }
}

/// What is found under one code in a list of at most one option.
proof fn lemma_coded_optional(code: u16, data: Option<Seq<u8>>, sought: u16)
    ensures
        coded(optional_option(code, data), sought) == (if code == sought {
            optional_option(code, data)
        } else {
            Seq::empty()
        }),
{
    reveal_with_fuel(coded, 2);
    if let Some(data) = data {
        assert(seq![RawView { code, data }].skip(1) == Seq::<RawView>::empty());
    }
}

/// Each option of a Relay-Reply envelope is the only one of its code.
proof fn lemma_unique_of_three(
    interface_id: Option<Seq<u8>>,
    remote_id: Option<Seq<u8>>,
    inner: Seq<u8>,
)
    ensures
        ({
            let options = optional_option(18, interface_id) + optional_option(37, remote_id)
                + optional_option(9, Some(inner));
            &&& unique(options, 18) == Ok::<Option<Seq<u8>>, Seq<char>>(interface_id)
            &&& unique(options, 37) == Ok::<Option<Seq<u8>>, Seq<char>>(remote_id)
            &&& unique(options, 9) == Ok::<Option<Seq<u8>>, Seq<char>>(Some(inner))
            &&& unique(options, 79) == Ok::<Option<Seq<u8>>, Seq<char>>(None)
        }),
{
    let first = optional_option(18, interface_id);
    let second = optional_option(37, remote_id);
    let third = optional_option(9, Some(inner));
    assert forall|code: u16| #[trigger]
        coded(first + second + third, code) == coded(first, code) + coded(second, code) + coded(
            third,
            code,
        ) by {
        lemma_coded_add(first + second, third, code);
        lemma_coded_add(first, second, code);
    }
    assert forall|code: u16| true implies {
        &&& #[trigger] coded(first, code) == (if code == 18 {
            first
        } else {
            Seq::empty()
        })
        &&& coded(second, code) == (if code == 37 {
            second
        } else {
            Seq::empty()
        })
        &&& coded(third, code) == (if code == 9 {
            third
        } else {
            Seq::empty()
        })
    } by {
        lemma_coded_optional(18, interface_id, code);
        lemma_coded_optional(37, remote_id, code);
        lemma_coded_optional(9, Some(inner), code);
    }
    assert(coded(first + second + third, 18) == first);
    assert(coded(first + second + third, 37) == second);
    assert(coded(first + second + third, 9) == third);
    assert(coded(first + second + third, 79) == Seq::<RawView>::empty());
}

/// A response fits a Relay-Reply envelope if and only if it, and each option that the envelope gives
/// back, fits its length field.
pub proof fn law_relay_reply_fits(inner: Seq<u8>, relay: RelayView)
    ensures
        wrapped(inner, relay) is Ok <==> {
            &&& inner.len() <= 0xffff
            &&& relay.interface_id matches Some(id) ==> id.len() <= 0xffff
            &&& relay.remote_id matches Some(id) ==> id.len() <= 0xffff
        },
{
}

/// A response that does not fit its envelope is refused for the first option that does not fit: the
/// interface, the remote identifier, and the response itself last.
pub proof fn law_oversized_options_are_told(inner: Seq<u8>, relay: RelayView)
    ensures
        ({
            let refused = |name: Seq<char>|
                Err::<Seq<u8>, ErrorView>(
                    ErrorView::InvalidInput("DHCPv6 option "@ + name + " exceeds 65535 bytes"@),
                );
            let long_interface = relay.interface_id is Some && relay.interface_id->Some_0.len()
                > 65535;
            let long_remote = relay.remote_id is Some && relay.remote_id->Some_0.len() > 65535;
            &&& long_interface ==> wrapped(inner, relay) == refused("InterfaceId"@)
            &&& !long_interface && long_remote ==> wrapped(inner, relay) == refused("RemoteId"@)
            &&& !long_interface && !long_remote && inner.len() > 65535 ==> wrapped(inner, relay)
                == refused("RelayMsg"@)
        }),
{
}

/// A Relay-Reply envelope takes its answer the way that the request came: the hop count and the
/// addresses of the Relay-Forward envelope are in it unchanged, and its options are the interface
/// and the remote identifier of that envelope, where it has them, then the answer, and nothing
/// else. The client's link-layer address is not sent back.
pub proof fn law_relay_reply_returns_the_envelope(inner: Seq<u8>, relay: RelayView)
    requires
        wrapped(inner, relay) is Ok,
        relay.link_address.len() == 16,
        relay.peer_address.len() == 16,
    ensures
        ({
            let packet = wrapped(inner, relay)->Ok_0;
            let options = raw_options(packet.skip(34));
            &&& packet[0] == RELAY_REPLY
            &&& packet[1] == relay.hop_count
            &&& packet.subrange(2, 18) == relay.link_address
            &&& packet.subrange(18, 34) == relay.peer_address
            &&& options == Ok::<Seq<RawView>, Seq<char>>(
                optional_option(18, relay.interface_id) + optional_option(37, relay.remote_id)
                    + seq![RawView { code: 9, data: inner }],
            )
            &&& unique(options->Ok_0, 18) == Ok::<Option<Seq<u8>>, Seq<char>>(relay.interface_id)
            &&& unique(options->Ok_0, 37) == Ok::<Option<Seq<u8>>, Seq<char>>(relay.remote_id)
            &&& unique(options->Ok_0, 9) == Ok::<Option<Seq<u8>>, Seq<char>>(Some(inner))
            &&& unique(options->Ok_0, 79) == Ok::<Option<Seq<u8>>, Seq<char>>(None)
        }),
{
    let packet = wrapped(inner, relay)->Ok_0;
    let header = seq![RELAY_REPLY, relay.hop_count] + relay.link_address + relay.peer_address;
    let first = optional_option(18, relay.interface_id);
    let second = optional_option(37, relay.remote_id);
    let third = optional_option(9, Some(inner));
    let options = first + second + third;
    lemma_optional_option(18, relay.interface_id);
    lemma_optional_option(37, relay.remote_id);
    lemma_optional_option(9, Some(inner));
    lemma_encoded_all_add(first + second, third);
    lemma_encoded_all_add(first, second);
    assert(packet == header + encoded_all(first) + encoded_all(second) + encoded_all(third));
    assert(packet.skip(34) == encoded_all(options));
    assert(packet.subrange(2, 18) == relay.link_address);
    assert(packet.subrange(18, 34) == relay.peer_address);
    law_parse_inverts_encode(options);
    lemma_unique_of_three(relay.interface_id, relay.remote_id, inner);
}

/// A DPU answers from the interface that the packet came in on, and from nothing else: what it sends
/// follows from the request and from what is configured for that interface.
pub proof fn law_dpu_serves_from_its_interfaces(
    request: RequestView,
    source: Seq<u8>,
    config: Config,
    interface: Seq<char>,
    dpu: Dpu,
    result: Result<Option<PacketV6>, DhcpError>,
)
    requires
        served(request, source, config, interface, dpu, result),
        first_step(request, source, config, interface, false) matches Ok(StepView::Ask(_)),
    ensures
        ({
            let question = first_step(request, source, config, interface, false)->Ok_0->Ask_0;
            match dpu_outcome(question.message_kind, Some(interface), config.host_config) {
                Err(error) => result is Err && result->Err_0@ == error,
                Ok(outcome) => match second_step(request, outcome, config.dhcp_config) {
                    Err(error) => result is Err && result->Err_0@ == error,
                    Ok(packet) => result is Ok && packet_of(result->Ok_0) == Some(packet),
                },
            }
        }),
{
}

/// A client that asks a DPU for an address is assigned the address that is configured for the
/// interface that its packet came in on, and no other.
pub proof fn law_dpu_assigns_the_configured_address(
    request: RequestView,
    source: Seq<u8>,
    config: Config,
    interface: Seq<char>,
    dpu: Dpu,
    result: Result<Option<PacketV6>, DhcpError>,
)
    requires
        served(request, source, config, interface, dpu, result),
        request.message.msg_type is Solicit || request.message.msg_type is Request,
        association(request.message.options) matches Ok(Some(_)),
        configured_address(interface, config.host_config) is Some,
        result is Ok,
    ensures
        ({
            let asked = association(request.message.options)->Ok_0->Some_0;
            let address = configured_address(interface, config.host_config)->Some_0;
            exists|reply: MessageView|
                {
                    &&& numbered(reply.options, 3) == seq![
                        assigned(asked.id, address, config.dhcp_config),
                    ]
                    &&& result->Ok_0 is Some
                    &&& #[trigger] response_packet(reply, None) == Ok::<PacketView, ErrorView>(
                        result->Ok_0->Some_0@,
                    )
                }
        }),
{
    let question = first_step(request, source, config, interface, false)->Ok_0->Ask_0;
    law_dpu_serves_from_its_interfaces(request, source, config, interface, dpu, result);
    let outcome = dpu_outcome(question.message_kind, Some(interface), config.host_config)->Ok_0;
    lemma_reply_association(request, outcome, config.dhcp_config);
    let reply = mode_reply(request, outcome, config.dhcp_config)->Ok_0;
    assert(response_packet(reply, None) == Ok::<PacketView, ErrorView>(result->Ok_0->Some_0@));
}

} // verus!
