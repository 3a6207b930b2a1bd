//! What a client's message leads to, told from what stands in the message.

#[allow(unused_imports)]
use crate::{
    address::ipv6_text,
    codec::addresses,
    config::Config,
    decode::RelayView,
    errors::ErrorView,
    modes::{AddressFamily, DiscoveryView, MessageKind, RequestedKind},
    options::{numbered, OptionView},
    packet_handler_v6::{first_step, StepView},
    request::{associations, discovery, first_text, IaView, RequestView},
    text::{hex_text, mac_text},
};
use vstd::prelude::*;

verus! {

/// The identity association that an option is.
pub open spec fn as_association(option: OptionView) -> IaView {
    IaView { id: option->IaNa_id, options: option->IaNa_options }
}

/// The identity associations of a message are its IA_NA options, all of them, in their order.
pub proof fn law_associations_are_the_ia_na_options(options: Seq<OptionView>)
    ensures
        associations(options) == options.filter(|option: OptionView| option is IaNa).map_values(
            |option: OptionView| as_association(option),
        ),
    decreases options.len(),
{
    let pred = |option: OptionView| option is IaNa;
    let view = |option: OptionView| as_association(option);
    reveal_with_fuel(Seq::filter, 2);
    if options.len() == 0 {
        assert(associations(options) =~= options.filter(pred).map_values(view));
    } else {
        let first = seq![options[0]];
        let rest = options.skip(1);
        law_associations_are_the_ia_na_options(rest);
        assert(options == first + rest);
        Seq::filter_distributes_over_add(first, rest, pred);
        assert(first.drop_last() == Seq::<OptionView>::empty());
        assert(first.filter(pred) == if pred(options[0]) {
            first
        } else {
            Seq::<OptionView>::empty()
        });
        assert(associations(options) =~= options.filter(pred).map_values(view));
    }
}

/// The addresses of a list are those of its IAADDR options, all of them, in their order.
pub proof fn law_addresses_are_the_iaaddr_options(options: Seq<OptionView>)
    ensures
        addresses(options) == options.filter(|option: OptionView| option is IaAddr).map_values(
            |option: OptionView| option->IaAddr_address,
        ),
    decreases options.len(),
{
    let pred = |option: OptionView| option is IaAddr;
    let view = |option: OptionView| option->IaAddr_address;
    reveal_with_fuel(Seq::filter, 2);
    if options.len() == 0 {
        assert(addresses(options) =~= options.filter(pred).map_values(view));
    } else {
        let first = seq![options[0]];
        let rest = options.skip(1);
        law_addresses_are_the_iaaddr_options(rest);
        assert(options == first + rest);
        Seq::filter_distributes_over_add(first, rest, pred);
        assert(first.drop_last() == Seq::<OptionView>::empty());
        assert(first.filter(pred) == if pred(options[0]) {
            first
        } else {
            Seq::<OptionView>::empty()
        });
        assert(addresses(options) =~= options.filter(pred).map_values(view));
    }
}

/// The options of a number are those that have it, all of them, in their order.
pub proof fn law_numbered_are_all_with_the_number(options: Seq<OptionView>, number: u16)
    ensures
        numbered(options, number) == options.filter(
            |option: OptionView| option.number() == number,
        ),
    decreases options.len(),
{
    let pred = |option: OptionView| option.number() == number;
    reveal_with_fuel(Seq::filter, 2);
    if options.len() == 0 {
        assert(numbered(options, number) =~= options.filter(pred));
    } else {
        let first = seq![options[0]];
        let rest = options.skip(1);
        law_numbered_are_all_with_the_number(rest, number);
        assert(options == first + rest);
        Seq::filter_distributes_over_add(first, rest, pred);
        assert(first.drop_last() == Seq::<OptionView>::empty());
        assert(first.filter(pred) == if pred(options[0]) {
            first
        } else {
            Seq::<OptionView>::empty()
        });
        assert(numbered(options, number) =~= options.filter(pred));
    }
}

/// Whether a message holds an IA_NA option.
pub open spec fn has_association(options: Seq<OptionView>) -> bool {
    exists|i: int| 0 <= i < options.len() && (#[trigger] options[i]) is IaNa
}

/// There are identity associations exactly where there is an IA_NA option.
pub(crate) proof fn lemma_has_association(options: Seq<OptionView>)
    ensures
        associations(options).len() > 0 <==> has_association(options),
    decreases options.len(),
{
    if options.len() != 0 {
        let rest = options.skip(1);
        lemma_has_association(rest);
        if has_association(rest) {
            let i = choose|i: int| 0 <= i < rest.len() && (#[trigger] rest[i]) is IaNa;
            assert(options[i + 1] is IaNa);
        }
        if has_association(options) && !(options[0] is IaNa) {
            let i = choose|i: int| 0 <= i < options.len() && (#[trigger] options[i]) is IaNa;
            assert(rest[i - 1] is IaNa);
        }
    }
}

/// What is asked about a client tells the exchange that the client is in: a REQUEST, a RENEW and a
/// REBIND are asked about as a request, a SOLICIT with an IA_NA as a solicitation, and a SOLICIT or
/// an INFORMATION-REQUEST without one as a question about options.
pub proof fn law_question_tells_the_exchange(
    request: RequestView,
    source: Seq<u8>,
    config: Config,
    interface: Seq<char>,
    requires_relay: bool,
)
    requires
        first_step(request, source, config, interface, requires_relay) matches Ok(StepView::Ask(_)),
    ensures
        ({
            let kind = first_step(
                request,
                source,
                config,
                interface,
                requires_relay,
            )->Ok_0->Ask_0.message_kind;
            let message = request.message;
            let associated = has_association(message.options);
            let listed = |kind: MessageKind| Some(RequestedKind::Listed(kind));
            &&& kind == listed(MessageKind::V6Request) <==> message.msg_type is Request
                || message.msg_type is Renew || message.msg_type is Rebind
            &&& kind == listed(MessageKind::V6Solicit) <==> message.msg_type is Solicit
                && associated
            &&& kind == listed(MessageKind::V6InfoRequest) <==> !associated && (
            message.msg_type is Solicit || message.msg_type is InformationRequest)
            &&& kind == listed(MessageKind::V6Request) ==> associated
        }),
{
    lemma_has_association(request.message.options);
}

/// Nothing is left of a list in which nothing passes the test.
proof fn lemma_filter_of_none(options: Seq<OptionView>, pred: spec_fn(OptionView) -> bool)
    requires
        forall|i: int| 0 <= i < options.len() ==> !pred(#[trigger] options[i]),
    ensures
        options.filter(pred) == Seq::<OptionView>::empty(),
    decreases options.len(),
{
    reveal_with_fuel(Seq::filter, 2);
    if options.len() != 0 {
        let front = options.drop_last();
        assert(!pred(options[options.len() - 1]));
        assert forall|i: int| 0 <= i < front.len() implies !pred(#[trigger] front[i]) by {
            assert(!pred(options[i]));
        }
        lemma_filter_of_none(front, pred);
    } else {
        assert(options.filter(pred) =~= Seq::<OptionView>::empty());
    }
}

/// A question names the address that the client names, and no other: where the only IA_NA of the
/// message holds one IAADDR, the question is about its address, and where it holds none, or there
/// is no IA_NA, about none.
pub proof fn law_question_names_the_desired_address(
    request: RequestView,
    source: Seq<u8>,
    config: Config,
    interface: Seq<char>,
    requires_relay: bool,
    ia: int,
    at: int,
)
    requires
        first_step(request, source, config, interface, requires_relay) matches Ok(StepView::Ask(_)),
    ensures
        ({
            let desired = first_step(
                request,
                source,
                config,
                interface,
                requires_relay,
            )->Ok_0->Ask_0.desired_address;
            let options = request.message.options;
            &&& !has_association(options) ==> desired is None
            &&& 0 <= ia < options.len() && options[ia] is IaNa ==> {
                let inside = options[ia]->IaNa_options;
                &&& (forall|k: int|
                    0 <= k < inside.len() ==> !((#[trigger] inside[k]) is IaAddr))
                    ==> desired is None
                &&& 0 <= at < inside.len() && inside[at] is IaAddr ==> desired == Some(
                    ipv6_text(inside[at]->IaAddr_address),
                )
            }
        }),
{
    let options = request.message.options;
    let is_ia = |option: OptionView| option is IaNa;
    let is_address = |option: OptionView| option is IaAddr;
    lemma_has_association(options);
    law_associations_are_the_ia_na_options(options);
    if 0 <= ia < options.len() && options[ia] is IaNa {
        lemma_only_one(options, ia, is_ia);
        let inside = options[ia]->IaNa_options;
        assert(associations(options)[0] == as_association(options[ia]));
        law_addresses_are_the_iaaddr_options(inside);
        if forall|k: int| 0 <= k < inside.len() ==> !((#[trigger] inside[k]) is IaAddr) {
            lemma_filter_of_none(inside, is_address);
        }
        if 0 <= at < inside.len() && inside[at] is IaAddr {
            lemma_only_one(inside, at, is_address);
        }
    }
}

/// A filter that leaves at most one element leaves the one that is known to pass.
pub(crate) proof fn lemma_only_one(options: Seq<OptionView>, at: int, pred: spec_fn(OptionView) -> bool)
    requires
        0 <= at < options.len(),
        pred(options[at]),
        options.filter(pred).len() <= 1,
    ensures
        options.filter(pred) == seq![options[at]],
{
    options.lemma_filter_contains(pred, at);
    assert(options.filter(pred).contains(options[at]));
    assert(options.filter(pred) =~= seq![options[at]]);
}

/// Whether a relay tells of an Ethernet address: six octets behind the hardware type of Ethernet.
pub open spec fn tells_ethernet(relay: RelayView) -> bool {
    &&& relay.client_link_layer is Some
    &&& relay.client_link_layer->Some_0.len() == 8
    &&& relay.client_link_layer->Some_0[0] == 0
    &&& relay.client_link_layer->Some_0[1] == 1
}

/// A controller's question is about the client that the relay forwarded: about the Ethernet address
/// that the relay tells, or else the one in the client's DUID; about the link that the relay is on;
/// and about the circuit and the remote identifier that the relay gives, in hexadecimal, or none
/// where it gives none. A DPU's question is about the interface that the packet came in on, the
/// packet's source, and nothing that a relay could say. Both name the client by its DUID.
pub proof fn law_question_tells_where_the_client_is(
    request: RequestView,
    source: Seq<u8>,
    config: Config,
    interface: Seq<char>,
    requires_relay: bool,
)
    requires
        first_step(request, source, config, interface, requires_relay) matches Ok(StepView::Ask(_)),
    ensures
        ({
            let question = first_step(
                request,
                source,
                config,
                interface,
                requires_relay,
            )->Ok_0->Ask_0;
            &&& question.duid == Some(request.duid)
            &&& question.address_family == Some(AddressFamily::V6)
            &&& requires_relay == (request.relay is Some)
            &&& request.relay matches Some(relay) ==> {
                &&& tells_ethernet(relay) ==> question.mac_address == mac_text(
                    relay.client_link_layer->Some_0.skip(2),
                )
                &&& !tells_ethernet(relay) ==> request.duid_mac is Some && question.mac_address
                    == mac_text(request.duid_mac->Some_0)
                &&& question.relay_address == ipv6_text(relay.link_address)
                &&& question.link_address == Some(ipv6_text(relay.link_address))
                &&& relay.interface_id is None ==> question.circuit_id is None
                &&& relay.interface_id matches Some(id) ==> question.circuit_id == Some(
                    hex_text(id),
                )
                &&& relay.remote_id is None ==> question.remote_id is None
                &&& relay.remote_id matches Some(id) ==> question.remote_id == Some(hex_text(id))
            }
            &&& request.relay is None ==> {
                &&& question.mac_address.len() == 0
                &&& question.relay_address == ipv6_text(source)
                &&& question.link_address is None
                &&& question.circuit_id == Some(interface)
                &&& question.remote_id is None
            }
        }),
{
}

/// The vendor text of a question is the first text of the client's first vendor class: `class` is
/// that option, and `value` is its first string that is text. Without such a string there is none.
pub proof fn law_question_tells_the_vendor(
    request: RequestView,
    source: Seq<u8>,
    config: Config,
    interface: Seq<char>,
    requires_relay: bool,
    class: int,
    value: int,
)
    requires
        first_step(request, source, config, interface, requires_relay) matches Ok(StepView::Ask(_)),
    ensures
        ({
            let vendor = first_step(
                request,
                source,
                config,
                interface,
                requires_relay,
            )->Ok_0->Ask_0.vendor_string;
            let options = request.message.options;
            &&& (forall|i: int|
                0 <= i < options.len() ==> (#[trigger] options[i]).number() != 16)
                ==> vendor is None
            &&& 0 <= class < options.len() && options[class] is VendorClass && (forall|i: int|
                0 <= i < class ==> (#[trigger] options[i]).number() != 16) ==> {
                let values = options[class]->values;
                &&& (forall|k: int|
                    0 <= k < values.len() ==> !vstd::utf8::valid_utf8(#[trigger] values[k]))
                    ==> vendor is None
                &&& 0 <= value < values.len() && vstd::utf8::valid_utf8(values[value]) && (forall|
                    k: int,
                |
                    0 <= k < value ==> !vstd::utf8::valid_utf8(#[trigger] values[k])) ==> vendor
                    == Some(vstd::utf8::decode_utf8(values[value]))
            }
        }),
{
    let options = request.message.options;
    if forall|i: int| 0 <= i < options.len() ==> (#[trigger] options[i]).number() != 16 {
        lemma_numbered_none(options, 16);
    }
    if 0 <= class < options.len() && options[class] is VendorClass && (forall|i: int|
        0 <= i < class ==> (#[trigger] options[i]).number() != 16) {
        lemma_numbered_first(options, class, 16);
        let values = options[class]->values;
        if forall|k: int| 0 <= k < values.len() ==> !vstd::utf8::valid_utf8(#[trigger] values[k]) {
            lemma_no_text(values);
        }
        if 0 <= value < values.len() && vstd::utf8::valid_utf8(values[value]) && (forall|k: int|
            0 <= k < value ==> !vstd::utf8::valid_utf8(#[trigger] values[k])) {
            lemma_first_text(values, value);
        }
    }
}

/// Nothing is found under a number that no option has.
pub(crate) proof fn lemma_numbered_none(options: Seq<OptionView>, number: u16)
    requires
        forall|i: int| 0 <= i < options.len() ==> (#[trigger] options[i]).number() != number,
    ensures
        numbered(options, number).len() == 0,
{
    law_numbered_are_all_with_the_number(options, number);
    lemma_filter_of_none(options, |option: OptionView| option.number() == number);
}

/// The first option with a number is the first that is found under it.
pub(crate) proof fn lemma_numbered_first(options: Seq<OptionView>, at: int, number: u16)
    requires
        0 <= at < options.len(),
        options[at].number() == number,
        forall|i: int| 0 <= i < at ==> (#[trigger] options[i]).number() != number,
    ensures
        numbered(options, number).len() > 0,
        numbered(options, number)[0] == options[at],
    decreases options.len(),
{
    if at > 0 {
        let rest = options.skip(1);
        assert(options[0].number() != number);
        assert forall|i: int| 0 <= i < at - 1 implies (#[trigger] rest[i]).number() != number by {
            assert(options[i + 1].number() != number);
        }
        lemma_numbered_first(rest, at - 1, number);
    }
}

/// Among strings that are no text there is no text.
proof fn lemma_no_text(values: Seq<Seq<u8>>)
    requires
        forall|k: int| 0 <= k < values.len() ==> !vstd::utf8::valid_utf8(#[trigger] values[k]),
    ensures
        first_text(values) is None,
    decreases values.len(),
{
    if values.len() != 0 {
        let rest = values.skip(1);
        assert(!vstd::utf8::valid_utf8(values[0]));
        assert forall|k: int| 0 <= k < rest.len() implies !vstd::utf8::valid_utf8(
            #[trigger] rest[k],
        ) by {
            assert(!vstd::utf8::valid_utf8(values[k + 1]));
        }
        lemma_no_text(rest);
    }
}

/// The first string that is text is the first text.
proof fn lemma_first_text(values: Seq<Seq<u8>>, at: int)
    requires
        0 <= at < values.len(),
        vstd::utf8::valid_utf8(values[at]),
        forall|k: int| 0 <= k < at ==> !vstd::utf8::valid_utf8(#[trigger] values[k]),
    ensures
        first_text(values) == Some(vstd::utf8::decode_utf8(values[at])),
    decreases values.len(),
{
    if at > 0 {
        let rest = values.skip(1);
        assert(!vstd::utf8::valid_utf8(values[0]));
        assert forall|k: int| 0 <= k < at - 1 implies !vstd::utf8::valid_utf8(
            #[trigger] rest[k],
        ) by {
            assert(!vstd::utf8::valid_utf8(values[k + 1]));
        }
        lemma_first_text(rest, at - 1);
    }
}

/// What is asked about a request, whichever mode asks: about the interface that it came in on where
/// that counts, and then about no hardware address; and otherwise about the address that identifies
/// the client, without which nothing is asked. What the relay tells is asked in either case.
pub proof fn law_what_is_asked(
    request: RequestView,
    source: Seq<u8>,
    interface: Seq<char>,
    kind: MessageKind,
    local: bool,
)
    ensures
        ({
            let asked = discovery(request, source, interface, kind, local);
            let tells = request.relay is Some && tells_ethernet(request.relay->Some_0);
            let known = tells || request.duid_mac is Some;
            &&& !local && !known ==> asked == Err::<DiscoveryView, ErrorView>(
                ErrorView::NoMacNoOption79,
            )
            &&& asked is Ok ==> {
                let question = asked->Ok_0;
                &&& local || known
                &&& question.message_kind == Some(RequestedKind::Listed(kind))
                &&& question.duid == Some(request.duid)
                &&& question.address_family == Some(AddressFamily::V6)
                &&& local ==> question.mac_address.len() == 0 && question.circuit_id == Some(
                    interface,
                )
                &&& !local && tells ==> question.mac_address == mac_text(
                    request.relay->Some_0.client_link_layer->Some_0.skip(2),
                )
                &&& !local && !tells ==> question.mac_address == mac_text(request.duid_mac->Some_0)
                &&& request.relay is None ==> {
                    &&& question.relay_address == ipv6_text(source)
                    &&& question.link_address is None
                    &&& question.remote_id is None
                    &&& !local ==> question.circuit_id is None
                }
                &&& request.relay matches Some(relay) ==> {
                    &&& question.relay_address == ipv6_text(relay.link_address)
                    &&& question.link_address == Some(ipv6_text(relay.link_address))
                    &&& relay.remote_id is None ==> question.remote_id is None
                    &&& relay.remote_id matches Some(id) ==> question.remote_id == Some(
                        hex_text(id),
                    )
                    &&& !local && relay.interface_id is None ==> question.circuit_id is None
                    &&& (relay.interface_id matches Some(id) ==> (!local ==> question.circuit_id
                        == Some(hex_text(id))))
                }
            }
        }),
{
}

} // verus!
