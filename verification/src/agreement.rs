//! What one packet says, however the codec orders the options of one number.

#[allow(unused_imports)]
use crate::{
    address::same_network,
    codec::{addresses, decoded_as, decodes, MessageView},
    config::{Config, DhcpConfig},
    decode::{lemma_numbered_add, message_of, RelayView},
    message::law_message_number_identifies_type,
    modes::OutcomeView,
    options::{numbered, OptionView},
    packet_handler_v6::{first_step, request_of, second_step},
    raw::{encoded_all, law_encode_inverts_parse, raw_options, RawView},
    reply::{confirmation, fqdn_flags, link_of},
    request::{
        associations, client_identity, lemma_addresses_add, lemma_associations_add, named_address,
        server_fault, vendor_text,
    },
};
use vstd::prelude::*;

verus! {

/// Whether two options say the same, but for the order of the options in them.
pub open spec fn same_option(left: OptionView, right: OptionView) -> bool
    decreases left, 0int,
{
    match left {
        OptionView::IaNa { id, t1, t2, options } => {
            &&& right matches OptionView::IaNa { id: other, t1: first, t2: second, options: inside }
            &&& other == id && first == t1 && second == t2
            &&& same_options(options, inside)
        },
        OptionView::IaTa { id, options } => {
            &&& right matches OptionView::IaTa { id: other, options: inside }
            &&& other == id
            &&& same_options(options, inside)
        },
        OptionView::IaAddr { address, preferred_life, valid_life, options } => {
            &&& right matches OptionView::IaAddr {
                address: other,
                preferred_life: preferred,
                valid_life: valid,
                options: inside,
            }
            &&& other == address && preferred == preferred_life && valid == valid_life
            &&& same_options(options, inside)
        },
        OptionView::IaPd { id, t1, t2, options } => {
            &&& right matches OptionView::IaPd { id: other, t1: first, t2: second, options: inside }
            &&& other == id && first == t1 && second == t2
            &&& same_options(options, inside)
        },
        OptionView::IaPrefix { preferred_life, valid_life, length, prefix, options } => {
            &&& right matches OptionView::IaPrefix {
                preferred_life: preferred,
                valid_life: valid,
                length: other_length,
                prefix: other,
                options: inside,
            }
            &&& other == prefix && other_length == length
            &&& preferred == preferred_life && valid == valid_life
            &&& same_options(options, inside)
        },
        _ => left == right,
    }
}

/// Whether two lists hold the same options, each as often, in any order.
pub open spec fn same_options(left: Seq<OptionView>, right: Seq<OptionView>) -> bool
    decreases left, 1int,
{
    if left.len() == 0 {
        right.len() == 0
    } else {
        exists|i: int|
            {
                &&& 0 <= i < right.len()
                &&& same_option(left[0], #[trigger] right[i])
                &&& same_options(left.skip(1), right.remove(i))
            }
    }
}

/// Whether two messages say the same, but for the order of their options.
pub open spec fn same_message(left: MessageView, right: MessageView) -> bool {
    &&& left.msg_type == right.msg_type
    &&& left.xid == right.xid
    &&& same_options(left.options, right.options)
}

/// Two lists that hold the same options still do with one more option each that says the same.
proof fn lemma_same_one_more(
    left: Seq<OptionView>,
    at: int,
    ours: OptionView,
    right: Seq<OptionView>,
    place: int,
    theirs: OptionView,
)
    requires
        same_options(left, right),
        same_option(ours, theirs),
        0 <= at <= left.len(),
        0 <= place <= right.len(),
    ensures
        same_options(left.insert(at, ours), right.insert(place, theirs)),
    decreases at,
{
    let more = left.insert(at, ours);
    let all = right.insert(place, theirs);
    if at == 0 {
        assert(more.skip(1) == left);
        assert(all.remove(place) == right);
        assert(same_option(more[0], all[place]));
    } else {
        let first = choose|i: int|
            {
                &&& 0 <= i < right.len()
                &&& same_option(left[0], #[trigger] right[i])
                &&& same_options(left.skip(1), right.remove(i))
            };
        let rest = right.remove(first);
        let shifted = if place <= first {
            place
        } else {
            place - 1
        };
        let here = if place <= first {
            first + 1
        } else {
            first
        };
        lemma_same_one_more(left.skip(1), at - 1, ours, rest, shifted, theirs);
        assert(more.skip(1) == left.skip(1).insert(at - 1, ours));
        assert(all.remove(here) == rest.insert(shifted, theirs));
        assert(same_option(more[0], all[here]));
    }
}

/// Two readings of one triple say the same.
proof fn lemma_option_readings_agree(left: OptionView, right: OptionView, raw: RawView)
    requires
        decoded_as(left, raw),
        decoded_as(right, raw),
    ensures
        same_option(left, right),
    decreases raw.data.len() + 4, 0int,
{
    let data = raw.data;
    if raw.code == 3 || raw.code == 25 {
        let ours = if raw.code == 3 {
            left->IaNa_options
        } else {
            left->IaPd_options
        };
        let theirs = if raw.code == 3 {
            right->IaNa_options
        } else {
            right->IaPd_options
        };
        law_encode_inverts_parse(data.skip(12));
        lemma_readings_agree(ours, theirs, raw_options(data.skip(12))->Ok_0);
    } else if raw.code == 4 {
        law_encode_inverts_parse(data.skip(4));
        lemma_readings_agree(
            left->IaTa_options,
            right->IaTa_options,
            raw_options(data.skip(4))->Ok_0,
        );
    } else if raw.code == 5 {
        law_encode_inverts_parse(data.skip(24));
        lemma_readings_agree(
            left->IaAddr_options,
            right->IaAddr_options,
            raw_options(data.skip(24))->Ok_0,
        );
    } else if raw.code == 26 {
        law_encode_inverts_parse(data.skip(25));
        lemma_readings_agree(
            left->IaPrefix_options,
            right->IaPrefix_options,
            raw_options(data.skip(25))->Ok_0,
        );
    }
}

/// Two readings of a list of triples hold the same options.
proof fn lemma_readings_agree(left: Seq<OptionView>, right: Seq<OptionView>, raws: Seq<RawView>)
    requires
        decodes(left, raws),
        decodes(right, raws),
    ensures
        same_options(left, right),
    decreases encoded_all(raws).len(), 1int,
{
    if raws.len() != 0 {
        let rest = raws.skip(1);
        let i = choose|i: int|
            {
                &&& 0 <= i < left.len()
                &&& decoded_as(#[trigger] left[i], raws[0])
                &&& decodes(left.remove(i), rest)
            };
        let j = choose|j: int|
            {
                &&& 0 <= j < right.len()
                &&& decoded_as(#[trigger] right[j], raws[0])
                &&& decodes(right.remove(j), rest)
            };
        lemma_readings_agree(left.remove(i), right.remove(j), rest);
        lemma_option_readings_agree(left[i], right[j], raws[0]);
        lemma_same_one_more(left.remove(i), i, left[i], right.remove(j), j, right[j]);
        assert(left.remove(i).insert(i, left[i]) == left);
        assert(right.remove(j).insert(j, right[j]) == right);
    }
}

/// Options that say the same have the same number.
proof fn lemma_same_number(left: OptionView, right: OptionView)
    requires
        same_option(left, right),
    ensures
        left.number() == right.number(),
{
}

/// The options under a number are those before one option, that option if it has the number, and
/// those behind it.
proof fn lemma_numbered_around(options: Seq<OptionView>, at: int, number: u16)
    requires
        0 <= at < options.len(),
    ensures
        numbered(options, number) == if options[at].number() == number {
            numbered(options.remove(at), number).insert(
                numbered(options.take(at), number).len() as int,
                options[at],
            )
        } else {
            numbered(options.remove(at), number)
        },
        numbered(options.take(at), number).len() <= numbered(options.remove(at), number).len(),
{
    let front = options.take(at);
    let back = options.skip(at + 1);
    let here = seq![options[at]];
    assert(options == front + (here + back));
    assert(options.remove(at) == front + back);
    lemma_numbered_add(front, here + back, number);
    lemma_numbered_add(here, back, number);
    lemma_numbered_add(front, back, number);
    reveal_with_fuel(numbered, 2);
    assert(here.skip(1) == Seq::<OptionView>::empty());
    if options[at].number() == number {
        assert(numbered(here, number) == here);
    } else {
        assert(numbered(here, number) == Seq::<OptionView>::empty());
    }
}

/// Lists that hold the same options hold the same ones under each number.
proof fn lemma_same_numbered(left: Seq<OptionView>, right: Seq<OptionView>, number: u16)
    requires
        same_options(left, right),
    ensures
        same_options(numbered(left, number), numbered(right, number)),
    decreases left.len(),
{
    if left.len() != 0 {
        let rest = left.skip(1);
        let i = choose|i: int|
            {
                &&& 0 <= i < right.len()
                &&& same_option(left[0], #[trigger] right[i])
                &&& same_options(rest, right.remove(i))
            };
        lemma_same_numbered(rest, right.remove(i), number);
        lemma_same_number(left[0], right[i]);
        lemma_numbered_around(right, i, number);
        if left[0].number() == number {
            let ours = numbered(rest, number);
            assert(numbered(left, number) == ours.insert(0, left[0]));
            lemma_same_one_more(
                ours,
                0,
                left[0],
                numbered(right.remove(i), number),
                numbered(right.take(i), number).len() as int,
                right[i],
            );
        }
    }
}

/// Lists that hold the same options have the same length.
proof fn lemma_same_length(left: Seq<OptionView>, right: Seq<OptionView>)
    requires
        same_options(left, right),
    ensures
        left.len() == right.len(),
    decreases left.len(),
{
    if left.len() != 0 {
        let i = choose|i: int|
            {
                &&& 0 <= i < right.len()
                &&& same_option(left[0], #[trigger] right[i])
                &&& same_options(left.skip(1), right.remove(i))
            };
        lemma_same_length(left.skip(1), right.remove(i));
    }
}

/// What stands under a number at most once is the same in lists that hold the same options.
proof fn lemma_same_single(left: Seq<OptionView>, right: Seq<OptionView>, number: u16)
    requires
        same_options(left, right),
    ensures
        numbered(left, number).len() == numbered(right, number).len(),
        numbered(left, number).len() == 1 ==> same_option(
            numbered(left, number)[0],
            numbered(right, number)[0],
        ),
{
    lemma_same_numbered(left, right, number);
    lemma_same_length(numbered(left, number), numbered(right, number));
}

/// Lists that hold the same options hold as many identity associations, and a single one is the
/// same.
proof fn lemma_same_associations(left: Seq<OptionView>, right: Seq<OptionView>)
    requires
        same_options(left, right),
    ensures
        associations(left).len() == associations(right).len(),
        associations(left).len() == 1 ==> {
            &&& associations(left)[0].id == associations(right)[0].id
            &&& same_options(associations(left)[0].options, associations(right)[0].options)
        },
    decreases left.len(),
{
    if left.len() != 0 {
        let rest = left.skip(1);
        let i = choose|i: int|
            {
                &&& 0 <= i < right.len()
                &&& same_option(left[0], #[trigger] right[i])
                &&& same_options(rest, right.remove(i))
            };
        let front = right.take(i);
        let back = right.skip(i + 1);
        let here = seq![right[i]];
        lemma_same_associations(rest, right.remove(i));
        assert(right == front + (here + back));
        assert(right.remove(i) == front + back);
        lemma_associations_add(front, here + back);
        lemma_associations_add(here, back);
        lemma_associations_add(front, back);
        reveal_with_fuel(associations, 2);
        assert(here.skip(1) == Seq::<OptionView>::empty());
        if left[0] is IaNa {
            assert(associations(left).len() == 1 + associations(rest).len());
            assert(associations(here).len() == 1);
        } else {
            assert(associations(here).len() == 0);
            assert(associations(right) == associations(front + back));
        }
    }
}

/// Lists that hold the same options hold the same addresses, each as often.
proof fn lemma_same_addresses(left: Seq<OptionView>, right: Seq<OptionView>)
    requires
        same_options(left, right),
    ensures
        addresses(left).to_multiset() == addresses(right).to_multiset(),
    decreases left.len(),
{
    if left.len() == 0 {
        assert(addresses(left) == addresses(right));
    } else {
        let rest = left.skip(1);
        let i = choose|i: int|
            {
                &&& 0 <= i < right.len()
                &&& same_option(left[0], #[trigger] right[i])
                &&& same_options(rest, right.remove(i))
            };
        let front = right.take(i);
        let back = right.skip(i + 1);
        let here = seq![right[i]];
        lemma_same_addresses(rest, right.remove(i));
        assert(right == front + (here + back));
        assert(right.remove(i) == front + back);
        lemma_addresses_add(front, here + back);
        lemma_addresses_add(here, back);
        lemma_addresses_add(front, back);
        reveal_with_fuel(addresses, 2);
        assert(here.skip(1) == Seq::<OptionView>::empty());
        let first = addresses(here);
        assert(addresses(left) == first + addresses(rest));
        vstd::seq_lib::lemma_multiset_commutative(first, addresses(rest));
        vstd::seq_lib::lemma_multiset_commutative(addresses(front), addresses(back));
        vstd::seq_lib::lemma_multiset_commutative(addresses(front), first + addresses(back));
        vstd::seq_lib::lemma_multiset_commutative(first, addresses(back));
        assert(addresses(left).to_multiset() =~= addresses(right).to_multiset());
    }
}

/// Whatever order the codec hands options out in, two readings of one packet say the same message.
pub proof fn law_readings_say_the_same(packet: Seq<u8>, left: MessageView, right: MessageView)
    requires
        message_of(packet, left),
        message_of(packet, right),
    ensures
        same_message(left, right),
{
    law_message_number_identifies_type(left.msg_type, right.msg_type);
    lemma_readings_agree(left.options, right.options, raw_options(packet.skip(4))->Ok_0);
}

/// The codec may hand out options of one number in any order. Whatever the order, a packet says the
/// same: its type and its transaction, who the client is, which server it selects, and the one
/// address that it names. Only of several vendor classes, or of several names, the order decides
/// which one counts.
pub proof fn law_packet_determines_the_request(
    packet: Seq<u8>,
    left: MessageView,
    right: MessageView,
    config: DhcpConfig,
)
    requires
        message_of(packet, left),
        message_of(packet, right),
    ensures
        left.msg_type == right.msg_type,
        left.xid == right.xid,
        forall|number: u16|
            (#[trigger] numbered(left.options, number)).len() == numbered(
                right.options,
                number,
            ).len(),
        client_identity(left.options) == client_identity(right.options),
        server_fault(left, config) == server_fault(right, config),
        named_address(left.options) == named_address(right.options),
        numbered(left.options, 16).len() <= 1 ==> vendor_text(left.options) == vendor_text(
            right.options,
        ),
        numbered(left.options, 39).len() <= 1 ==> fqdn_flags(left.options) == fqdn_flags(
            right.options,
        ),
{
    law_readings_say_the_same(packet, left, right);
    assert forall|number: u16|
        (#[trigger] numbered(left.options, number)).len() == numbered(
            right.options,
            number,
        ).len() by {
        lemma_same_single(left.options, right.options, number);
    }
    lemma_same_single(left.options, right.options, 1);
    lemma_same_single(left.options, right.options, 2);
    lemma_same_single(left.options, right.options, 16);
    lemma_same_single(left.options, right.options, 39);
    lemma_same_associations(left.options, right.options);
    if associations(left.options).len() == 1 {
        let ours = addresses(associations(left.options)[0].options);
        let theirs = addresses(associations(right.options)[0].options);
        lemma_same_addresses(
            associations(left.options)[0].options,
            associations(right.options)[0].options,
        );
        ours.to_multiset_ensures();
        theirs.to_multiset_ensures();
        if ours.len() == 1 {
            assert(ours.contains(ours[0]));
            assert(theirs.to_multiset().count(ours[0]) > 0);
            assert(theirs.contains(ours[0]));
        }
    }
}

/// Messages that say the same are confirmed or refused alike.
proof fn lemma_same_confirmation(
    left: Seq<OptionView>,
    right: Seq<OptionView>,
    config: Config,
    interface: Seq<char>,
)
    requires
        same_options(left, right),
    ensures
        confirmation(left, config, interface) == confirmation(right, config, interface),
{
    lemma_same_associations(left, right);
    if associations(left).len() == 1 {
        let ours = addresses(associations(left)[0].options);
        let theirs = addresses(associations(right)[0].options);
        lemma_same_addresses(associations(left)[0].options, associations(right)[0].options);
        ours.to_multiset_ensures();
        theirs.to_multiset_ensures();
        if let Some((network, prefix)) = link_of(config, interface) {
            lemma_same_members(ours, theirs, network, prefix);
            lemma_same_members(theirs, ours, network, prefix);
        }
    }
}

/// Addresses that are all on a link are on it in any order.
proof fn lemma_same_members(ours: Seq<Seq<u8>>, theirs: Seq<Seq<u8>>, network: Seq<u8>, prefix: u8)
    requires
        ours.to_multiset() == theirs.to_multiset(),
    ensures
        (forall|i: int|
            0 <= i < ours.len() ==> same_network(network, #[trigger] ours[i], prefix)) ==> (forall|
            i: int,
        |
            0 <= i < theirs.len() ==> same_network(network, #[trigger] theirs[i], prefix)),
{
    ours.to_multiset_ensures();
    theirs.to_multiset_ensures();
    if forall|i: int| 0 <= i < ours.len() ==> same_network(network, #[trigger] ours[i], prefix) {
        assert forall|i: int| 0 <= i < theirs.len() implies same_network(
            network,
            #[trigger] theirs[i],
            prefix,
        ) by {
            assert(theirs.contains(theirs[i]));
            assert(ours.to_multiset().count(theirs[i]) > 0);
            let k = choose|k: int| 0 <= k < ours.len() && ours[k] == theirs[i];
            assert(same_network(network, ours[k], prefix));
        }
    }
}

/// What follows from a packet with at most one vendor class, before anybody is asked, follows from
/// its octets alone.
pub proof fn law_packet_determines_the_first_step(
    packet: Seq<u8>,
    left: MessageView,
    right: MessageView,
    relay: Option<RelayView>,
    source: Seq<u8>,
    config: Config,
    interface: Seq<char>,
    requires_relay: bool,
)
    requires
        message_of(packet, left),
        message_of(packet, right),
        numbered(left.options, 16).len() <= 1,
    ensures
        match (request_of(left, relay), request_of(right, relay)) {
            (Ok(ours), Ok(theirs)) => first_step(ours, source, config, interface, requires_relay)
                == first_step(theirs, source, config, interface, requires_relay),
            (Err(ours), Err(theirs)) => ours == theirs,
            _ => false,
        },
{
    law_readings_say_the_same(packet, left, right);
    law_packet_determines_the_request(packet, left, right, config.dhcp_config);
    lemma_same_associations(left.options, right.options);
    lemma_same_confirmation(left.options, right.options, config, interface);
    assert(numbered(left.options, 4).len() == numbered(right.options, 4).len());
    assert(numbered(left.options, 25).len() == numbered(right.options, 25).len());
}

/// What a packet with at most one name is answered, once the answer to its question is known,
/// follows from its octets and that answer alone.
pub proof fn law_packet_determines_the_answer(
    packet: Seq<u8>,
    left: MessageView,
    right: MessageView,
    relay: Option<RelayView>,
    outcome: OutcomeView,
    config: DhcpConfig,
)
    requires
        message_of(packet, left),
        message_of(packet, right),
        numbered(left.options, 39).len() <= 1,
    ensures
        match (request_of(left, relay), request_of(right, relay)) {
            (Ok(ours), Ok(theirs)) => second_step(ours, outcome, config) == second_step(
                theirs,
                outcome,
                config,
            ),
            (Err(ours), Err(theirs)) => ours == theirs,
            _ => false,
        },
{
    law_readings_say_the_same(packet, left, right);
    law_packet_determines_the_request(packet, left, right, config);
    lemma_same_associations(left.options, right.options);
}

} // verus!
