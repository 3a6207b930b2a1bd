//! Which packets are taken in, and what is read in them, told from their octets.

#[allow(unused_imports)]
use crate::{
    bytes::{u16_at, u32_at},
    codec::{decoded_as, decodes, option_read, option_written, MessageView},
    decode::{
        client_octets, envelope_of, message_fault, message_of, packet_fault, plain, DecodeError,
    },
    message::{canonical_message_type, message_number, MessageType},
    options::OptionView,
    raw::{coded, encoded_all, parse_raw_options, raw_options, RawOption, RawView},
    wire::{
        law_budget_is_exact, nested_payload, option_depth, option_fault, option_total,
        reading_fault, semantic_fault, well_framed, WireFault,
    },
};
use vstd::prelude::*;

verus! {

/// The triples of a code are those that have it, all of them, in their order.
pub proof fn law_coded_are_all_with_the_code(options: Seq<RawView>, code: u16)
    ensures
        coded(options, code) == options.filter(|option: RawView| option.code == code),
    decreases options.len(),
{
    let pred = |option: RawView| option.code == code;
    reveal_with_fuel(Seq::filter, 2);
    if options.len() == 0 {
        assert(coded(options, code) =~= options.filter(pred));
    } else {
        let first = seq![options[0]];
        let rest = options.skip(1);
        law_coded_are_all_with_the_code(rest, code);
        assert(options == first + rest);
        Seq::filter_distributes_over_add(first, rest, pred);
        assert(first.drop_last() == Seq::<RawView>::empty());
        assert(first.filter(pred) == if pred(options[0]) {
            first
        } else {
            Seq::<RawView>::empty()
        });
        assert(coded(options, code) =~= options.filter(pred));
    }
}

/// Setting vendor options aside leaves every other option, in its order.
pub proof fn law_plain_are_all_but_vendor_options(options: Seq<RawView>)
    ensures
        plain(options) == options.filter(|option: RawView| option.code != 17),
    decreases options.len(),
{
    let pred = |option: RawView| option.code != 17;
    reveal_with_fuel(Seq::filter, 2);
    if options.len() == 0 {
        assert(plain(options) =~= options.filter(pred));
    } else {
        let first = seq![options[0]];
        let rest = options.skip(1);
        law_plain_are_all_but_vendor_options(rest);
        assert(options == first + rest);
        Seq::filter_distributes_over_add(first, rest, pred);
        assert(first.drop_last() == Seq::<RawView>::empty());
        assert(first.filter(pred) == if pred(options[0]) {
            first
        } else {
            Seq::<RawView>::empty()
        });
        assert(plain(options) =~= options.filter(pred));
    }
}

/// Octets that stop short are refused for where they stop: behind whole triples, less than four
/// octets are no header, and a header that announces more octets than follow has no payload.
pub proof fn law_truncation_is_told(whole: Seq<RawView>, rest: Seq<u8>)
    requires
        forall|i: int| 0 <= i < whole.len() ==> (#[trigger] whole[i]).data.len() <= 0xffff,
        rest.len() > 0,
    ensures
        rest.len() < 4 ==> raw_options(encoded_all(whole) + rest) == Err::<Seq<RawView>, Seq<char>>(
            "truncated option header"@,
        ),
        rest.len() >= 4 && rest.len() - 4 < rest[2] * 256 + rest[3] ==> raw_options(
            encoded_all(whole) + rest,
        ) == Err::<Seq<RawView>, Seq<char>>("truncated option payload"@),
    decreases whole.len(),
{
    let all = encoded_all(whole) + rest;
    if whole.len() == 0 {
        assert(all == rest);
    } else {
        let first = whole[0];
        let others = whole.skip(1);
        assert forall|i: int| 0 <= i < others.len() implies (#[trigger] others[i]).data.len()
            <= 0xffff by {
            assert(whole[i + 1].data.len() <= 0xffff);
        }
        law_truncation_is_told(others, rest);
        let tail = encoded_all(others) + rest;
        assert(first.data.len() <= 0xffff);
        assert(all =~= first.encoded() + tail);
        let end = 4 + first.data.len() as int;
        assert(u16_at(all, 2) == first.data.len());
        assert(all.skip(end) =~= tail);
    }
}

/// Octets that are no list of triples are refused for what the reading of them came to.
pub proof fn law_refused_octets_tell_why(
    bytes: &[u8],
    result: Result<Vec<RawOption<'_>>, DecodeError>,
)
    requires
        call_ensures(parse_raw_options, (bytes,), result),
    ensures
        result is Ok <==> raw_options(bytes@) is Ok,
        result matches Err(error) ==> error@ == WireFault::Malformed(raw_options(bytes@)->Err_0),
{
}

/// Where the options inside an option start: behind twelve octets in the association of an address
/// or a prefix, behind four in that of temporary addresses, behind 24 in an address and 25 in a
/// prefix. No other option holds options. A container that is too short for what stands before its
/// options is refused, and a relay message does not belong in a client message.
pub proof fn law_containers_hold_their_options_behind_a_header(option: RawView)
    ensures
        ({
            let inside = nested_payload(option);
            let n = option.data.len();
            let skipped = |offset: int| if n < offset {
                Err::<Option<Seq<u8>>, Seq<char>>("invalid client option"@)
            } else {
                Ok(Some(option.data.subrange(offset, n as int)))
            };
            &&& option.code == 3 || option.code == 25 ==> inside == skipped(12)
            &&& option.code == 4 ==> inside == skipped(4)
            &&& option.code == 5 ==> inside == skipped(24)
            &&& option.code == 26 ==> inside == skipped(25)
            &&& option.code == 9 ==> inside == Err::<Option<Seq<u8>>, Seq<char>>(
                "relay-message option in client message"@,
            )
            &&& option.code != 3 && option.code != 4 && option.code != 5 && option.code != 9
                && option.code != 25 && option.code != 26 ==> inside == Ok::<
                Option<Seq<u8>>,
                Seq<char>,
            >(None)
        }),
{
    let data = option.data;
    if nested_payload(option) matches Ok(Some(_)) {
        let payload = nested_payload(option)->Ok_0->Some_0;
        assert(payload =~= data.subrange(data.len() - payload.len(), data.len() as int));
    }
}

/// Whether one option that is no vendor option is sound by itself: it is read to its last octet and
/// written again in as many octets as it has.
pub open spec fn reads_back(option: RawView) -> bool {
    &&& option_read(option.encoded()) == Ok::<nat, Seq<char>>(0)
    &&& option_written(option.encoded()) == Some(option.encoded().len())
}

/// The options of a list are sound exactly when each that is no vendor option is sound by itself and
/// what is nested in it is sound. Vendor options are taken as they are.
pub proof fn law_every_option_is_read(options: Seq<RawView>)
    ensures
        semantic_fault(options) is None <==> forall|i: int|
            0 <= i < options.len() && (#[trigger] options[i]).code != 17 ==> {
                &&& reads_back(options[i])
                &&& nested_payload(options[i]) is Ok
                &&& nested_payload(options[i])->Ok_0 matches Some(payload) ==> {
                    &&& raw_options(payload) is Ok
                    &&& semantic_fault(raw_options(payload)->Ok_0) is None
                }
            },
    decreases options.len(),
{
    if options.len() > 0 {
        let rest = options.skip(1);
        law_every_option_is_read(rest);
        assert forall|i: int| 0 <= i < rest.len() implies #[trigger] rest[i] == options[i + 1] by {}
        assert(forall|i: int| 1 <= i < options.len() ==> #[trigger] options[i] == rest[i - 1]);
    }
}

/// Options are framed well exactly when each is: a vendor option stands outside of containers, with
/// whole suboptions behind its enterprise number, and a container holds whole options that are
/// framed well inside it.
pub proof fn law_every_option_is_framed(options: Seq<RawView>, nested: bool)
    ensures
        well_framed(options, nested) <==> forall|i: int|
            0 <= i < options.len() ==> {
                let option = #[trigger] options[i];
                &&& option.code == 17 ==> !nested && option.data.len() >= 4 && raw_options(
                    option.data.skip(4),
                ) is Ok
                &&& option.code != 17 ==> nested_payload(option) is Ok
                &&& option.code != 17 && nested_payload(option)->Ok_0 is Some ==> {
                    let inside = raw_options(nested_payload(option)->Ok_0->Some_0);
                    inside is Ok && well_framed(inside->Ok_0, true)
                }
            },
    decreases options.len(),
{
    reveal_with_fuel(well_framed, 2);
    if options.len() > 0 {
        let rest = options.skip(1);
        law_every_option_is_framed(rest, nested);
        assert forall|i: int| 0 <= i < rest.len() implies #[trigger] rest[i] == options[i + 1] by {}
        assert(forall|i: int| 1 <= i < options.len() ==> #[trigger] options[i] == rest[i - 1]);
    }
}

/// Every option counts once, and so does each that is nested in it or is its suboption; the depth of
/// options is that of the deepest of them, and an option with options in it is one deeper than they
/// are.
pub proof fn law_every_option_counts(options: Seq<RawView>)
    requires
        options.len() > 0,
    ensures
        ({
            let option = options[0];
            let rest = options.skip(1);
            let suboptions = raw_options(option.data.skip(4));
            let held = nested_payload(option);
            let inside = raw_options(held->Ok_0->Some_0);
            let holds = held is Ok && held->Ok_0 is Some && inside is Ok;
            let below = if option.code == 17 {
                if suboptions is Ok {
                    suboptions->Ok_0.len()
                } else {
                    0
                }
            } else if holds {
                option_total(inside->Ok_0)
            } else {
                0
            };
            let deep = if holds && inside->Ok_0.len() > 0 {
                1 + option_depth(inside->Ok_0)
            } else {
                0
            };
            &&& option_total(Seq::<RawView>::empty()) == 0
            &&& option_depth(Seq::<RawView>::empty()) == 0
            &&& option_total(options) == 1 + below + option_total(rest)
            &&& option_depth(options) >= deep
            &&& option_depth(options) >= option_depth(rest)
            &&& option_depth(options) == deep || option_depth(options) == option_depth(rest)
        }),
{
    reveal_with_fuel(option_total, 2);
    reveal_with_fuel(option_depth, 2);
}

/// How many triples of a code there are.
pub open spec fn tally(options: Seq<RawView>, code: u16) -> nat {
    options.filter(|option: RawView| option.code == code).len()
}

/// Whether octets are a sound client message: a header of four octets and whole options, well framed,
/// nested no deeper than eight and no more than 256, that are each read to their end.
pub open spec fn sound_message(octets: Seq<u8>) -> bool {
    let options = raw_options(octets.skip(4));
    &&& octets.len() >= 4
    &&& options is Ok
    &&& well_framed(options->Ok_0, false)
    &&& option_depth(options->Ok_0) <= 8
    &&& option_total(options->Ok_0) <= 256
    &&& semantic_fault(options->Ok_0) is None
}

/// Which packets are taken in: sound client messages, and envelopes of the first hop that hold
/// exactly one of them, and at most one each of an interface, a remote identifier and a link-layer
/// address. Envelopes of replies, and envelopes in envelopes, are not.
pub proof fn law_which_packets_are_taken_in(packet: Seq<u8>)
    ensures
        ({
            let direct = packet.len() > 0 && packet[0] != 12 && packet[0] != 13;
            let options = raw_options(packet.skip(34));
            let inner = options->Ok_0.filter(|option: RawView| option.code == 9)[0].data;
            let enveloped = {
                &&& packet.len() >= 34
                &&& packet[0] == 12
                &&& packet[1] == 0
                &&& options is Ok
                &&& tally(options->Ok_0, 9) == 1
                &&& tally(options->Ok_0, 18) <= 1
                &&& tally(options->Ok_0, 37) <= 1
                &&& tally(options->Ok_0, 79) <= 1
                &&& inner[0] != 12 && inner[0] != 13
                &&& sound_message(inner)
            };
            &&& packet_fault(packet) is None <==> (direct && sound_message(packet)) || enveloped
            &&& packet_fault(packet) is None && direct ==> client_octets(packet) == packet
                && envelope_of(packet) is None
            &&& packet_fault(packet) is None && enveloped ==> {
                &&& client_octets(packet) == inner
                &&& envelope_of(packet) matches Some(relay)
                &&& relay.hop_count == 0
                &&& relay.link_address == packet.subrange(2, 18)
                &&& relay.peer_address == packet.subrange(18, 34)
                &&& relayed_option(options->Ok_0, 18, relay.interface_id)
                &&& relayed_option(options->Ok_0, 37, relay.remote_id)
                &&& relayed_option(options->Ok_0, 79, relay.client_link_layer)
            }
        }),
{
    lemma_sound(packet);
    let options = raw_options(packet.skip(34))->Ok_0;
    law_coded_are_all_with_the_code(options, 9);
    law_coded_are_all_with_the_code(options, 18);
    law_coded_are_all_with_the_code(options, 37);
    law_coded_are_all_with_the_code(options, 79);
    let inner = options.filter(|option: RawView| option.code == 9)[0].data;
    lemma_sound(inner);
}

/// Whether an envelope says by its option of a code what is read: its payload, or nothing where it
/// has no such option.
pub open spec fn relayed_option(options: Seq<RawView>, code: u16, read: Option<Seq<u8>>) -> bool {
    let found = options.filter(|option: RawView| option.code == code);
    match read {
        Some(data) => found.len() == 1 && found[0].data == data,
        None => found.len() == 0,
    }
}

/// A client message is taken in exactly when it is sound.
proof fn lemma_sound(octets: Seq<u8>)
    ensures
        message_fault(octets) is None <==> sound_message(octets),
{
    if octets.len() >= 4 && raw_options(octets.skip(4)) is Ok {
        law_budget_is_exact(raw_options(octets.skip(4))->Ok_0, 0, 0);
    }
}

/// What a packet that is not taken in is refused for, by the first thing that is wrong with it. The
/// words of the codec for an option that it cannot read are handed on.
pub proof fn law_packets_are_refused_for_what_is_wrong(packet: Seq<u8>)
    ensures
        ({
            let fault = packet_fault(packet);
            let read = raw_options(packet.skip(34));
            let options = read->Ok_0;
            let inner = options.filter(|option: RawView| option.code == 9)[0].data;
            let envelope = packet.len() > 0 && packet[0] == 12;
            let forwarded = envelope && packet.len() >= 34 && packet[1] == 0;
            let one = forwarded && read is Ok && tally(options, 9) == 1;
            let malformed = |reason: Seq<char>| Some(WireFault::Malformed(reason));
            &&& packet.len() == 0 ==> fault == malformed("empty packet"@)
            &&& packet.len() > 0 && packet[0] == 13 ==> fault == Some(
                WireFault::UnexpectedRelayReply,
            )
            &&& 0 < packet.len() < 4 && packet[0] != 12 && packet[0] != 13 ==> fault == malformed(
                "truncated client header"@,
            )
            &&& packet.len() >= 4 && packet[0] != 12 && packet[0] != 13 && raw_options(
                packet.skip(4),
            ) is Err ==> fault == malformed(raw_options(packet.skip(4))->Err_0)
            &&& envelope && packet.len() < 34 ==> fault == malformed("truncated relay header"@)
            &&& envelope && packet.len() >= 34 && packet[1] != 0 ==> fault == Some(
                WireFault::RelayHopCountExceeded(packet[1]),
            )
            &&& forwarded && read is Err ==> fault == malformed(read->Err_0)
            &&& forwarded && read is Ok && tally(options, 9) == 0 ==> fault == Some(
                WireFault::MissingRelayMessage,
            )
            &&& forwarded && read is Ok && tally(options, 9) > 1 ==> fault == malformed(
                "duplicate relay option"@,
            )
            &&& one && inner.len() > 0 && (inner[0] == 12 || inner[0] == 13) ==> fault == Some(
                WireFault::NestedRelay,
            )
            &&& one && inner.len() == 0 ==> fault == malformed("truncated client header"@)
            &&& one && inner.len() > 0 && inner[0] != 12 && inner[0] != 13 && !sound_message(inner)
                ==> fault == packet_fault(inner)
            &&& one && inner.len() > 0 && inner[0] != 12 && inner[0] != 13 && sound_message(inner)
                && (tally(options, 18) > 1 || tally(options, 37) > 1 || tally(options, 79) > 1)
                ==> fault == malformed("duplicate relay option"@)
        }),
{
    lemma_sound(packet);
    let options = raw_options(packet.skip(34))->Ok_0;
    law_coded_are_all_with_the_code(options, 9);
    law_coded_are_all_with_the_code(options, 18);
    law_coded_are_all_with_the_code(options, 37);
    law_coded_are_all_with_the_code(options, 79);
    lemma_sound(options.filter(|option: RawView| option.code == 9)[0].data);
}

/// One option of a client message is refused for what is wrong with it: words of the codec for one
/// that it cannot read, and a reason for one that it does not read to the end, cannot write again or
/// writes in another length.
pub proof fn law_options_are_refused_for_what_is_wrong(option: RawView)
    ensures
        ({
            let fault = option_fault(option.encoded());
            let read = option_read(option.encoded());
            let written = option_written(option.encoded());
            let malformed = |reason: Seq<char>| Some(WireFault::Malformed(reason));
            &&& fault is None <==> reads_back(option)
            &&& read is Err ==> fault == Some(WireFault::Undecodable(read->Err_0))
            &&& read is Ok && read->Ok_0 > 0 ==> fault == malformed("invalid client option length"@)
            &&& read == Ok::<nat, Seq<char>>(0) && written is None ==> fault == malformed(
                "unencodable client option"@,
            )
            &&& read == Ok::<nat, Seq<char>>(0) && written is Some && written->Some_0
                != option.encoded().len() ==> fault == malformed("partially decoded client option"@)
        }),
{
}

/// What a reading is refused for, whatever was read: the codec's words where it could not read, a
/// length where it did not read to the end, and what came of writing it again.
pub proof fn law_readings_are_judged_by_their_length(
    read: Result<nat, Seq<char>>,
    written: Option<nat>,
    length: nat,
)
    ensures
        ({
            let fault = reading_fault(read, written, length);
            let whole = read == Ok::<nat, Seq<char>>(0);
            &&& fault is None <==> whole && written == Some(length)
            &&& fault is Some && fault->Some_0 is Undecodable <==> read is Err
            &&& read is Err ==> fault->Some_0->Undecodable_0 == read->Err_0
        }),
{
}

/// The number that stands for each type of message.
pub proof fn law_message_types_are_told_by_their_numbers(message_type: MessageType)
    requires
        canonical_message_type(message_type),
    ensures
        ({
            let number = message_number(message_type);
            &&& message_type is Solicit <==> number == 1
            &&& message_type is Advertise <==> number == 2
            &&& message_type is Request <==> number == 3
            &&& message_type is Confirm <==> number == 4
            &&& message_type is Renew <==> number == 5
            &&& message_type is Rebind <==> number == 6
            &&& message_type is Reply <==> number == 7
            &&& message_type is Release <==> number == 8
            &&& message_type is Decline <==> number == 9
            &&& message_type is Reconfigure <==> number == 10
            &&& message_type is InformationRequest <==> number == 11
            &&& message_type is RelayForw <==> number == 12
            &&& message_type is RelayRepl <==> number == 13
            &&& message_type is LeaseQuery <==> number == 14
            &&& message_type is LeaseQueryReply <==> number == 15
            &&& message_type is LeaseQueryDone <==> number == 16
            &&& message_type is LeaseQueryData <==> number == 17
            &&& message_type is ReconfigureRequest <==> number == 18
            &&& message_type is ReconfigureReply <==> number == 19
            &&& message_type is DHCPv4Query <==> number == 20
            &&& message_type is DHCPv4Response <==> number == 21
            &&& message_type is Unknown <==> number == 0 || number > 21
            &&& message_type matches MessageType::Unknown(told) ==> told == number
        }),
{
}

/// Whether an option of a message is what a triple says, as far as the service reads it. The order in
/// an identity association is left open.
pub open spec fn says(option: OptionView, raw: RawView) -> bool {
    &&& option.number() == raw.code
    &&& raw.code == 1 ==> option == OptionView::ClientId(raw.data)
    &&& raw.code == 2 ==> option == OptionView::ServerId(raw.data)
    &&& raw.code == 3 ==> option is IaNa && option->IaNa_id == u32_at(raw.data, 0)
    &&& raw.code == 5 ==> option is IaAddr && option->IaAddr_address == raw.data.subrange(0, 16)
    &&& raw.code == 16 ==> option is VendorClass
    &&& raw.code == 17 || raw.code == 39 ==> option == (OptionView::Unknown {
        code: raw.code,
        data: raw.data,
    })
}

/// A message is read from its octets: its type from the first, its transaction from the next three,
/// and one option from each triple, which says what the triple says. Vendor options stay as they
/// are.
pub proof fn law_message_is_read_from_its_octets(packet: Seq<u8>, message: MessageView)
    requires
        packet.len() >= 4,
        message_of(packet, message),
    ensures
        ({
            let raws = raw_options(packet.skip(4))->Ok_0;
            let options = message.options;
            &&& message_number(message.msg_type) == packet[0]
            &&& message.xid == packet.subrange(1, 4)
            &&& message.xid.len() == 3
            &&& options.len() == raws.len()
            &&& forall|k: int|
                0 <= k < raws.len() ==> exists|i: int|
                    0 <= i < options.len() && says(#[trigger] options[i], #[trigger] raws[k])
            &&& forall|i: int|
                0 <= i < options.len() ==> exists|k: int|
                    0 <= k < raws.len() && says(#[trigger] options[i], #[trigger] raws[k])
            &&& forall|i: int, j: int|
                0 <= i < j < options.len() ==> (#[trigger] options[i]).number() <= (
                #[trigger] options[j]).number()
        }),
{
    let raws = raw_options(packet.skip(4))->Ok_0;
    let options = message.options;
    lemma_one_for_each(options, raws);
    assert forall|k: int| 0 <= k < raws.len() implies exists|i: int|
        0 <= i < options.len() && says(#[trigger] options[i], #[trigger] raws[k]) by {
        let i = lemma_option_of(options, raws, k);
        lemma_says(options[i], raws[k]);
    }
    assert forall|i: int| 0 <= i < options.len() implies exists|k: int|
        0 <= k < raws.len() && says(#[trigger] options[i], #[trigger] raws[k]) by {
        let k = lemma_triple_of(options, raws, i);
        lemma_says(options[i], raws[k]);
    }
}

/// What is decoded from a triple says what the triple says.
proof fn lemma_says(option: OptionView, raw: RawView)
    requires
        decoded_as(option, raw),
    ensures
        says(option, raw),
{
    reveal_with_fuel(decoded_as, 2);
    if raw.code == 5 {
        assert(raw.data.take(16) =~= raw.data.subrange(0, 16));
    }
}

/// There are as many options as triples.
proof fn lemma_one_for_each(options: Seq<OptionView>, raws: Seq<RawView>)
    requires
        decodes(options, raws),
    ensures
        options.len() == raws.len(),
    decreases raws.len(),
{
    if raws.len() > 0 {
        let at = choose|i: int|
            {
                &&& 0 <= i < options.len()
                &&& decoded_as(#[trigger] options[i], raws[0])
                &&& decodes(options.remove(i), raws.skip(1))
            };
        lemma_one_for_each(options.remove(at), raws.skip(1));
    }
}

/// The option that is decoded from a triple.
proof fn lemma_option_of(options: Seq<OptionView>, raws: Seq<RawView>, k: int) -> (i: int)
    requires
        decodes(options, raws),
        0 <= k < raws.len(),
    ensures
        0 <= i < options.len(),
        decoded_as(options[i], raws[k]),
    decreases raws.len(),
{
    let at = choose|i: int|
        {
            &&& 0 <= i < options.len()
            &&& decoded_as(#[trigger] options[i], raws[0])
            &&& decodes(options.remove(i), raws.skip(1))
        };
    if k == 0 {
        at
    } else {
        let i = lemma_option_of(options.remove(at), raws.skip(1), k - 1);
        if i < at {
            i
        } else {
            i + 1
        }
    }
}

/// The triple that an option is decoded from.
proof fn lemma_triple_of(options: Seq<OptionView>, raws: Seq<RawView>, i: int) -> (k: int)
    requires
        decodes(options, raws),
        0 <= i < options.len(),
    ensures
        0 <= k < raws.len(),
        decoded_as(options[i], raws[k]),
    decreases raws.len(),
{
    let at = choose|at: int|
        {
            &&& 0 <= at < options.len()
            &&& decoded_as(#[trigger] options[at], raws[0])
            &&& decodes(options.remove(at), raws.skip(1))
        };
    if i == at {
        0
    } else if i < at {
        1 + lemma_triple_of(options.remove(at), raws.skip(1), i)
    } else {
        1 + lemma_triple_of(options.remove(at), raws.skip(1), i - 1)
    }
}

} // verus!
