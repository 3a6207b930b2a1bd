//! Taking in a packet: one client message, or one relay envelope around a client message.

use crate::address::Ipv6Addr;
use crate::bytes::push_slice;
use crate::codec::{decode_message, Message, MessageView};
use crate::options::{OptionList, ServerOption};
use crate::raw::{parse_raw_options, RawOption, RawView};
use crate::text::push_decimal;
use crate::wire::{validate_client_options, WireFault};
#[allow(unused_imports)]
use crate::{
    agreement::{law_readings_say_the_same, same_message},
    codec::{decoded_as, decodes},
    errors::{lemma_told_alike, told_alike},
    message::{canonical_message_type, message_number, RELAY_FORWARD, RELAY_REPLY},
    options::{
        law_insertion_keeps_order, lemma_position, numbered, ordered, position, OptionView,
    },
    raw::{
        all_wf, coded, encoded_all, law_encode_inverts_parse, law_parse_inverts_encode, raw_options,
        refused, views,
    },
    text::decimal_text,
    wire::{
        law_budget_is_exact, option_depth, option_total, options_fault, semantic_fault, well_framed,
        MAX_CLIENT_OPTIONS, MAX_CLIENT_OPTION_NESTING_DEPTH,
    },
};
use vstd::prelude::*;
use vstd::slice::{slice_subrange, slice_to_vec};
use vstd::string::StringExecFns;

verus! {

/// Structural failures encountered before serving policy is applied.
#[derive(Debug)]
pub enum DecodeError {
    MalformedPacket(&'static str),
    /// The codec's own words for why it cannot read an option.
    ClientMessageDecode(String),
    MissingRelayMessage,
    NestedRelay,
    RelayHopCountExceeded(u8),
    UnexpectedRelayReply,
}

impl View for DecodeError {
    type V = WireFault;

    open spec fn view(&self) -> WireFault {
        match self {
            DecodeError::MalformedPacket(reason) => WireFault::Malformed(reason@),
            DecodeError::ClientMessageDecode(words) => WireFault::Undecodable(words@),
            DecodeError::MissingRelayMessage => WireFault::MissingRelayMessage,
            DecodeError::NestedRelay => WireFault::NestedRelay,
            DecodeError::RelayHopCountExceeded(hop_count) => WireFault::RelayHopCountExceeded(
                *hop_count,
            ),
            DecodeError::UnexpectedRelayReply => WireFault::UnexpectedRelayReply,
        }
    }
}

/// How a failure is told.
pub open spec fn failure_text(fault: WireFault) -> Seq<char> {
    match fault {
        WireFault::Malformed(reason) => "malformed DHCPv6 packet: "@ + reason,
        WireFault::Undecodable(words) => "DHCPv6 decode failed: "@ + words,
        WireFault::MissingRelayMessage => "missing DHCPv6 relay-message option"@,
        WireFault::NestedRelay => "nested DHCPv6 relay packet"@,
        WireFault::RelayHopCountExceeded(hop_count) => "unsupported DHCPv6 relay hop count "@
            + decimal_text(hop_count as nat),
        WireFault::UnexpectedRelayReply => "unexpected DHCPv6 relay-reply request"@,
    }
}

/// A failure tells its detail in full and at the end, in words that depend on its kind alone.
pub proof fn law_failures_tell_their_detail(
    left: Seq<char>,
    right: Seq<char>,
    left_hops: u8,
    right_hops: u8,
)
    ensures
        told_alike(
            failure_text(WireFault::Malformed(left)),
            left,
            failure_text(WireFault::Malformed(right)),
            right,
        ),
        told_alike(
            failure_text(WireFault::Undecodable(left)),
            left,
            failure_text(WireFault::Undecodable(right)),
            right,
        ),
        told_alike(
            failure_text(WireFault::RelayHopCountExceeded(left_hops)),
            decimal_text(left_hops as nat),
            failure_text(WireFault::RelayHopCountExceeded(right_hops)),
            decimal_text(right_hops as nat),
        ),
{
    lemma_told_alike("malformed DHCPv6 packet: "@, left, right);
    lemma_told_alike("DHCPv6 decode failed: "@, left, right);
    lemma_told_alike(
        "unsupported DHCPv6 relay hop count "@,
        decimal_text(left_hops as nat),
        decimal_text(right_hops as nat),
    );
}

impl DecodeError {
    /// How this failure is told.
    pub fn message(&self) -> (text: String)
        ensures
            text@ == failure_text(self@),
    {
        match self {
            DecodeError::MalformedPacket(reason) => {
                "malformed DHCPv6 packet: ".to_owned().concat(reason)
            },
            DecodeError::ClientMessageDecode(reason) => {
                "DHCPv6 decode failed: ".to_owned().concat(reason.as_str())
            },
            DecodeError::MissingRelayMessage => "missing DHCPv6 relay-message option".to_owned(),
            DecodeError::NestedRelay => "nested DHCPv6 relay packet".to_owned(),
            DecodeError::RelayHopCountExceeded(hop_count) => {
                let mut text = "unsupported DHCPv6 relay hop count ".to_owned();
                push_decimal(&mut text, *hop_count as u64);
                text
            },
            DecodeError::UnexpectedRelayReply => "unexpected DHCPv6 relay-reply request".to_owned(),
        }
    }
}

/// The first thing wrong with an ordinary client message.
pub open spec fn message_fault(packet: Seq<u8>) -> Option<WireFault> {
    if packet.len() < 4 {
        Some(WireFault::Malformed("truncated client header"@))
    } else {
        match raw_options(packet.skip(4)) {
            Err(reason) => Some(WireFault::Malformed(reason)),
            Ok(options) => options_fault(options),
        }
    }
}

/// Whether `message` is the client message that `packet` holds, with its options in ascending order of
/// their numbers.
pub open spec fn message_of(packet: Seq<u8>, message: MessageView) -> bool {
    &&& message_number(message.msg_type) == packet[0]
    &&& canonical_message_type(message.msg_type)
    &&& message.xid == packet.subrange(1, 4)
    &&& ordered(message.options)
    &&& raw_options(packet.skip(4)) is Ok
    &&& decodes(message.options, raw_options(packet.skip(4))->Ok_0)
}

/// The options of a list that are no vendor options.
pub open spec fn plain(options: Seq<RawView>) -> Seq<RawView>
    decreases options.len(),
{
    if options.len() == 0 {
        Seq::empty()
    } else if options[0].code == 17 {
        plain(options.skip(1))
    } else {
        seq![options[0]] + plain(options.skip(1))
    }
}

/// Without its vendor options, a sound list of options is still sound.
proof fn lemma_plain_is_sound(options: Seq<RawView>)
    requires
        well_framed(options, false),
        semantic_fault(options) is None,
        forall|i: int| 0 <= i < options.len() ==> (#[trigger] options[i]).fits(),
    ensures
        well_framed(plain(options), true),
        semantic_fault(plain(options)) is None,
        option_depth(plain(options)) <= option_depth(options),
        forall|i: int| 0 <= i < plain(options).len() ==> (#[trigger] plain(options)[i]).fits(),
    decreases options.len(),
{
    if options.len() != 0 {
        let rest = options.skip(1);
        assert forall|i: int| 0 <= i < rest.len() implies (#[trigger] rest[i]).fits() by {
            assert(options[i + 1].fits());
        }
        lemma_plain_is_sound(rest);
        if options[0].code != 17 {
            assert(plain(options).skip(1) == plain(rest));
            assert(plain(options)[0] == options[0]);
            assert forall|i: int| 0 <= i < plain(options).len() implies (
            #[trigger] plain(options)[i]).fits() by {
                if i > 0 {
                    assert(plain(options)[i] == plain(rest)[i - 1]);
                }
            }
        }
    }
}

/// A list without vendor options is left as it is.
proof fn lemma_plain_is_all(options: Seq<RawView>)
    requires
        forall|i: int| 0 <= i < options.len() ==> (#[trigger] options[i]).code != 17,
    ensures
        plain(options) == options,
    decreases options.len(),
{
    if options.len() != 0 {
        let rest = options.skip(1);
        assert forall|i: int| 0 <= i < rest.len() implies (#[trigger] rest[i]).code != 17 by {
            assert(options[i + 1].code != 17);
        }
        lemma_plain_is_all(rest);
        assert(options == seq![options[0]] + rest);
    }
}

/// Selecting by number goes through a list part by part.
pub(crate) proof fn lemma_numbered_add(left: Seq<OptionView>, right: Seq<OptionView>, number: u16)
    ensures
        numbered(left + right, number) == numbered(left, number) + numbered(right, number),
    decreases left.len(),
{
    if left.len() == 0 {
        assert(left + right == right);
    } else {
        assert((left + right).skip(1) == left.skip(1) + right);
        lemma_numbered_add(left.skip(1), right, number);
    }
}

/// Selecting by code goes through a list part by part.
pub(crate) proof fn lemma_coded_add(left: Seq<RawView>, right: Seq<RawView>, code: u16)
    ensures
        coded(left + right, code) == coded(left, code) + coded(right, code),
    decreases left.len(),
{
    if left.len() == 0 {
        assert(left + right == right);
    } else {
        assert((left + right).skip(1) == left.skip(1) + right);
        lemma_coded_add(left.skip(1), right, code);
    }
}

/// A list with one more triple says what it said, and what that triple says.
proof fn lemma_decodes_one_more(
    options: Seq<OptionView>,
    at: int,
    option: OptionView,
    raws: Seq<RawView>,
    place: int,
    raw: RawView,
)
    requires
        decodes(options, raws),
        decoded_as(option, raw),
        0 <= at <= options.len(),
        0 <= place <= raws.len(),
    ensures
        decodes(options.insert(at, option), raws.insert(place, raw)),
    decreases place,
{
    let more = options.insert(at, option);
    let all = raws.insert(place, raw);
    if place == 0 {
        assert(all.skip(1) == raws);
        assert(more.remove(at) == options);
        assert(decoded_as(more[at], all[0]));
    } else {
        let first = choose|i: int|
            {
                &&& 0 <= i < options.len()
                &&& decoded_as(#[trigger] options[i], raws[0])
                &&& decodes(options.remove(i), raws.skip(1))
            };
        let rest = options.remove(first);
        let shifted = if at <= first {
            at
        } else {
            at - 1
        };
        let here = if at <= first {
            first + 1
        } else {
            first
        };
        lemma_decodes_one_more(rest, shifted, option, raws.skip(1), place - 1, raw);
        assert(all.skip(1) == raws.skip(1).insert(place - 1, raw));
        assert(more.remove(here) == rest.insert(shifted, option));
        assert(decoded_as(more[here], all[0]));
    }
}

/// The octets of a client message without its vendor options, if it has any.
fn without_vendor_options(packet: &[u8], options: &Vec<RawOption<'_>>) -> (sanitized: Option<Vec<u8>>)
    requires
        packet@.len() >= 4,
        all_wf(options@),
    ensures
        match sanitized {
            Some(sanitized) => sanitized@ == packet@.take(4) + encoded_all(plain(views(options@))),
            None => plain(views(options@)) == views(options@),
        },
{
    let ghost all = views(options@);
    let mut has_vendor_option: bool = false;
    let mut sanitized: Vec<u8> = slice_to_vec(slice_subrange(packet, 0, 4));
    let mut i: usize = 0;
    proof {
        assert(all.skip(0) == all);
        assert(sanitized@ + encoded_all(plain(all)) == packet@.take(4) + encoded_all(plain(all)));
    }
    while i < options.len()
        invariant
            i <= options@.len(),
            all == views(options@),
            all_wf(options@),
            sanitized@ + encoded_all(plain(all.skip(i as int))) == packet@.take(4) + encoded_all(
                plain(all),
            ),
            !has_vendor_option ==> forall|k: int| 0 <= k < i ==> (#[trigger] all[k]).code != 17,
        decreases options@.len() - i,
    {
        let option = &options[i];
        let ghost rest = all.skip(i as int);
        let ghost before = sanitized@;
        proof {
            assert(option.wf());
            assert(rest[0] == option@);
            assert(rest.skip(1) == all.skip(i + 1));
        }
        if option.code == 17 {
            has_vendor_option = true;
        } else {
            push_slice(&mut sanitized, option.encoded);
            proof {
                let tail = plain(rest.skip(1));
                assert(plain(rest).skip(1) == tail);
                assert(plain(rest)[0] == option@);
                assert(before + (option@.encoded() + encoded_all(tail)) == sanitized@
                    + encoded_all(tail));
            }
        }
        i += 1;
    }
    proof {
        assert(all.skip(i as int).len() == 0);
        assert(sanitized@ + encoded_all(plain(all.skip(i as int))) == sanitized@);
        if !has_vendor_option {
            lemma_plain_is_all(all);
        }
    }
    if has_vendor_option {
        Some(sanitized)
    } else {
        None
    }
}

/// Put the vendor options of a client message back, each with its payload as it is.
fn with_vendor_options(decoded: OptionList, options: &Vec<RawOption<'_>>) -> (list: OptionList)
    requires
        ordered(decoded@),
        decodes(decoded@, plain(views(options@))),
    ensures
        ordered(list@),
        decodes(list@, views(options@)),
{
    let ghost all = views(options@);
    let mut list = decoded;
    let mut k: usize = 0;
    proof {
        assert(all.skip(0) == all);
        assert(all.take(0) + plain(all.skip(0)) == plain(all));
    }
    while k < options.len()
        invariant
            k <= options@.len(),
            all == views(options@),
            ordered(list@),
            decodes(list@, all.take(k as int) + plain(all.skip(k as int))),
        decreases options@.len() - k,
    {
        let option = &options[k];
        let ghost raws = all.take(k as int) + plain(all.skip(k as int));
        let ghost more = all.take(k + 1) + plain(all.skip(k + 1));
        proof {
            assert(all.skip(k as int)[0] == option@);
            assert(all.skip(k as int).skip(1) == all.skip(k + 1));
        }
        if option.code == 17 {
            let ghost before = list@;
            let kept = ServerOption::Unknown { code: 17, data: slice_to_vec(option.data) };
            proof {
                lemma_position(before, 17);
                law_insertion_keeps_order(before, kept@);
                lemma_decodes_one_more(
                    before,
                    position(before, 17),
                    kept@,
                    raws,
                    k as int,
                    option@,
                );
                assert(raws.insert(k as int, option@) == more);
            }
            list = list.insert(kept);
        } else {
            assert(raws == more);
        }
        k += 1;
    }
    assert(all.take(k as int) + plain(all.skip(k as int)) == all);
    list
}

/// Without its vendor options, a sound list of options can be handed to the codec.
proof fn lemma_plain_is_readable(octets: Seq<u8>, options: Seq<RawView>)
    requires
        raw_options(octets) == Ok::<Seq<RawView>, Seq<char>>(options),
        options_fault(options) is None,
    ensures
        raw_options(encoded_all(plain(options))) == Ok::<Seq<RawView>, Seq<char>>(plain(options)),
        well_framed(plain(options), true),
        option_depth(plain(options)) <= MAX_CLIENT_OPTION_NESTING_DEPTH,
        semantic_fault(plain(options)) is None,
{
    law_encode_inverts_parse(octets);
    law_budget_is_exact(options, 0, 0);
    lemma_plain_is_sound(options);
    law_parse_inverts_encode(plain(options));
}

/// Decode an ordinary client message after validating all of its options.
pub fn decode_client_message(packet: &[u8]) -> (result: Result<Message, DecodeError>)
    ensures
        match result {
            Ok(message) => message_fault(packet@) is None && message_of(packet@, message@),
            Err(error) => message_fault(packet@) == Some(error@),
        },
{
    if packet.len() < 4 {
        return Err(DecodeError::MalformedPacket("truncated client header"));
    }
    let area = slice_subrange(packet, 4, packet.len());
    assert(area@ == packet@.skip(4));
    let options = match parse_raw_options(area) {
        Ok(options) => options,
        Err(error) => {
            return Err(error);
        },
    };
    match validate_client_options(&options) {
        Ok(_) => {},
        Err(error) => {
            return Err(error);
        },
    }
    let ghost all = views(options@);
    proof {
        lemma_plain_is_readable(packet@.skip(4), all);
    }

    // The codec reads vendor suboptions as if their codes were common ones. So it reads the message
    // without its vendor options, and each of them is then kept with its payload as it is.
    let decoded = match without_vendor_options(packet, &options) {
        Some(sanitized) => {
            assert(sanitized@.skip(4) == encoded_all(plain(all)));
            assert(sanitized@.subrange(1, 4) == packet@.subrange(1, 4));
            assert(sanitized@[0] == packet@[0]);
            decode_message(sanitized.as_slice())
        },
        None => decode_message(packet),
    };
    match decoded {
        Ok(message) => {
            let list = with_vendor_options(message.options, &options);
            Ok(Message { msg_type: message.msg_type, xid: message.xid, options: list })
        },
        Err(reason) => Err(DecodeError::ClientMessageDecode(reason)),
    }
}

/// Metadata retained from one supported Relay-Forward envelope.
#[derive(Debug)]
pub struct RelayEnvelope {
    pub hop_count: u8,
    pub link_address: Ipv6Addr,
    pub peer_address: Ipv6Addr,
    pub interface_id: Option<Vec<u8>>,
    pub remote_id: Option<Vec<u8>>,
    pub client_link_layer: Option<Vec<u8>>,
}

/// What a relay envelope says.
pub struct RelayView {
    pub hop_count: u8,
    pub link_address: Seq<u8>,
    pub peer_address: Seq<u8>,
    pub interface_id: Option<Seq<u8>>,
    pub remote_id: Option<Seq<u8>>,
    pub client_link_layer: Option<Seq<u8>>,
}

/// The octets of an optional string.
pub open spec fn octets_of(bytes: Option<Vec<u8>>) -> Option<Seq<u8>> {
    match bytes {
        Some(bytes) => Some(bytes@),
        None => None,
    }
}

impl View for RelayEnvelope {
    type V = RelayView;

    open spec fn view(&self) -> RelayView {
        RelayView {
            hop_count: self.hop_count,
            link_address: self.link_address@,
            peer_address: self.peer_address@,
            interface_id: octets_of(self.interface_id),
            remote_id: octets_of(self.remote_id),
            client_link_layer: octets_of(self.client_link_layer),
        }
    }
}

/// What an optional relay envelope says.
pub open spec fn relay_of(relay: Option<RelayEnvelope>) -> Option<RelayView> {
    match relay {
        Some(relay) => Some(relay@),
        None => None,
    }
}

/// A decoded client message and its optional one-hop relay envelope.
#[derive(Debug)]
pub struct DecodedPacket {
    pub message: Message,
    pub relay: Option<RelayEnvelope>,
}

/// The payload of the only option with `code`, if there is one.
pub open spec fn unique(options: Seq<RawView>, code: u16) -> Result<Option<Seq<u8>>, Seq<char>> {
    let found = coded(options, code);
    if found.len() == 0 {
        Ok(None)
    } else if found.len() == 1 {
        Ok(Some(found[0].data))
    } else {
        Err("duplicate relay option"@)
    }
}

/// Return one raw option payload while rejecting ambiguous duplicates.
fn unique_raw_option<'data>(options: &Vec<RawOption<'data>>, code: u16) -> (result: Result<
    Option<&'data [u8]>,
    DecodeError,
>)
    ensures
        match result {
            Ok(Some(payload)) => unique(views(options@), code) == Ok::<
                Option<Seq<u8>>,
                Seq<char>,
            >(Some(payload@)),
            Ok(None) => unique(views(options@), code) == Ok::<Option<Seq<u8>>, Seq<char>>(None),
            Err(error) => refused(unique(views(options@), code), error),
        },
{
    let ghost all = views(options@);
    let mut value: Option<&'data [u8]> = None;
    let mut i: usize = 0;
    assert(all.skip(0) == all);
    while i < options.len()
        invariant
            i <= options@.len(),
            all == views(options@),
            match value {
                Some(payload) => {
                    &&& coded(all, code).len() == 1 + coded(all.skip(i as int), code).len()
                    &&& coded(all, code)[0].data == payload@
                },
                None => coded(all, code) == coded(all.skip(i as int), code),
            },
        decreases options@.len() - i,
    {
        let option = &options[i];
        proof {
            let rest = all.skip(i as int);
            assert(rest[0] == option@);
            assert(rest.skip(1) == all.skip(i + 1));
        }
        if option.code == code {
            if value.is_some() {
                return Err(DecodeError::MalformedPacket("duplicate relay option"));
            }
            value = Some(option.data);
        }
        i += 1;
    }
    assert(coded(all.skip(i as int), code).len() == 0);
    Ok(value)
}

/// Return an owned raw option payload while retaining duplicate validation.
fn owned_unique_raw_option(options: &Vec<RawOption<'_>>, code: u16) -> (result: Result<
    Option<Vec<u8>>,
    DecodeError,
>)
    ensures
        match result {
            Ok(payload) => unique(views(options@), code) == Ok::<Option<Seq<u8>>, Seq<char>>(
                octets_of(payload),
            ),
            Err(error) => refused(unique(views(options@), code), error),
        },
{
    match unique_raw_option(options, code) {
        Ok(Some(payload)) => Ok(Some(slice_to_vec(payload))),
        Ok(None) => Ok(None),
        Err(error) => Err(error),
    }
}

/// The first thing wrong with a Relay-Forward envelope or with the client message in it.
pub open spec fn relay_fault(packet: Seq<u8>) -> Option<WireFault> {
    if packet.len() < 34 {
        Some(WireFault::Malformed("truncated relay header"@))
    } else if packet[1] != 0 {
        Some(WireFault::RelayHopCountExceeded(packet[1]))
    } else {
        match raw_options(packet.skip(34)) {
            Err(reason) => Some(WireFault::Malformed(reason)),
            Ok(options) => match unique(options, 9) {
                Err(reason) => Some(WireFault::Malformed(reason)),
                Ok(None) => Some(WireFault::MissingRelayMessage),
                Ok(Some(inner)) => if inner.len() > 0 && (inner[0] == RELAY_FORWARD || inner[0]
                    == RELAY_REPLY) {
                    Some(WireFault::NestedRelay)
                } else if message_fault(inner) is Some {
                    message_fault(inner)
                } else if unique(options, 18) is Err || unique(options, 37) is Err || unique(
                    options,
                    79,
                ) is Err {
                    Some(WireFault::Malformed("duplicate relay option"@))
                } else {
                    None
                },
            },
        }
    }
}

/// The first thing wrong with a packet.
pub open spec fn packet_fault(packet: Seq<u8>) -> Option<WireFault> {
    if packet.len() == 0 {
        Some(WireFault::Malformed("empty packet"@))
    } else if packet[0] == RELAY_FORWARD {
        relay_fault(packet)
    } else if packet[0] == RELAY_REPLY {
        Some(WireFault::UnexpectedRelayReply)
    } else {
        message_fault(packet)
    }
}

/// The client message inside a Relay-Forward envelope that has nothing wrong with it.
pub open spec fn relayed_octets(packet: Seq<u8>) -> Seq<u8> {
    unique(raw_options(packet.skip(34))->Ok_0, 9)->Ok_0->Some_0
}

/// What a Relay-Forward envelope says that has nothing wrong with it.
pub open spec fn relay_envelope(packet: Seq<u8>) -> RelayView {
    let options = raw_options(packet.skip(34))->Ok_0;
    RelayView {
        hop_count: packet[1],
        link_address: packet.subrange(2, 18),
        peer_address: packet.subrange(18, 34),
        interface_id: unique(options, 18)->Ok_0,
        remote_id: unique(options, 37)->Ok_0,
        client_link_layer: unique(options, 79)->Ok_0,
    }
}

/// The client message inside a relay envelope, or the packet itself where there is none.
pub open spec fn client_octets(packet: Seq<u8>) -> Seq<u8> {
    if packet[0] == RELAY_FORWARD {
        relayed_octets(packet)
    } else {
        packet
    }
}

/// The relay envelope of a packet that has nothing wrong with it.
pub open spec fn envelope_of(packet: Seq<u8>) -> Option<RelayView> {
    if packet[0] == RELAY_FORWARD {
        Some(relay_envelope(packet))
    } else {
        None
    }
}

/// Whether a decoded packet is what the octets of `packet` say.
pub open spec fn decoded_packet(
    packet: Seq<u8>,
    message: MessageView,
    relay: Option<RelayView>,
) -> bool {
    &&& message_of(client_octets(packet), message)
    &&& relay == envelope_of(packet)
}

/// A packet that is taken in holds one client message, behind at most one envelope: the message is
/// no envelope itself, and its options are sound, no deeper and no more than the limits.
pub proof fn law_accepted_packet_is_bounded(packet: Seq<u8>)
    requires
        packet_fault(packet) is None,
    ensures
        ({
            let client = client_octets(packet);
            &&& client.len() >= 4
            &&& client[0] != RELAY_FORWARD && client[0] != RELAY_REPLY
            &&& raw_options(client.skip(4)) is Ok
            &&& well_framed(raw_options(client.skip(4))->Ok_0, false)
            &&& option_depth(raw_options(client.skip(4))->Ok_0) <= MAX_CLIENT_OPTION_NESTING_DEPTH
            &&& option_total(raw_options(client.skip(4))->Ok_0) <= MAX_CLIENT_OPTIONS
            &&& envelope_of(packet) is Some ==> envelope_of(packet)->Some_0.hop_count == 0
        }),
{
    let client = client_octets(packet);
    law_budget_is_exact(raw_options(client.skip(4))->Ok_0, 0, 0);
}

/// A packet that is no Relay-Forward envelope is decoded as the client message that it is: an empty
/// one and a Relay-Reply are refused, anything else is refused for what is wrong with the client
/// message, and is otherwise that message, without an envelope.
pub proof fn law_direct_packet_is_its_client_message(
    packet: Seq<u8>,
    decoded: MessageView,
    relay: Option<RelayView>,
    message: MessageView,
)
    requires
        packet.len() == 0 || packet[0] != RELAY_FORWARD,
    ensures
        packet.len() == 0 ==> packet_fault(packet) == Some(WireFault::Malformed("empty packet"@)),
        packet.len() > 0 && packet[0] == RELAY_REPLY ==> packet_fault(packet) == Some(
            WireFault::UnexpectedRelayReply,
        ),
        packet.len() > 0 && packet[0] != RELAY_REPLY ==> packet_fault(packet) == message_fault(
            packet,
        ),
        packet.len() > 0 && decoded_packet(packet, decoded, relay) ==> relay is None && message_of(
            packet,
            decoded,
        ),
        packet.len() > 0 && decoded_packet(packet, decoded, relay) && message_of(packet, message)
            ==> same_message(decoded, message),
{
    if packet.len() > 0 && decoded_packet(packet, decoded, relay) && message_of(packet, message) {
        law_readings_say_the_same(packet, decoded, message);
    }
}

/// Whether `payload` is that of the only option with `code`, or there is neither.
pub open spec fn only_payload(
    options: Seq<RawView>,
    code: u16,
    payload: Option<Seq<u8>>,
) -> bool {
    match payload {
        Some(data) => coded(options, code) == seq![RawView { code, data }],
        None => coded(options, code).len() == 0,
    }
}

/// What is found under a code has that code.
proof fn lemma_coded_has_code(options: Seq<RawView>, code: u16)
    ensures
        forall|i: int|
            0 <= i < coded(options, code).len() ==> (#[trigger] coded(options, code)[i]).code
                == code,
    decreases options.len(),
{
    if options.len() != 0 {
        let rest = options.skip(1);
        lemma_coded_has_code(rest, code);
        assert forall|i: int| 0 <= i < coded(options, code).len() implies (
        #[trigger] coded(options, code)[i]).code == code by {
            if options[0].code == code {
                if i > 0 {
                    assert(coded(options, code)[i] == coded(rest, code)[i - 1]);
                }
            } else {
                assert(coded(options, code)[i] == coded(rest, code)[i]);
            }
        }
    }
}

/// The payload of a unique option is the only one.
proof fn lemma_unique_is_only(options: Seq<RawView>, code: u16)
    requires
        unique(options, code) is Ok,
    ensures
        only_payload(options, code, unique(options, code)->Ok_0),
{
    lemma_coded_has_code(options, code);
    let found = coded(options, code);
    if found.len() == 1 {
        assert(found[0].code == code);
        assert(found == seq![RawView { code, data: found[0].data }]);
    }
}

/// A Relay-Forward envelope that is taken in has a whole header and a hop count of zero. Its
/// addresses are those of the header, its three options are each the only one of their code, and
/// the client message is the payload of its only relay message and is no envelope itself.
pub proof fn law_relay_envelope_is_read_off(packet: Seq<u8>)
    requires
        relay_fault(packet) is None,
    ensures
        packet.len() >= 34,
        packet[1] == 0,
        raw_options(packet.skip(34)) is Ok,
        ({
            let options = raw_options(packet.skip(34))->Ok_0;
            let envelope = relay_envelope(packet);
            let client = relayed_octets(packet);
            &&& envelope.hop_count == 0
            &&& envelope.link_address == packet.subrange(2, 18)
            &&& envelope.peer_address == packet.subrange(18, 34)
            &&& only_payload(options, 18, envelope.interface_id)
            &&& only_payload(options, 37, envelope.remote_id)
            &&& only_payload(options, 79, envelope.client_link_layer)
            &&& only_payload(options, 9, Some(client))
            &&& message_fault(client) is None
            &&& client.len() >= 4
            &&& client[0] != RELAY_FORWARD && client[0] != RELAY_REPLY
        }),
{
    let options = raw_options(packet.skip(34))->Ok_0;
    lemma_unique_is_only(options, 18);
    lemma_unique_is_only(options, 37);
    lemma_unique_is_only(options, 79);
    lemma_unique_is_only(options, 9);
}

/// Decode one Relay-Forward envelope and its direct client payload.
pub fn decode_relay_forward(packet: &[u8]) -> (result: Result<DecodedPacket, DecodeError>)
    ensures
        match result {
            Ok(decoded) => {
                &&& relay_fault(packet@) is None
                &&& message_of(relayed_octets(packet@), decoded.message@)
                &&& relay_of(decoded.relay) == Some(relay_envelope(packet@))
            },
            Err(error) => relay_fault(packet@) == Some(error@),
        },
{
    if packet.len() < 34 {
        return Err(DecodeError::MalformedPacket("truncated relay header"));
    }
    let hop_count: u8 = packet[1];
    // A relay that forwards a direct client message uses zero; anything else tells of an outer
    // envelope, and one envelope is all that is decoded.
    if hop_count != 0 {
        return Err(DecodeError::RelayHopCountExceeded(hop_count));
    }
    let link_address = Ipv6Addr::read(packet, 2);
    let peer_address = Ipv6Addr::read(packet, 18);
    let area = slice_subrange(packet, 34, packet.len());
    assert(area@ == packet@.skip(34));
    let options = match parse_raw_options(area) {
        Ok(options) => options,
        Err(error) => {
            return Err(error);
        },
    };

    // One envelope carries one client: duplicates would let the identity and the response speak of
    // different ones.
    let relay_message = match unique_raw_option(&options, 9) {
        Ok(Some(relay_message)) => relay_message,
        Ok(None) => {
            return Err(DecodeError::MissingRelayMessage);
        },
        Err(error) => {
            return Err(error);
        },
    };
    if relay_message.len() > 0 && (relay_message[0] == RELAY_FORWARD || relay_message[0]
        == RELAY_REPLY) {
        return Err(DecodeError::NestedRelay);
    }
    let message = match decode_client_message(relay_message) {
        Ok(message) => message,
        Err(error) => {
            return Err(error);
        },
    };
    let interface_id = match owned_unique_raw_option(&options, 18) {
        Ok(interface_id) => interface_id,
        Err(error) => {
            return Err(error);
        },
    };
    let remote_id = match owned_unique_raw_option(&options, 37) {
        Ok(remote_id) => remote_id,
        Err(error) => {
            return Err(error);
        },
    };
    let client_link_layer = match owned_unique_raw_option(&options, 79) {
        Ok(client_link_layer) => client_link_layer,
        Err(error) => {
            return Err(error);
        },
    };
    let relay = RelayEnvelope {
        hop_count,
        link_address,
        peer_address,
        interface_id,
        remote_id,
        client_link_layer,
    };
    Ok(DecodedPacket { message, relay: Some(relay) })
}

/// Decode one direct client message or one supported Relay-Forward envelope.
pub fn decode(packet: &[u8]) -> (result: Result<DecodedPacket, DecodeError>)
    ensures
        match result {
            Ok(decoded) => {
                &&& packet_fault(packet@) is None
                &&& decoded_packet(packet@, decoded.message@, relay_of(decoded.relay))
            },
            Err(error) => packet_fault(packet@) == Some(error@),
        },
{
    if packet.len() == 0 {
        return Err(DecodeError::MalformedPacket("empty packet"));
    }
    if packet[0] == RELAY_FORWARD {
        return decode_relay_forward(packet);
    }
    if packet[0] == RELAY_REPLY {
        return Err(DecodeError::UnexpectedRelayReply);
    }
    match decode_client_message(packet) {
        Ok(message) => Ok(DecodedPacket { message, relay: None }),
        Err(error) => Err(error),
    }
}

} // verus!
