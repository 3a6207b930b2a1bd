//! The `dhcproto` calls that read and write octets.

use crate::message::MessageType;
use crate::options::OptionList;
#[allow(unused_imports)]
use crate::{
    bytes::{u16_at, u16_octets, u32_at, u32_octets},
    message::{canonical_message_type, message_number},
    options::{ordered, NtpView, OptionView},
    raw::{encoded_all, law_encode_inverts_parse, law_parse_inverts_encode, raw_options, RawView},
    wire::{
        option_depth, readable, semantic_fault, well_framed, MAX_CLIENT_OPTION_NESTING_DEPTH,
    },
};
use dhcproto::v6;
use dhcproto::{Decodable, Decoder, Encodable, Encoder};
use vstd::prelude::*;

verus! {

/// How many octets `dhcproto` leaves unread when it reads one option from the octets of a triple,
/// or its words for why it cannot read an option there.
pub uninterp spec fn option_read(triple: Seq<u8>) -> Result<nat, Seq<char>>;

/// How many octets `dhcproto` writes for the option that it read from a triple, if it can write
/// that option.
pub uninterp spec fn option_written(triple: Seq<u8>) -> Option<nat>;

/// The texts of the domain names that `dhcproto` reads from octets one after another, up to the
/// first that it cannot read.
pub uninterp spec fn names_read(octets: Seq<u8>) -> Seq<Seq<char>>;

/// A length that may not be there, as a number.
pub open spec fn counted(length: Option<usize>) -> Option<nat> {
    match length {
        Some(length) => Some(length as nat),
        None => None,
    }
}

/// `dhcproto::v6::DhcpOption::decode` on the octets of one triple, and
/// `dhcproto::v6::DhcpOption::encode` on what came of it: how many octets the first left unread, and
/// how many the second wrote. Both depend on those octets alone, and so do the words of an error.
/// The nested options have to be sound: a short one would take octets from its neighbour, and the
/// length that `dhcproto` then computes could underflow.
#[verifier::external_body]
pub(crate) fn reencode_option(triple: &[u8]) -> (result: Result<(usize, Option<usize>), String>)
    requires
        exists|option: RawView| #[trigger] readable(option) && triple@ == option.encoded(),
    ensures
        match result {
            Ok((unread, written)) => {
                &&& option_read(triple@) == Ok::<nat, Seq<char>>(unread as nat)
                &&& option_written(triple@) == counted(written)
            },
            Err(words) => option_read(triple@) == Err::<nat, Seq<char>>(words@),
        },
{
    let mut decoder = Decoder::new(triple);
    let option = v6::DhcpOption::decode(&mut decoder).map_err(|error| error.to_string())?;
    let mut octets = Vec::new();
    let written = option.encode(&mut Encoder::new(&mut octets));
    Ok((decoder.buffer().len(), written.ok().map(|_written| octets.len())))
}

/// A DHCPv6 message between a client and a server.
#[derive(Debug)]
pub struct Message {
    pub msg_type: MessageType,
    pub xid: [u8; 3],
    pub options: OptionList,
}

/// What a message says.
pub struct MessageView {
    pub msg_type: MessageType,
    pub xid: Seq<u8>,
    pub options: Seq<OptionView>,
}

impl View for Message {
    type V = MessageView;

    open spec fn view(&self) -> MessageView {
        MessageView { msg_type: self.msg_type, xid: self.xid@, options: self.options@ }
    }
}

/// The strings of a vendor class, each with its length before it, up to the first that is cut off.
pub open spec fn class_values(bytes: Seq<u8>) -> Seq<Seq<u8>>
    decreases bytes.len(),
{
    if bytes.len() < 2 || bytes.len() - 2 < u16_at(bytes, 0) {
        Seq::empty()
    } else {
        let end = 2 + u16_at(bytes, 0) as int;
        seq![bytes.subrange(2, end)] + class_values(bytes.skip(end))
    }
}

/// The addresses among the options of a list, in the list's order.
pub open spec fn addresses(options: Seq<OptionView>) -> Seq<Seq<u8>>
    decreases options.len(),
{
    if options.len() == 0 {
        Seq::empty()
    } else {
        match options[0] {
            OptionView::IaAddr { address, .. } => seq![address] + addresses(options.skip(1)),
            _ => addresses(options.skip(1)),
        }
    }
}

/// The addresses that stand one after another in a payload.
pub open spec fn address_list(bytes: Seq<u8>) -> Seq<Seq<u8>>
    decreases bytes.len(),
{
    if bytes.len() < 16 {
        Seq::empty()
    } else {
        seq![bytes.take(16)] + address_list(bytes.skip(16))
    }
}

/// The time servers that stand one after another in a payload, each behind its kind and its length.
pub open spec fn ntp_servers(bytes: Seq<u8>) -> Seq<NtpView>
    decreases bytes.len(),
{
    if bytes.len() < 4 || bytes.len() - 4 < u16_at(bytes, 2) {
        Seq::empty()
    } else {
        let end = 4 + u16_at(bytes, 2) as int;
        let octets = bytes.subrange(4, end);
        let first = if u16_at(bytes, 0) == 3 {
            NtpView::Name(names_read(octets)[0])
        } else {
            NtpView::Address(octets)
        };
        seq![first] + ntp_servers(bytes.skip(end))
    }
}

/// Whether `code` is that of an option that `dhcproto` takes apart and the service never reads: the
/// requested options, a preference, the elapsed time, a relay message, an authentication, a unicast
/// address, a rapid commit, a user class, an interface, the two of a reconfiguration, and the
/// client's architectures.
pub open spec fn taken_apart(code: u16) -> bool {
    6 <= code <= 9 || code == 11 || code == 12 || code == 14 || code == 15 || 18 <= code <= 20
        || code == 61
}

/// Whether `option` is what the octets of `raw` say. The order of the options of one number in a
/// container is left open.
pub open spec fn decoded_as(option: OptionView, raw: RawView) -> bool
    decreases raw.data.len() + 4, 0int,
{
    let data = raw.data;
    if raw.code == 1 {
        option == OptionView::ClientId(data)
    } else if raw.code == 2 {
        option == OptionView::ServerId(data)
    } else if raw.code == 3 {
        &&& option matches OptionView::IaNa { id, t1, t2, options }
        &&& id == u32_at(data, 0)
        &&& t1 == u32_at(data, 4)
        &&& t2 == u32_at(data, 8)
        &&& data.len() >= 12
        &&& decoded_inside(options, data.skip(12))
    } else if raw.code == 4 {
        &&& option matches OptionView::IaTa { id, options }
        &&& id == u32_at(data, 0)
        &&& data.len() >= 4
        &&& decoded_inside(options, data.skip(4))
    } else if raw.code == 5 {
        &&& option matches OptionView::IaAddr { address, preferred_life, valid_life, options }
        &&& address == data.take(16)
        &&& preferred_life == u32_at(data, 16)
        &&& valid_life == u32_at(data, 20)
        &&& data.len() >= 24
        &&& decoded_inside(options, data.skip(24))
    } else if raw.code == 13 {
        option == (OptionView::StatusCode { status: u16_at(data, 0), text: data.skip(2) })
    } else if raw.code == 16 {
        option == (OptionView::VendorClass {
            enterprise: u32_at(data, 0),
            values: class_values(data.skip(4)),
        })
    } else if raw.code == 23 {
        option == OptionView::DomainNameServers(address_list(data))
    } else if raw.code == 24 {
        option == OptionView::DomainSearchList(names_read(data))
    } else if raw.code == 25 {
        &&& option matches OptionView::IaPd { id, t1, t2, options }
        &&& id == u32_at(data, 0)
        &&& t1 == u32_at(data, 4)
        &&& t2 == u32_at(data, 8)
        &&& data.len() >= 12
        &&& decoded_inside(options, data.skip(12))
    } else if raw.code == 26 {
        &&& option matches OptionView::IaPrefix {
            preferred_life,
            valid_life,
            length,
            prefix,
            options,
        }
        &&& preferred_life == u32_at(data, 0)
        &&& valid_life == u32_at(data, 4)
        &&& length == data[8]
        &&& prefix == data.subrange(9, 25)
        &&& data.len() >= 25
        &&& decoded_inside(options, data.skip(25))
    } else if raw.code == 56 {
        option == OptionView::NtpServer(ntp_servers(data))
    } else if taken_apart(raw.code) {
        option == (OptionView::Other { code: raw.code, data })
    } else {
        option == (OptionView::Unknown { code: raw.code, data })
    }
}

/// Whether `options` are what the octets inside a container say, in ascending order of their numbers.
pub open spec fn decoded_inside(options: Seq<OptionView>, payload: Seq<u8>) -> bool
    decreases payload.len(), 2int,
{
    &&& ordered(options)
    &&& raw_options(payload) matches Ok(raws)
    &&& {
        proof {
            law_encode_inverts_parse(payload);
        }
        decodes(options, raws)
    }
}

/// Whether `options` are what the triples `raws` say, one option for each triple, in any order.
pub open spec fn decodes(options: Seq<OptionView>, raws: Seq<RawView>) -> bool
    decreases encoded_all(raws).len(), 1int,
{
    if raws.len() == 0 {
        options.len() == 0
    } else {
        exists|i: int|
            {
                &&& 0 <= i < options.len()
                &&& decoded_as(#[trigger] options[i], raws[0])
                &&& decodes(options.remove(i), raws.skip(1))
            }
    }
}

/// `dhcproto::v6::Message::decode`: the first octet is the message type, the next three are the
/// transaction, and the rest are the options, one for each triple. `dhcproto` sorts the options of a
/// list by number and leaves open the order of those that have the same number. The names of a domain
/// search list are those read from its payload. The options have to be sound and not too deep:
/// `dhcproto` would drop what follows an option that it cannot read, and it recurses without a limit.
#[verifier::external_body]
fn decode_octets(packet: &[u8]) -> (result: Result<(u8, [u8; 3], OptionList), String>)
    requires
        packet@.len() >= 4,
        raw_options(packet@.skip(4)) is Ok,
        well_framed(raw_options(packet@.skip(4))->Ok_0, true),
        option_depth(raw_options(packet@.skip(4))->Ok_0) <= MAX_CLIENT_OPTION_NESTING_DEPTH,
        semantic_fault(raw_options(packet@.skip(4))->Ok_0) is None,
    ensures
        result is Ok,
        result->Ok_0.0 == packet@[0],
        result->Ok_0.1@ == packet@.subrange(1, 4),
        ordered(result->Ok_0.2@),
        decodes(result->Ok_0.2@, raw_options(packet@.skip(4))->Ok_0),
        forall|i: int|
            0 <= i < result->Ok_0.2@.len() ==> (#[trigger] result->Ok_0.2@[i] matches
                OptionView::DomainSearchList(names) ==> exists|raw: RawView|
                raw_options(packet@.skip(4))->Ok_0.contains(raw) && names == #[trigger] names_read(
                    raw.data,
                )),
{
    let message = v6::Message::decode(&mut Decoder::new(packet)).map_err(|error| error.to_string())?;
    Ok((message.msg_type().into(), message.xid(), OptionList { list: message.opts().clone() }))
}

/// Read a message whose options are sound.
pub(crate) fn decode_message(packet: &[u8]) -> (result: Result<Message, String>)
    requires
        packet@.len() >= 4,
        raw_options(packet@.skip(4)) is Ok,
        well_framed(raw_options(packet@.skip(4))->Ok_0, true),
        option_depth(raw_options(packet@.skip(4))->Ok_0) <= MAX_CLIENT_OPTION_NESTING_DEPTH,
        semantic_fault(raw_options(packet@.skip(4))->Ok_0) is None,
    ensures
        result is Ok,
        message_number(result->Ok_0.msg_type) == packet@[0],
        canonical_message_type(result->Ok_0.msg_type),
        result->Ok_0.xid@ == packet@.subrange(1, 4),
        ordered(result->Ok_0.options@),
        decodes(result->Ok_0.options@, raw_options(packet@.skip(4))->Ok_0),
{
    match decode_octets(packet) {
        Ok((number, xid, options)) => Ok(
            Message { msg_type: MessageType::from_number(number), xid, options },
        ),
        Err(words) => Err(words),
    }
}

/// A length as the codec writes it, in a field of sixteen bits.
pub open spec fn length_field(length: nat) -> Seq<u8> {
    u16_octets((length % 0x1_0000) as u16)
}

/// Octet strings one after another.
pub open spec fn joined(parts: Seq<Seq<u8>>) -> Seq<u8>
    decreases parts.len(),
{
    if parts.len() == 0 {
        Seq::empty()
    } else {
        parts[0] + joined(parts.skip(1))
    }
}

/// The suboption for one NTP server: its address as a multicast or as a unicast address. The service
/// tells of no server by its name.
pub open spec fn ntp_suboption(server: NtpView) -> Seq<u8> {
    match server {
        NtpView::Address(address) => u16_octets(
            if address[0] == 0xff {
                2
            } else {
                1
            },
        ) + u16_octets(16) + address,
        NtpView::Name(_) => Seq::empty(),
    }
}

/// The payload of an option, for the options that the service writes.
pub open spec fn payload_octets(option: OptionView) -> Seq<u8>
    decreases option, 0int,
{
    match option {
        OptionView::ClientId(duid) => duid,
        OptionView::ServerId(duid) => duid,
        OptionView::IaNa { id, t1, t2, options } => u32_octets(id) + u32_octets(t1) + u32_octets(t2)
            + options_octets(options),
        OptionView::IaAddr { address, preferred_life, valid_life, options } => address + u32_octets(
            preferred_life,
        ) + u32_octets(valid_life) + options_octets(options),
        OptionView::StatusCode { status, text } => u16_octets(status) + text,
        OptionView::DomainNameServers(servers) => joined(servers),
        OptionView::NtpServer(servers) => joined(
            servers.map_values(|server: NtpView| ntp_suboption(server)),
        ),
        OptionView::Unknown { data, .. } => data,
        _ => Seq::empty(),
    }
}

/// The octets of a list of options: each one's number, length and payload.
pub open spec fn options_octets(options: Seq<OptionView>) -> Seq<u8>
    decreases options, 1int,
{
    if options.len() == 0 {
        Seq::empty()
    } else {
        u16_octets(options[0].number()) + length_field(payload_octets(options[0]).len())
            + payload_octets(options[0]) + options_octets(options.skip(1))
    }
}

/// What an option looks like to a reader that gives it no meaning.
pub open spec fn as_triple(option: OptionView) -> RawView {
    RawView { code: option.number(), data: payload_octets(option) }
}

/// Parsing the octets of a list gives each option's number and payload back, in the list's order,
/// where every payload fits its length field.
pub proof fn law_written_options_read_back(options: Seq<OptionView>)
    requires
        forall|i: int| 0 <= i < options.len() ==> as_triple(#[trigger] options[i]).fits(),
    ensures
        raw_options(options_octets(options)) == Ok::<Seq<RawView>, Seq<char>>(
            options.map_values(|option: OptionView| as_triple(option)),
        ),
    decreases options.len(),
{
    let triples = options.map_values(|option: OptionView| as_triple(option));
    lemma_options_are_triples(options);
    assert forall|i: int| 0 <= i < triples.len() implies (#[trigger] triples[i]).fits() by {
        assert(as_triple(options[i]).fits());
    }
    law_parse_inverts_encode(triples);
}

/// The octets of a list of options are those of its triples.
proof fn lemma_options_are_triples(options: Seq<OptionView>)
    requires
        forall|i: int| 0 <= i < options.len() ==> as_triple(#[trigger] options[i]).fits(),
    ensures
        options_octets(options) == encoded_all(
            options.map_values(|option: OptionView| as_triple(option)),
        ),
    decreases options.len(),
{
    let triples = options.map_values(|option: OptionView| as_triple(option));
    if options.len() != 0 {
        let rest = options.skip(1);
        assert forall|i: int| 0 <= i < rest.len() implies as_triple(#[trigger] rest[i]).fits() by {
            assert(as_triple(options[i + 1]).fits());
        }
        lemma_options_are_triples(rest);
        assert(triples.skip(1) == rest.map_values(|option: OptionView| as_triple(option)));
        assert(triples[0] == as_triple(options[0]));
        assert(as_triple(options[0]).fits());
    }
}

/// Whether the codec computes the length of every option of a list without an overflow. It takes
/// the length of a part in sixteen bits, and then adds what stands before the part, or multiplies
/// the number of servers by the length of an address.
pub open spec fn writable(options: Seq<OptionView>) -> bool
    decreases options, 1int,
{
    options.len() == 0 || {
        &&& match options[0] {
            OptionView::IaNa { options: nested, .. } => {
                &&& 12 + options_octets(nested).len() % 0x1_0000 < 0x1_0000
                &&& writable(nested)
            },
            OptionView::IaAddr { options: nested, .. } => {
                &&& 24 + options_octets(nested).len() % 0x1_0000 < 0x1_0000
                &&& writable(nested)
            },
            OptionView::StatusCode { text, .. } => 2 + text.len() % 0x1_0000 < 0x1_0000,
            OptionView::DomainNameServers(servers) => (servers.len() % 0x1_0000) * 16 < 0x1_0000,
            OptionView::NtpServer(servers) => forall|i: int|
                0 <= i < servers.len() ==> (#[trigger] servers[i]) is Address,
            OptionView::ClientId(_) | OptionView::ServerId(_) | OptionView::Unknown { .. } => true,
            _ => false,
        }
        &&& writable(options.skip(1))
    }
}

/// The octets of a message: its type, its transaction and its options.
pub open spec fn message_octets(message: MessageView) -> Seq<u8> {
    seq![message_number(message.msg_type)] + message.xid + options_octets(message.options)
}

/// `dhcproto::v6::Message::encode`: the type, the transaction and the options, in the list's order.
/// It does not fail on options whose lengths can be computed.
#[verifier::external_body]
fn encode_octets(number: u8, xid: [u8; 3], options: &OptionList) -> (result: Result<Vec<u8>, String>)
    requires
        writable(options@),
    ensures
        result is Ok,
        result->Ok_0@ == seq![number] + xid@ + options_octets(options@),
{
    let mut outside = v6::Message::new_with_id(number.into(), xid);
    outside.set_opts(options.list.clone());
    let mut octets = Vec::new();
    outside.encode(&mut Encoder::new(&mut octets)).map_err(|error| error.to_string())?;
    Ok(octets)
}

/// Write a message whose options can be written.
pub(crate) fn encode_message(message: &Message) -> (result: Result<Vec<u8>, String>)
    requires
        writable(message.options@),
    ensures
        result is Ok,
        result->Ok_0@ == message_octets(message@),
{
    encode_octets(message.msg_type.number(), message.xid, &message.options)
}

} // verus!
