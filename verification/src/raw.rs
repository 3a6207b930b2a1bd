//! DHCPv6 options as type-length-value octets, without a meaning.

use crate::bytes::{push_slice, push_u16, read_u16};
use crate::decode::DecodeError;
#[allow(unused_imports)]
use crate::bytes::{law_u16_octets_read_back, u16_at, u16_octets};
use vstd::prelude::*;
use vstd::slice::slice_subrange;

verus! {

/// What one type-length-value triple says.
pub struct RawView {
    pub code: u16,
    pub data: Seq<u8>,
}

impl RawView {
    /// The octets of the triple.
    pub open spec fn encoded(self) -> Seq<u8> {
        u16_octets(self.code) + u16_octets(self.data.len() as u16) + self.data
    }

    /// Whether the payload's length fits its field.
    pub open spec fn fits(self) -> bool {
        self.data.len() <= 0xffff
    }
}

/// The octets of a list of triples, one after another.
pub open spec fn encoded_all(options: Seq<RawView>) -> Seq<u8>
    decreases options.len(),
{
    if options.len() == 0 {
        Seq::empty()
    } else {
        options[0].encoded() + encoded_all(options.skip(1))
    }
}

/// The triples that `bytes` holds, or why `bytes` is no list of triples.
pub open spec fn raw_options(bytes: Seq<u8>) -> Result<Seq<RawView>, Seq<char>>
    decreases bytes.len(),
{
    if bytes.len() == 0 {
        Ok(Seq::empty())
    } else if bytes.len() < 4 {
        Err("truncated option header"@)
    } else if bytes.len() - 4 < u16_at(bytes, 2) {
        Err("truncated option payload"@)
    } else {
        let end = 4 + u16_at(bytes, 2) as int;
        let first = RawView { code: u16_at(bytes, 0), data: bytes.subrange(4, end) };
        match raw_options(bytes.skip(end)) {
            Ok(rest) => Ok(seq![first] + rest),
            Err(reason) => Err(reason),
        }
    }
}

/// One option of a packet, borrowed from the packet.
#[derive(Debug)]
pub struct RawOption<'data> {
    pub code: u16,
    pub data: &'data [u8],
    pub encoded: &'data [u8],
}

impl<'data> View for RawOption<'data> {
    type V = RawView;

    open spec fn view(&self) -> RawView {
        RawView { code: self.code, data: self.data@ }
    }
}

impl<'data> RawOption<'data> {
    /// `encoded` is the triple that `code` and `data` are taken from.
    pub open spec fn wf(&self) -> bool {
        &&& self@.fits()
        &&& self.encoded@ == self@.encoded()
    }
}

/// What each option of a list says.
pub open spec fn views(options: Seq<RawOption<'_>>) -> Seq<RawView> {
    options.map_values(|option: RawOption<'_>| option@)
}

/// Every option of a list is whole.
pub open spec fn all_wf(options: Seq<RawOption<'_>>) -> bool {
    forall|i: int| 0 <= i < options.len() ==> (#[trigger] options[i]).wf()
}

/// A triple is read back from its own octets.
proof fn lemma_encoded_splits(option: RawView, rest: Seq<u8>)
    requires
        option.fits(),
    ensures
        (option.encoded() + rest).len() == 4 + option.data.len() + rest.len(),
        u16_at(option.encoded() + rest, 0) == option.code,
        u16_at(option.encoded() + rest, 2) == option.data.len(),
        (option.encoded() + rest).subrange(4, 4 + option.data.len() as int) == option.data,
        (option.encoded() + rest).skip(4 + option.data.len() as int) == rest,
{
    let all = option.encoded() + rest;
    let length = option.data.len() as u16;
    law_u16_octets_read_back(option.code, Seq::empty(), u16_octets(length) + option.data + rest);
    assert(all == Seq::<u8>::empty() + u16_octets(option.code) + (u16_octets(length) + option.data
        + rest));
    law_u16_octets_read_back(length, u16_octets(option.code), option.data + rest);
    assert(all == u16_octets(option.code) + u16_octets(length) + (option.data + rest));
    assert(all.subrange(4, 4 + option.data.len() as int) == option.data);
    assert(all.skip(4 + option.data.len() as int) == rest);
}

/// Octets that form a triple followed by others are that triple, encoded, and the others.
proof fn lemma_split_encodes(bytes: Seq<u8>)
    requires
        bytes.len() >= 4,
        bytes.len() - 4 >= u16_at(bytes, 2),
    ensures
        ({
            let end = 4 + u16_at(bytes, 2) as int;
            let first = RawView { code: u16_at(bytes, 0), data: bytes.subrange(4, end) };
            &&& first.fits()
            &&& first.encoded() == bytes.take(end)
        }),
{
    let end = 4 + u16_at(bytes, 2) as int;
    let first = RawView { code: u16_at(bytes, 0), data: bytes.subrange(4, end) };
    assert(first.encoded() =~= bytes.take(end));
}

/// Writing a list of triples and parsing the octets gives the list back.
pub proof fn law_parse_inverts_encode(options: Seq<RawView>)
    requires
        forall|i: int| 0 <= i < options.len() ==> (#[trigger] options[i]).fits(),
    ensures
        raw_options(encoded_all(options)) == Ok::<Seq<RawView>, Seq<char>>(options),
    decreases options.len(),
{
    if options.len() == 0 {
        assert(options == Seq::<RawView>::empty());
    } else {
        let rest = options.skip(1);
        assert forall|i: int| 0 <= i < rest.len() implies (#[trigger] rest[i]).fits() by {
            assert(options[i + 1].fits());
        }
        law_parse_inverts_encode(rest);
        assert(options[0].fits());
        lemma_encoded_splits(options[0], encoded_all(rest));
        assert(options == seq![options[0]] + rest);
    }
}

/// What parses as a list of triples is exactly the octets of that list: no octet is left out and
/// none is read twice.
pub proof fn law_encode_inverts_parse(bytes: Seq<u8>)
    requires
        raw_options(bytes) is Ok,
    ensures
        encoded_all(raw_options(bytes)->Ok_0) == bytes,
        forall|i: int|
            0 <= i < raw_options(bytes)->Ok_0.len() ==> (#[trigger] raw_options(bytes)->Ok_0[i]).fits(),
    decreases bytes.len(),
{
    let options = raw_options(bytes)->Ok_0;
    if bytes.len() != 0 {
        let end = 4 + u16_at(bytes, 2) as int;
        let rest = bytes.skip(end);
        law_encode_inverts_parse(rest);
        lemma_split_encodes(bytes);
        let tail = raw_options(rest)->Ok_0;
        assert(options.skip(1) == tail);
        assert(bytes == bytes.take(end) + rest);
        assert forall|i: int| 0 <= i < options.len() implies (#[trigger] options[i]).fits() by {
            if i > 0 {
                assert(options[i] == tail[i - 1]);
            }
        }
    }
}

/// The triples of a list that have `code`, in the list's order.
pub open spec fn coded(options: Seq<RawView>, code: u16) -> Seq<RawView>
    decreases options.len(),
{
    if options.len() == 0 {
        Seq::empty()
    } else if options[0].code == code {
        seq![options[0]] + coded(options.skip(1), code)
    } else {
        coded(options.skip(1), code)
    }
}

/// Whether `error` reports the reason for which `expected` is an error.
pub open spec fn refused<T>(expected: Result<T, Seq<char>>, error: DecodeError) -> bool {
    &&& expected is Err
    &&& error matches DecodeError::MalformedPacket(reason)
    &&& expected->Err_0 == reason@
}

/// Parse a sequence of option triples without interpreting their payloads.
pub fn parse_raw_options<'data>(bytes: &'data [u8]) -> (result: Result<
    Vec<RawOption<'data>>,
    DecodeError,
>)
    ensures
        match result {
            Ok(options) => {
                &&& raw_options(bytes@) == Ok::<Seq<RawView>, Seq<char>>(views(options@))
                &&& all_wf(options@)
            },
            Err(error) => refused(raw_options(bytes@), error),
        },
{
    let mut options: Vec<RawOption<'data>> = Vec::new();
    let mut rest: &'data [u8] = bytes;
    assert(views(options@) =~= Seq::<RawView>::empty());
    proof {
        if let Ok(tail) = raw_options(rest@) {
            assert(views(options@) + tail == tail);
        }
    }
    while !rest.is_empty()
        invariant
            match raw_options(rest@) {
                Ok(tail) => raw_options(bytes@) == Ok::<Seq<RawView>, Seq<char>>(
                    views(options@) + tail,
                ),
                Err(reason) => raw_options(bytes@) == Err::<Seq<RawView>, Seq<char>>(reason),
            },
            all_wf(options@),
        decreases rest@.len(),
    {
        if rest.len() < 4 {
            return Err(DecodeError::MalformedPacket("truncated option header"));
        }
        let code: u16 = read_u16(rest, 0);
        let length: usize = read_u16(rest, 2) as usize;
        if rest.len() - 4 < length {
            return Err(DecodeError::MalformedPacket("truncated option payload"));
        }
        let end: usize = 4 + length;
        let encoded: &'data [u8] = slice_subrange(rest, 0, end);
        let data: &'data [u8] = slice_subrange(rest, 4, end);
        let ghost before = options@;
        let option = RawOption { code, data, encoded };
        proof {
            lemma_split_encodes(rest@);
            assert(rest@.subrange(0, end as int) == rest@.take(end as int));
            assert(rest@.subrange(end as int, rest@.len() as int) == rest@.skip(end as int));
        }
        options.push(option);
        proof {
            assert(views(options@) == views(before).push(option@));
            if let Ok(tail) = raw_options(rest@.skip(end as int)) {
                assert(views(before) + (seq![option@] + tail) == views(options@) + tail);
            }
        }
        rest = slice_subrange(rest, end, rest.len());
    }
    assert(views(options@) + Seq::<RawView>::empty() == views(options@));
    Ok(options)
}

/// Append one triple, if the payload's length fits its field.
pub fn push_raw_option(packet: &mut Vec<u8>, code: u16, payload: &[u8]) -> (fits: bool)
    ensures
        fits == (payload@.len() <= 0xffff),
        fits ==> final(packet)@ == old(packet)@ + (RawView { code, data: payload@ }).encoded(),
        !fits ==> final(packet)@ == old(packet)@,
{
    if payload.len() > 0xffff {
        return false;
    }
    push_u16(packet, code);
    push_u16(packet, payload.len() as u16);
    push_slice(packet, payload);
    assert(packet@ == old(packet)@ + (RawView { code, data: payload@ }).encoded());
    true
}

} // verus!
