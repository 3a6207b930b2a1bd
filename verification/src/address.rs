//! IPv6 addresses and Ethernet hardware addresses as plain octets.

#[allow(unused_imports)]
use crate::text::{decimal_text, decimal_value, law_decimal_text_reads_back};
use crate::bytes::same_bytes;
use crate::text::push_decimal;
#[allow(unused_imports)]
use vstd::arithmetic::power2::pow2;
use vstd::prelude::*;
use vstd::string::StringExecFns;

verus! {

/// An IPv6 address.
#[derive(Debug, Clone, Copy, PartialEq, Eq)]
pub struct Ipv6Addr {
    pub octets: [u8; 16],
}

impl View for Ipv6Addr {
    type V = Seq<u8>;

    open spec fn view(&self) -> Seq<u8> {
        self.octets@
    }
}

impl Ipv6Addr {
    /// The address whose octets start at `at`.
    pub fn read(bytes: &[u8], at: usize) -> (address: Self)
        requires
            at + 16 <= bytes@.len(),
        ensures
            address@ == bytes@.subrange(at as int, at + 16),
    {
        let octets = [
            bytes[at],
            bytes[at + 1],
            bytes[at + 2],
            bytes[at + 3],
            bytes[at + 4],
            bytes[at + 5],
            bytes[at + 6],
            bytes[at + 7],
            bytes[at + 8],
            bytes[at + 9],
            bytes[at + 10],
            bytes[at + 11],
            bytes[at + 12],
            bytes[at + 13],
            bytes[at + 14],
            bytes[at + 15],
        ];
        assert(octets@ == bytes@.subrange(at as int, at + 16));
        Ipv6Addr { octets }
    }
}

/// The text that `std` writes for an IPv6 address.
pub uninterp spec fn ipv6_text(octets: Seq<u8>) -> Seq<char>;

/// The IPv6 address that `std` reads from a text, if the text is one.
pub uninterp spec fn ipv6_parsed(text: Seq<char>) -> Option<Seq<u8>>;

impl Ipv6Addr {
    /// This address as text, as `core::net::Ipv6Addr` displays it: in the canonical style of RFC 5952,
    /// which `core::net::Ipv6Addr` parses back to the same address.
    #[verifier::external_body]
    pub(crate) fn text(&self) -> (text: String)
        ensures
            text@ == ipv6_text(self@),
            ipv6_parsed(text@) == Some(self@),
    {
        core::net::Ipv6Addr::from(self.octets).to_string()
    }

    /// The address that a text says, as `core::net::Ipv6Addr` parses it. The text of an address is
    /// groups of digits and colons, so one that starts with a bracket is none, and an address in
    /// brackets is none any more.
    #[verifier::external_body]
    pub(crate) fn parse(text: &str) -> (address: Option<Self>)
        ensures
            match address {
                Some(address) => ipv6_parsed(text@) == Some(address@),
                None => ipv6_parsed(text@) is None,
            },
            text@.len() > 0 && text@[0] == '[' ==> address is None,
            address is Some ==> ipv6_parsed("["@ + text@ + "]"@) is None,
    {
        let address: core::net::Ipv6Addr = text.parse().ok()?;
        Some(Ipv6Addr { octets: address.octets() })
    }

    /// Whether this is the same address as `other`.
    pub fn same(&self, other: &Self) -> (same: bool)
        ensures
            same == (self@ == other@),
    {
        same_bytes(self.octets.as_slice(), other.octets.as_slice())
    }
}

/// The network that `ipnetwork` reads from a text: an address and the length of its prefix.
pub uninterp spec fn network_parsed(text: Seq<char>) -> Option<(Seq<u8>, u8)>;

/// The bit of an address at `at`, counted from the first.
pub open spec fn bit_at(octets: Seq<u8>, at: int) -> int {
    (octets[at / 8] as int / pow2((7 - at % 8) as nat) as int) % 2
}

/// Whether two addresses agree in their first `prefix` bits.
pub open spec fn same_network(left: Seq<u8>, right: Seq<u8>, prefix: u8) -> bool {
    forall|at: int| 0 <= at < prefix ==> #[trigger] bit_at(left, at) == bit_at(right, at)
}

/// A network: an address, and how many of its first bits are those of the network.
#[derive(Debug, Clone, Copy, PartialEq, Eq)]
pub struct Ipv6Network {
    pub address: Ipv6Addr,
    pub prefix: u8,
}

impl Ipv6Network {
    /// The network that a text says, as `ipnetwork::Ipv6Network` parses it. Its prefix is at most
    /// the length of an address.
    #[verifier::external_body]
    pub(crate) fn parse(text: &str) -> (network: Option<Self>)
        ensures
            match network {
                Some(network) => {
                    &&& network_parsed(text@) == Some((network.address@, network.prefix))
                    &&& network.prefix <= 128
                },
                None => network_parsed(text@) is None,
            },
    {
        let network: ipnetwork::Ipv6Network = text.parse().ok()?;
        Some(Ipv6Network { address: Ipv6Addr { octets: network.ip().octets() }, prefix: network.prefix() })
    }

    /// Whether `address` is in this network, as `ipnetwork::Ipv6Network::contains` tells: the first
    /// `prefix` bits are those of the network's own address.
    #[verifier::external_body]
    pub(crate) fn contains(&self, address: &Ipv6Addr) -> (inside: bool)
        requires
            self.prefix <= 128,
        ensures
            inside == same_network(self.address@, address@, self.prefix),
    {
        let network = ipnetwork::Ipv6Network::new(self.address.octets.into(), self.prefix);
        network.is_ok_and(|network| network.contains(address.octets.into()))
    }
}

/// An Ethernet hardware address.
#[derive(Debug, Clone, Copy, PartialEq, Eq)]
pub struct MacAddress {
    pub octets: [u8; 6],
}

impl View for MacAddress {
    type V = Seq<u8>;

    open spec fn view(&self) -> Seq<u8> {
        self.octets@
    }
}

impl MacAddress {
    /// The hardware address whose octets start at `at`.
    pub fn read(bytes: &[u8], at: usize) -> (mac: Self)
        requires
            at + 6 <= bytes@.len(),
        ensures
            mac@ == bytes@.subrange(at as int, at + 6),
    {
        let octets = [
            bytes[at],
            bytes[at + 1],
            bytes[at + 2],
            bytes[at + 3],
            bytes[at + 4],
            bytes[at + 5],
        ];
        assert(octets@ == bytes@.subrange(at as int, at + 6));
        MacAddress { octets }
    }
}

/// An IPv4 address.
#[derive(Debug, Clone, Copy, PartialEq, Eq)]
pub struct Ipv4Addr {
    pub octets: [u8; 4],
}

impl View for Ipv4Addr {
    type V = Seq<u8>;

    open spec fn view(&self) -> Seq<u8> {
        self.octets@
    }
}

/// An IPv4 address as text: its octets in decimal, with dots between them.
pub open spec fn ipv4_text(octets: Seq<u8>) -> Seq<char> {
    decimal_text(octets[0] as nat) + "."@ + decimal_text(octets[1] as nat) + "."@ + decimal_text(
        octets[2] as nat,
    ) + "."@ + decimal_text(octets[3] as nat)
}

/// Where the first point of a text is, or the text's length where there is none.
pub open spec fn first_point(text: Seq<char>) -> int
    decreases text.len(),
{
    if text.len() == 0 || text[0] == '.' {
        0
    } else {
        1 + first_point(text.skip(1))
    }
}

/// The numbers that stand between the points of a text, if there are `count` of them.
pub open spec fn numbers_read(text: Seq<char>, count: nat) -> Seq<int>
    decreases count,
{
    if count <= 1 {
        seq![decimal_value(text)]
    } else {
        seq![decimal_value(text.take(first_point(text)))] + numbers_read(
            text.skip(first_point(text) + 1),
            (count - 1) as nat,
        )
    }
}

/// The first point behind characters that are none.
proof fn lemma_first_point(front: Seq<char>, back: Seq<char>)
    requires
        forall|i: int| 0 <= i < front.len() ==> (#[trigger] front[i]) != '.',
        back.len() > 0,
        back[0] == '.',
    ensures
        first_point(front + back) == front.len(),
    decreases front.len(),
{
    if front.len() == 0 {
        assert(front + back == back);
    } else {
        assert((front + back)[0] == front[0]);
        assert((front + back).skip(1) == front.skip(1) + back);
        lemma_first_point(front.skip(1), back);
    }
}

/// One number before a point is read off.
proof fn lemma_number_read(value: nat, rest: Seq<char>, count: nat)
    requires
        count > 1,
    ensures
        numbers_read(decimal_text(value) + "."@ + rest, count) == seq![value as int]
            + numbers_read(rest, (count - 1) as nat),
{
    reveal_strlit(".");
    let front = decimal_text(value);
    let text = front + "."@ + rest;
    law_decimal_text_reads_back(value);
    assert(text == front + ("."@ + rest));
    lemma_first_point(front, "."@ + rest);
    assert(text.take(front.len() as int) == front);
    assert(text.skip(front.len() as int + 1) == rest);
}

/// An IPv4 address as text is read back: the numbers between its points are its octets.
pub proof fn law_ipv4_text_reads_back(octets: Seq<u8>)
    requires
        octets.len() == 4,
    ensures
        numbers_read(ipv4_text(octets), 4) == seq![
            octets[0] as int,
            octets[1] as int,
            octets[2] as int,
            octets[3] as int,
        ],
{
    let d = decimal_text(octets[3] as nat);
    let c = decimal_text(octets[2] as nat) + "."@ + d;
    let b = decimal_text(octets[1] as nat) + "."@ + c;
    let a = decimal_text(octets[0] as nat) + "."@ + b;
    assert(ipv4_text(octets) =~= a);
    lemma_number_read(octets[0] as nat, b, 4);
    lemma_number_read(octets[1] as nat, c, 3);
    lemma_number_read(octets[2] as nat, d, 2);
    law_decimal_text_reads_back(octets[3] as nat);
    assert(numbers_read(d, 1) == seq![octets[3] as int]);
    assert(numbers_read(a, 4) =~= seq![
        octets[0] as int,
        octets[1] as int,
        octets[2] as int,
        octets[3] as int,
    ]);
}

impl Ipv4Addr {
    /// This address as text.
    pub fn text(&self) -> (text: String)
        ensures
            text@ == ipv4_text(self@),
    {
        let mut text = String::new();
        push_decimal(&mut text, self.octets[0] as u64);
        text.append(".");
        push_decimal(&mut text, self.octets[1] as u64);
        text.append(".");
        push_decimal(&mut text, self.octets[2] as u64);
        text.append(".");
        push_decimal(&mut text, self.octets[3] as u64);
        assert(text@ == ipv4_text(self@));
        text
    }
}

} // verus!
