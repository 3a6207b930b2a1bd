//! The identity that a client's DUID or its relay gives.

use crate::address::MacAddress;
use crate::bytes::read_u16;
#[allow(unused_imports)]
use crate::bytes::{u16_at, u16_octets};
use vstd::prelude::*;
use vstd::slice::slice_subrange;

verus! {

const DUID_LLT: u16 = 1;

const DUID_EN: u16 = 2;

const DUID_LL: u16 = 3;

const DUID_UUID: u16 = 4;

const HARDWARE_TYPE_ETHERNET: u16 = 1;

/// Shortest complete DUID: a type and one octet.
pub const DUID_MIN_LENGTH: usize = 3;

/// Maximum complete DUID length permitted by RFC 9915.
pub const DUID_MAX_LENGTH: usize = 130;

/// Result of parsing a DUID for an Ethernet identity.
#[derive(Debug, Clone, Copy, PartialEq, Eq)]
pub enum DuidMac {
    Mac(MacAddress),
    NoLinkLayerMac,
}

/// Why a DUID cannot provide a supported identity.
#[derive(Debug, Clone, Copy, PartialEq, Eq, Structural)]
pub enum DuidError {
    Malformed,
    UnsupportedType,
}

impl View for DuidMac {
    type V = Option<Seq<u8>>;

    open spec fn view(&self) -> Option<Seq<u8>> {
        match self {
            DuidMac::Mac(mac) => Some(mac@),
            DuidMac::NoLinkLayerMac => None,
        }
    }
}

/// The hardware address in the part of a DUID behind its type: a hardware type, `time_length`
/// octets of time, and an Ethernet address that takes up the rest.
pub open spec fn link_layer_identity(bytes: Seq<u8>, time_length: int) -> Result<
    Option<Seq<u8>>,
    DuidError,
> {
    if bytes.len() < 2 + time_length + 6 {
        Err(DuidError::Malformed)
    } else if u16_at(bytes, 0) != 1 {
        Err(DuidError::UnsupportedType)
    } else if bytes.len() > 2 + time_length + 6 {
        Err(DuidError::Malformed)
    } else {
        Ok(Some(bytes.skip(2 + time_length)))
    }
}

/// The Ethernet address that a DUID is formed from, if it is formed from one.
pub open spec fn duid_identity(duid: Seq<u8>) -> Result<Option<Seq<u8>>, DuidError> {
    if !(DUID_MIN_LENGTH <= duid.len() <= DUID_MAX_LENGTH) {
        Err(DuidError::Malformed)
    } else if u16_at(duid, 0) == 1 {
        link_layer_identity(duid.skip(2), 4)
    } else if u16_at(duid, 0) == 3 {
        link_layer_identity(duid.skip(2), 0)
    } else if u16_at(duid, 0) == 2 && duid.len() < 7 {
        Err(DuidError::Malformed)
    } else if u16_at(duid, 0) == 4 && duid.len() != 18 {
        Err(DuidError::Malformed)
    } else {
        Ok(None)
    }
}

/// The Ethernet address in a relay's client link-layer option.
pub open spec fn option79_identity(payload: Seq<u8>) -> Option<Seq<u8>> {
    if payload.len() == 8 && u16_at(payload, 0) == 1 {
        Some(payload.skip(2))
    } else {
        None
    }
}

/// Parse the link-layer payload shared by DUID-LL and DUID-LLT.
fn parse_link_layer_duid(bytes: &[u8], time_length: usize) -> (result: Result<DuidMac, DuidError>)
    requires
        time_length <= 4,
    ensures
        match result {
            Ok(mac) => link_layer_identity(bytes@, time_length as int) == Ok::<
                Option<Seq<u8>>,
                DuidError,
            >(mac@),
            Err(error) => link_layer_identity(bytes@, time_length as int) == Err::<
                Option<Seq<u8>>,
                DuidError,
            >(error),
        },
{
    if bytes.len() < 2 + time_length + 6 {
        return Err(DuidError::Malformed);
    }
    if read_u16(bytes, 0) != HARDWARE_TYPE_ETHERNET {
        return Err(DuidError::UnsupportedType);
    }
    if bytes.len() != 2 + time_length + 6 {
        return Err(DuidError::Malformed);
    }
    let mac = MacAddress::read(bytes, 2 + time_length);
    assert(mac@ == bytes@.skip(2 + time_length as int));
    Ok(DuidMac::Mac(mac))
}

/// Extract an Ethernet MAC from a supported DUID, or classify a valid non-MAC DUID.
pub fn extract_mac_from_duid(duid: &[u8]) -> (result: Result<DuidMac, DuidError>)
    ensures
        match result {
            Ok(mac) => duid_identity(duid@) == Ok::<Option<Seq<u8>>, DuidError>(mac@),
            Err(error) => duid_identity(duid@) == Err::<Option<Seq<u8>>, DuidError>(error),
        },
{
    // RFC 9915 requires a two-octet type followed by 1 through 128 octets.
    if duid.len() < DUID_MIN_LENGTH || duid.len() > DUID_MAX_LENGTH {
        return Err(DuidError::Malformed);
    }
    let duid_type: u16 = read_u16(duid, 0);
    let rest = slice_subrange(duid, 2, duid.len());
    assert(rest@ == duid@.skip(2));
    if duid_type == DUID_LLT {
        parse_link_layer_duid(rest, 4)
    } else if duid_type == DUID_LL {
        parse_link_layer_duid(rest, 0)
    } else if duid_type == DUID_EN && duid.len() < 7 {
        Err(DuidError::Malformed)
    } else if duid_type == DUID_UUID && duid.len() != 18 {
        Err(DuidError::Malformed)
    } else {
        Ok(DuidMac::NoLinkLayerMac)
    }
}

/// Parse RFC 6939 option 79 and return its Ethernet MAC when supported.
pub fn extract_mac_from_option79(payload: &[u8]) -> (mac: Option<MacAddress>)
    ensures
        match mac {
            Some(mac) => option79_identity(payload@) == Some(mac@),
            None => option79_identity(payload@) is None,
        },
{
    if payload.len() != 8 {
        return None;
    }
    if read_u16(payload, 0) != HARDWARE_TYPE_ETHERNET {
        return None;
    }
    let mac = MacAddress::read(payload, 2);
    assert(mac@ == payload@.skip(2));
    Some(mac)
}

/// A DUID formed from an Ethernet address, with or without a time, gives that address back.
pub proof fn law_link_layer_duid_gives_its_mac(mac: Seq<u8>, time: Seq<u8>)
    requires
        mac.len() == 6,
        time.len() == 4,
    ensures
        duid_identity(u16_octets(3) + u16_octets(1) + mac) == Ok::<Option<Seq<u8>>, DuidError>(
            Some(mac),
        ),
        duid_identity(u16_octets(1) + u16_octets(1) + time + mac) == Ok::<
            Option<Seq<u8>>,
            DuidError,
        >(Some(mac)),
{
    let ll = u16_octets(3) + u16_octets(1) + mac;
    let llt = u16_octets(1) + u16_octets(1) + time + mac;
    assert(ll.skip(2).skip(2) == mac);
    assert(llt.skip(2).skip(6) == mac);
}

/// A DUID or a relay option that gives a hardware address gives six octets of its own.
pub proof fn law_identity_is_taken_from_the_octets(duid: Seq<u8>, payload: Seq<u8>)
    ensures
        duid_identity(duid) is Ok && duid_identity(duid)->Ok_0 is Some ==> {
            &&& duid_identity(duid)->Ok_0->Some_0 == duid.skip(duid.len() - 6)
            &&& duid.len() == 10 || duid.len() == 14
        },
        option79_identity(payload) is Some ==> option79_identity(payload)->Some_0 == payload.skip(
            payload.len() - 6,
        ),
{
    if duid_identity(duid) is Ok && duid_identity(duid)->Ok_0 is Some {
        assert(duid_identity(duid)->Ok_0->Some_0 == duid.skip(duid.len() - 6));
    }
}

/// What a DUID is, octet by octet. Those with a hardware address, with a time before it (type 1) or
/// without (type 3), have to be of Ethernet and to end with six octets, which are the address; one
/// that is long enough and of other hardware is not supported. One with an enterprise number (type
/// 2) has at least one octet behind it, a UUID (type 4) is sixteen octets, and any other type is
/// taken as it is: none of these gives an address.
pub proof fn law_duid_is_told_by_its_octets(duid: Seq<u8>)
    ensures
        ({
            let told = duid_identity(duid);
            let n = duid.len();
            let kind = duid[0] * 256 + duid[1];
            let ethernet = duid[2] == 0 && duid[3] == 1;
            let malformed = told == Err::<Option<Seq<u8>>, DuidError>(DuidError::Malformed);
            let unsupported = told == Err::<Option<Seq<u8>>, DuidError>(DuidError::UnsupportedType);
            let unnamed = told == Ok::<Option<Seq<u8>>, DuidError>(None);
            &&& n < 3 || n > 130 ==> malformed
            &&& 3 <= n <= 130 && kind == 1 ==> {
                &&& n < 14 ==> malformed
                &&& n >= 14 && !ethernet ==> unsupported
                &&& n > 14 && ethernet ==> malformed
                &&& n == 14 && ethernet ==> told == Ok::<Option<Seq<u8>>, DuidError>(
                    Some(duid.subrange(8, 14)),
                )
            }
            &&& 3 <= n <= 130 && kind == 3 ==> {
                &&& n < 10 ==> malformed
                &&& n >= 10 && !ethernet ==> unsupported
                &&& n > 10 && ethernet ==> malformed
                &&& n == 10 && ethernet ==> told == Ok::<Option<Seq<u8>>, DuidError>(
                    Some(duid.subrange(4, 10)),
                )
            }
            &&& 3 <= n <= 130 && kind == 2 ==> if n < 7 {
                malformed
            } else {
                unnamed
            }
            &&& 3 <= n <= 130 && kind == 4 ==> if n != 18 {
                malformed
            } else {
                unnamed
            }
            &&& 3 <= n <= 130 && (kind == 0 || kind > 4) ==> unnamed
        }),
{
    let n = duid.len();
    if n == 14 {
        assert(duid.skip(2).skip(6) == duid.subrange(8, 14));
    }
    if n == 10 {
        assert(duid.skip(2).skip(2) == duid.subrange(4, 10));
    }
}

/// A relay's client link-layer option gives an address exactly when it is eight octets, the first
/// two of which say Ethernet; the address is the other six.
pub proof fn law_relay_option_is_told_by_its_octets(payload: Seq<u8>)
    ensures
        option79_identity(payload) is Some <==> payload.len() == 8 && payload[0] == 0 && payload[1]
            == 1,
        option79_identity(payload) matches Some(mac) ==> mac == payload.subrange(2, 8),
{
    if payload.len() == 8 {
        assert(payload.skip(2) == payload.subrange(2, 8));
    }
}

} // verus!
