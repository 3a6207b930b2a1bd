//! Big-endian integers and octet strings.

use vstd::prelude::*;

verus! {

/// The big-endian 16-bit number at `at`.
pub open spec fn u16_at(bytes: Seq<u8>, at: int) -> u16 {
    (bytes[at] * 256 + bytes[at + 1]) as u16
}

/// The big-endian 32-bit number at `at`.
pub open spec fn u32_at(bytes: Seq<u8>, at: int) -> u32 {
    (u16_at(bytes, at) * 0x1_0000 + u16_at(bytes, at + 2)) as u32
}

/// The two big-endian octets of `value`.
pub open spec fn u16_octets(value: u16) -> Seq<u8> {
    seq![(value / 256) as u8, (value % 256) as u8]
}

/// The four big-endian octets of `value`.
pub open spec fn u32_octets(value: u32) -> Seq<u8> {
    u16_octets((value / 0x1_0000) as u16) + u16_octets((value % 0x1_0000) as u16)
}

/// Writing a 16-bit number and reading it back gives the number.
pub proof fn law_u16_octets_read_back(value: u16, before: Seq<u8>, after: Seq<u8>)
    ensures
        u16_at(before + u16_octets(value) + after, before.len() as int) == value,
{
    let all = before + u16_octets(value) + after;
    assert(all[before.len() as int] == (value / 256) as u8);
    assert(all[before.len() as int + 1] == (value % 256) as u8);
}

/// Writing a 32-bit number and reading it back gives the number.
pub proof fn law_u32_octets_read_back(value: u32, before: Seq<u8>, after: Seq<u8>)
    ensures
        u32_at(before + u32_octets(value) + after, before.len() as int) == value,
{
    let high = (value / 0x1_0000) as u16;
    let low = (value % 0x1_0000) as u16;
    let all = before + u32_octets(value) + after;
    assert(all == before + u16_octets(high) + (u16_octets(low) + after));
    law_u16_octets_read_back(high, before, u16_octets(low) + after);
    assert(all == (before + u16_octets(high)) + u16_octets(low) + after);
    law_u16_octets_read_back(low, before + u16_octets(high), after);
}

/// Read the big-endian 16-bit number at `at`.
pub fn read_u16(bytes: &[u8], at: usize) -> (value: u16)
    requires
        at + 2 <= bytes@.len(),
    ensures
        value == u16_at(bytes@, at as int),
{
    let high: u16 = bytes[at] as u16;
    let low: u16 = bytes[at + 1] as u16;
    high * 256 + low
}

/// Append the big-endian octets of `value`.
pub fn push_u16(bytes: &mut Vec<u8>, value: u16)
    ensures
        final(bytes)@ == old(bytes)@ + u16_octets(value),
{
    bytes.push((value / 256) as u8);
    bytes.push((value % 256) as u8);
}

/// Append the big-endian octets of `value`.
pub fn push_u32(bytes: &mut Vec<u8>, value: u32)
    ensures
        final(bytes)@ == old(bytes)@ + u32_octets(value),
{
    push_u16(bytes, (value / 0x1_0000) as u16);
    push_u16(bytes, (value % 0x1_0000) as u16);
}

/// Append every octet of `more`.
pub fn push_slice(bytes: &mut Vec<u8>, more: &[u8])
    ensures
        final(bytes)@ == old(bytes)@ + more@,
{
    bytes.extend_from_slice(more);
    assert(bytes@ == old(bytes)@ + more@);
}

/// Whether two octet strings are the same.
pub fn same_bytes(left: &[u8], right: &[u8]) -> (same: bool)
    ensures
        same == (left@ == right@),
{
    if left.len() != right.len() {
        return false;
    }
    let mut i: usize = 0;
    while i < left.len()
        invariant
            i <= left@.len(),
            left@.len() == right@.len(),
            forall|k: int| 0 <= k < i ==> left@[k] == right@[k],
        decreases left@.len() - i,
    {
        if left[i] != right[i] {
            return false;
        }
        i += 1;
    }
    assert(left@ == right@);
    true
}

} // verus!
