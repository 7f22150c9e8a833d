//! Fixed-width values in byte buffers, read with borsh's encoding: integers
//! little-endian, a bool as one byte that is 0 or 1, an address as its 32 bytes.
use crate::address::Address;
use vstd::prelude::*;

verus! {

/// The unsigned value of eight bytes, least significant first.
pub open spec fn le_u64(b: Seq<u8>) -> int {
    b[0] as int + 0x100 * b[1] + 0x1_0000 * b[2] + 0x100_0000 * b[3] + 0x1_0000_0000 * b[4]
        + 0x100_0000_0000 * b[5] + 0x1_0000_0000_0000 * b[6] + 0x100_0000_0000_0000 * b[7]
}

/// The unsigned value of four bytes, least significant first.
pub open spec fn le_u32(b: Seq<u8>) -> int {
    b[0] as int + 0x100 * b[1] + 0x1_0000 * b[2] + 0x100_0000 * b[3]
}

/// Relies on borsh's `BorshDeserialize for u64`: reads the next eight bytes,
/// least significant first, and fails where fewer remain.
#[verifier::external_body]
pub(crate) fn read_u64_at(b: &[u8], off: usize) -> (r: Option<u64>)
    requires
        off <= b@.len(),
    ensures
        b@.len() - off >= 8 ==> r == Some(le_u64(b@.subrange(off as int, off + 8)) as u64),
        b@.len() - off < 8 ==> r is None,
{
    let mut rest: &[u8] = &b[off..];
    <u64 as borsh::BorshDeserialize>::deserialize(&mut rest).ok()
}

/// Relies on borsh's `BorshDeserialize for u32`: reads the next four bytes,
/// least significant first, and fails where fewer remain.
#[verifier::external_body]
pub(crate) fn read_u32_at(b: &[u8], off: usize) -> (r: Option<u32>)
    requires
        off <= b@.len(),
    ensures
        b@.len() - off >= 4 ==> r == Some(le_u32(b@.subrange(off as int, off + 4)) as u32),
        b@.len() - off < 4 ==> r is None,
{
    let mut rest: &[u8] = &b[off..];
    <u32 as borsh::BorshDeserialize>::deserialize(&mut rest).ok()
}

/// Relies on borsh's `BorshDeserialize for bool`: reads the next byte, which
/// must be 0 (false) or 1 (true).
#[verifier::external_body]
pub(crate) fn read_bool_at(b: &[u8], off: usize) -> (r: Option<bool>)
    requires
        off <= b@.len(),
    ensures
        r == (if off < b@.len() && b@[off as int] <= 1 {
            Some(b@[off as int] == 1)
        } else {
            None
        }),
{
    let mut rest: &[u8] = &b[off..];
    <bool as borsh::BorshDeserialize>::deserialize(&mut rest).ok()
}

/// Relies on borsh's `BorshDeserialize::try_from_slice` for `[u8; 32]`: the
/// buffer must hold exactly the 32 bytes of the address.
#[verifier::external_body]
pub(crate) fn read_address(b: &[u8]) -> (r: Option<Address>)
    ensures
        b@.len() == 32 ==> r is Some && r.unwrap()@ == b@,
        b@.len() != 32 ==> r is None,
{
    <[u8; 32] as borsh::BorshDeserialize>::try_from_slice(b).ok().map(|bytes| Address { bytes })
}

/// Relies on borsh's `BorshSerialize for [u8; 32]`, written into the buffer as
/// a slice: the 32 bytes go to its front, and the write fails where the buffer
/// is shorter.
#[verifier::external_body]
pub(crate) fn write_address(data: &mut Vec<u8>, a: &Address) -> (r: bool)
    ensures
        final(data)@.len() == old(data)@.len(),
        r == (old(data)@.len() >= 32),
        r ==> final(data)@ == a@ + old(data)@.subrange(32, old(data)@.len() as int),
{
    let mut w: &mut [u8] = data.as_mut_slice();
    borsh::BorshSerialize::serialize(&a.bytes, &mut w).is_ok()
}

} // verus!
