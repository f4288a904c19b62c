//! From the relative displacement that an instruction carries to the absolute
//! address that it names.

use crate::scanner::PatternCapture;
use vstd::prelude::*;

verus! {

/// The unsigned value of four bytes, least significant first.
pub open spec fn le_u32(bytes: Seq<u8>) -> int
    recommends
        bytes.len() == 4,
{
    bytes[0] as int + 0x100 * (bytes[1] as int) + 0x1_0000 * (bytes[2] as int) + 0x100_0000 * (
    bytes[3] as int)
}

/// The signed value of four bytes, least significant first, in two's
/// complement.
pub open spec fn displacement(bytes: Seq<u8>) -> int
    recommends
        bytes.len() == 4,
{
    if le_u32(bytes) >= 0x8000_0000 {
        le_u32(bytes) - 0x1_0000_0000
    } else {
        le_u32(bytes)
    }
}

/// The four bytes that encode a signed 32-bit displacement.
pub open spec fn encode_displacement(d: int) -> Seq<u8>
    recommends
        i32::MIN <= d <= i32::MAX,
{
    let u = if d < 0 {
        d + 0x1_0000_0000
    } else {
        d
    };
    seq![
        (u % 0x100) as u8,
        ((u / 0x100) % 0x100) as u8,
        ((u / 0x1_0000) % 0x100) as u8,
        (u / 0x100_0000) as u8,
    ]
}

/// An address that leaves the address space at one end enters it again at
/// the other.
pub open spec fn wrap_address(address: int) -> int {
    if address > usize::MAX {
        address - (usize::MAX + 1)
    } else if address < 0 {
        address + (usize::MAX + 1)
    } else {
        address
    }
}

/// The address that a displacement of `bytes` names, counted from `base`.
pub open spec fn resolved_address(bytes: Seq<u8>, base: int) -> Option<int> {
    if bytes.len() == 4 {
        Some(wrap_address(base + displacement(bytes)))
    } else {
        None
    }
}

/// Reads four bytes at `offset`, least significant first.
pub fn read_u32_le(bytes: &[u8], offset: usize) -> (value: Option<u32>)
    ensures
        match value {
            Some(v) => offset + 4 <= bytes@.len() && v == le_u32(
                bytes@.subrange(offset as int, offset + 4),
            ),
            None => offset + 4 > bytes@.len(),
        },
{
    if bytes.len() < 4 || offset > bytes.len() - 4 {
        return None;
    }
    let b0: u32 = bytes[offset] as u32;
    let b1: u32 = bytes[offset + 1] as u32;
    let b2: u32 = bytes[offset + 2] as u32;
    let b3: u32 = bytes[offset + 3] as u32;
    Some(b0 + 0x100 * b1 + 0x1_0000 * b2 + 0x100_0000 * b3)
}

/// Decodes the capture as a signed 32-bit displacement and adds it to the
/// address from which the instruction counts. A capture of another width
/// than four bytes names no address.
pub fn resolve_relative(capture: &PatternCapture, instruction_end: usize) -> (address: Option<
    usize,
>)
    ensures
        match address {
            Some(a) => resolved_address(capture.bytes@, instruction_end as int) == Some(a as int),
            None => resolved_address(capture.bytes@, instruction_end as int) is None,
        },
{
    if capture.bytes.len() != 4 {
        return None;
    }
    let unsigned: u32 = match read_u32_le(capture.bytes.as_slice(), 0) {
        Some(v) => v,
        None => { return None; },
    };
    assert(capture.bytes@.subrange(0, 4) =~= capture.bytes@);
    let signed: i64 = if unsigned >= 0x8000_0000 {
        unsigned as i64 - 0x1_0000_0000
    } else {
        unsigned as i64
    };
    Some(instruction_end.wrapping_add_signed(signed as isize))
}

/// Decoding inverts encoding, and where the sum of base and displacement is
/// an address, resolution yields exactly that sum, for negative
/// displacements too.
pub proof fn lemma_resolve_inverts_encoding(d: int, base: usize)
    requires
        i32::MIN <= d <= i32::MAX,
        0 <= base + d <= usize::MAX,
    ensures
        encode_displacement(d).len() == 4,
        displacement(encode_displacement(d)) == d,
        resolved_address(encode_displacement(d), base as int) == Some(base + d),
{
}

/// Whatever the displacement, the resolved address differs from the sum of
/// base and displacement by a whole number of address spaces.
pub proof fn lemma_resolution_wraps(bytes: Seq<u8>, base: usize)
    requires
        bytes.len() == 4,
    ensures
        0 <= resolved_address(bytes, base as int)->0 <= usize::MAX,
        i32::MIN <= displacement(bytes) <= i32::MAX,
        resolved_address(bytes, base as int)->0 == base + displacement(bytes) || resolved_address(
            bytes,
            base as int,
        )->0 == base + displacement(bytes) + (usize::MAX + 1) || resolved_address(
            bytes,
            base as int,
        )->0 == base + displacement(bytes) - (usize::MAX + 1),
{
}

} // verus!
