//! The `bf16` byte codec of the `half` crate, on bit patterns.
//!
//! Tensors of `bf16` elements are held here as their 16-bit patterns; these
//! functions pass a pattern through the crate's type.

use vstd::prelude::*;

verus! {

/// Calls `half::bf16::to_le_bytes` on the value whose bit pattern is `bits`.
/// The crate documents the result as the memory representation of the bit
/// pattern in little-endian order: the low byte first.
#[verifier::external_body]
pub(crate) fn bf16_to_le_bytes(bits: u16) -> (r: [u8; 2])
    ensures
        r@ == seq![(bits % 256) as u8, (bits / 256) as u8],
{
    half::bf16::from_bits(bits).to_le_bytes()
}

/// Calls `half::bf16::from_le_bytes` and gives the bit pattern of the value.
/// The crate builds the value from `u16::from_le_bytes` of the two bytes.
#[verifier::external_body]
pub(crate) fn bf16_from_le_bytes(bytes: [u8; 2]) -> (r: u16)
    ensures
        r == bytes@[0] + 256 * bytes@[1],
{
    half::bf16::from_le_bytes(bytes).to_bits()
}

} // verus!
