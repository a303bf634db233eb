//! The brain float of the wire format. It is handed on as the bit pattern
//! of the 32-bit float of the same value; the widening is that of the
//! `half` crate.
use vstd::prelude::*;

verus! {

/// The bits of the 32-bit float that a brain float widens to: the 16 bits
/// become the high half, and a NaN is made quiet.
pub open spec fn bf16_to_f32_bits(bits: u16) -> u32 {
    if bits & 0x7FFFu16 > 0x7F80u16 {
        ((bits as u32) | 0x0040u32) << 16
    } else {
        (bits as u32) << 16
    }
}

/// `half::bf16::to_f32`, from bits to bits. The conversion is exact: a
/// brain float is the high half of a 32-bit float.
#[verifier::external_body]
pub(crate) fn widen_bf16(bits: u16) -> (wide: u32)
    ensures
        wide == bf16_to_f32_bits(bits),
{
    half::bf16::from_bits(bits).to_f32().to_bits()
}

} // verus!
