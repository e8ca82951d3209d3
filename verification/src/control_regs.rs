//! Values of control register 0.
//!
//! Reading and writing the register is left to the caller; this module
//! computes the value to write.

use vstd::prelude::*;
use x86::controlregs::Cr0;

verus! {

/// The bits of control register 0 that have a defined meaning.
pub const CR0_DEFINED_BITS: u64 = 0xE005_003F;

/// Bit 30: caching is disabled.
pub const CR0_CACHE_DISABLE: u64 = 0x4000_0000;

/// Bit 29: write-through is off.
pub const CR0_NOT_WRITE_THROUGH: u64 = 0x2000_0000;

/// Calls `Cr0::from_bits_truncate`, `Cr0::remove` and `Cr0::bits` of the
/// `x86` crate. The first keeps only the eleven flags that the crate defines
/// for the register, from `bits` and from `flags` alike; the second clears in
/// the one what is set in the other; the third gives the bits back.
#[verifier::external_body]
fn cr0_remove(bits: u64, flags: u64) -> (rest: u64)
    ensures
        rest == (bits & CR0_DEFINED_BITS) & !(flags & CR0_DEFINED_BITS),
{
    let mut cr0 = Cr0::from_bits_truncate(bits as usize);
    cr0.remove(Cr0::from_bits_truncate(flags as usize));
    cr0.bits() as u64
}

/// The value to write to control register 0 so that the caches work: the
/// defined flags of `cr0` without "cache disable" and "not write-through".
pub fn enable_caching(cr0: u64) -> (enabled: u64)
    ensures
        enabled == cr0 & CR0_DEFINED_BITS & !(CR0_CACHE_DISABLE | CR0_NOT_WRITE_THROUGH),
        enabled & CR0_CACHE_DISABLE == 0,
        enabled & CR0_NOT_WRITE_THROUGH == 0,
{
    let enabled = cr0_remove(cr0, CR0_CACHE_DISABLE | CR0_NOT_WRITE_THROUGH);
    assert((cr0 & 0xE005_003Fu64) & !((0x4000_0000u64 | 0x2000_0000u64) & 0xE005_003Fu64) == cr0
        & 0xE005_003Fu64 & !(0x4000_0000u64 | 0x2000_0000u64)) by (bit_vector);
    assert((cr0 & 0xE005_003Fu64 & !(0x4000_0000u64 | 0x2000_0000u64)) & 0x4000_0000u64 == 0)
        by (bit_vector);
    assert((cr0 & 0xE005_003Fu64 & !(0x4000_0000u64 | 0x2000_0000u64)) & 0x2000_0000u64 == 0)
        by (bit_vector);
    enabled
}

} // verus!
