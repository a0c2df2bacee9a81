//! Pointer paths in the memory of an emulated console with 32-bit addresses.
//!
//! Paths are written with 64-bit addresses and offsets throughout. An
//! emulator of such a console takes 32-bit ones: what is handed to it is the
//! low half of each.

use vstd::prelude::*;

verus! {

/// The low 32 bits of `value`.
pub open spec fn low_half(value: u64) -> u32 {
    (value as int % 0x1_0000_0000) as u32
}

/// The low 32 bits of `value`: what is left of an address or an offset in a
/// 32-bit address space.
pub fn narrow(value: u64) -> (low: u32)
    ensures
        low == low_half(value),
        low as int == value as int % 0x1_0000_0000,
{
    (value % 0x1_0000_0000) as u32
}

/// The offsets of `path`, each narrowed to 32 bits, in the same order.
pub fn narrow_path(path: &[u64]) -> (narrowed: Vec<u32>)
    ensures
        narrowed@ == path@.map_values(|offset: u64| low_half(offset)),
{
    let mut narrowed: Vec<u32> = Vec::new();
    let mut i: usize = 0;
    while i < path.len()
        invariant
            i <= path@.len(),
            narrowed@ == path@.take(i as int).map_values(|offset: u64| low_half(offset)),
        decreases path@.len() - i,
    {
        narrowed.push(narrow(path[i]));
        i = i + 1;
    }
    narrowed
}

} // verus!
