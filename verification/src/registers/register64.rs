//! 64-bit xHCI registers, and the ways to access them.
//!
//! xHCI permits 64-bit registers to be accessed as two 32-bit operations on platforms that
//! cannot issue 64-bit MMIO accesses. This module decides where such a register is mapped and
//! how its value is split into, and joined from, its two halves; the accesses themselves are left
//! to the caller.
use crate::accessor::Mapping;
use crate::bits;
use vstd::layout::layout_for_type_is_valid;
use vstd::prelude::*;

verus! {

/// The access width and ordering used for 64-bit xHCI registers.
///
/// Some controllers require a specific order for the two 32-bit operations.
#[derive(Copy, Clone, Debug, Eq, PartialEq, Structural)]
pub enum Access64 {
    /// Access the register with one 64-bit operation.
    Native,
    /// Access the low 32 bits before the high 32 bits.
    LowHigh,
    /// Access the high 32 bits before the low 32 bits.
    HighLow,
}

impl Default for Access64 {
    fn default() -> (r: Self)
        ensures
            r == Access64::Native,
    {
        Access64::Native
    }
}

impl Access64 {
    /// The alignment that the base address of a register of type `T` accessed this way needs:
    /// that of `T` for a 64-bit access, that of `u32` for two 32-bit accesses.
    pub open spec fn spec_alignment<T>(self) -> nat {
        match self {
            Access64::Native => vstd::layout::align_of::<T>(),
            _ => vstd::layout::align_of::<u32>(),
        }
    }

    /// Returns the alignment that the base address of a register of type `T` accessed this way
    /// needs.
    pub fn alignment<T>(self) -> (r: usize)
        ensures
            r == self.spec_alignment::<T>(),
            r > 0,
    {
        layout_for_type_is_valid::<T>();
        layout_for_type_is_valid::<u32>();
        match self {
            Access64::Native => core::mem::align_of::<T>(),
            Access64::LowHigh | Access64::HighLow => core::mem::align_of::<u32>(),
        }
    }

    /// Returns the region that an accessor to a 64-bit register of type `T` at `phys_base`
    /// maps, or `None` if `T` is not 8 bytes long or `phys_base` is not aligned for this way of
    /// access.
    pub fn mapping<T>(self, phys_base: usize) -> (r: Option<Mapping>)
        ensures
            r == (if vstd::layout::size_of::<T>() == 8 && phys_base as int
                % self.spec_alignment::<T>() as int == 0 {
                Some(Mapping { phys_start: phys_base, bytes: 8 })
            } else {
                None
            }),
    {
        layout_for_type_is_valid::<T>();
        let alignment = self.alignment::<T>();
        if core::mem::size_of::<T>() == 8 && phys_base % alignment == 0 {
            Some(Mapping { phys_start: phys_base, bytes: core::mem::size_of::<T>() })
        } else {
            None
        }
    }
}

/// Returns the value of a 64-bit register from its low and high halves.
pub fn join(low: u32, high: u32) -> (r: u64)
    ensures
        r == bits::join64(low, high),
{
    bits::join_halves(low, high)
}

/// Returns the low and the high halves of the value of a 64-bit register.
pub fn split(raw: u64) -> (r: (u32, u32))
    ensures
        r == (bits::low32(raw), bits::high32(raw)),
        bits::join64(r.0, r.1) == raw,
{
    proof {
        bits::lemma_join64_halves(raw, 0, 0);
    }
    (bits::low_half(raw), bits::high_half(raw))
}

} // verus!
