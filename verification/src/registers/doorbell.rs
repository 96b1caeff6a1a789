//! Doorbell Register
use super::capability::{DoorbellOffset, StructuralParameters1};
use crate::bits;
use vstd::prelude::*;

verus! {

/// The element of the Doorbell Array.
#[derive(Copy, Clone, Debug)]
pub struct Register(u32);

impl View for Register {
    type V = u32;

    closed spec fn view(&self) -> u32 {
        self.0
    }
}

impl Register {
    /// Wraps a raw value of the register.
    pub fn from_raw(raw: u32) -> (r: Self)
        ensures
            r@ == raw,
    {
        Self(raw)
    }

    /// Returns the raw value of the register.
    pub fn into_raw(self) -> (r: u32)
        ensures
            r == self@,
    {
        self.0
    }

    /// Returns the base address of the Doorbell Array and the number of its elements: the MMIO
    /// base plus the Doorbell Offset, and the Number of Device Slots.
    pub fn array_location(mmio_base: usize, dboff: DoorbellOffset, hcsparams1: StructuralParameters1)
        -> (r: (usize, usize))
        requires
            mmio_base + dboff@ <= usize::MAX,
        ensures
            r.0 == mmio_base + dboff@,
            r.1 == bits::field32(hcsparams1@, 0, 8),
    {
        let base = mmio_base + dboff.get() as usize;
        (base, hcsparams1.number_of_device_slots() as usize)
    }

    /// Get a doorbell target.
    pub fn doorbell_target(self) -> (r: u8)
        ensures
            r == bits::field32(self@, 0, 8),
    {
        proof {
            bits::lemma_mask32_values();
        }
        bits::get_bits_u32(self.0, 0, 8) as u8
    }

    /// Set a doorbell target.
    pub fn set_doorbell_target(&mut self, target: u8)
        ensures
            final(self)@ == bits::with_field32(old(self)@, 0, 8, target as u32),
    {
        proof {
            bits::lemma_mask32_values();
        }
        self.0 = bits::set_bits_u32(self.0, 0, 8, target as u32);
    }
}

} // verus!
