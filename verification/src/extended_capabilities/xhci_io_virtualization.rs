//! xHCI I/O Virtualization (xHCI-IOV) Capability.
use crate::bits;
use vstd::prelude::*;

verus! {

/// VF Interrupter Range Registers.
#[derive(Copy, Clone, Debug)]
pub struct VfInterrupterRangeRegisters(u32);

impl View for VfInterrupterRangeRegisters {
    type V = u32;

    closed spec fn view(&self) -> u32 {
        self.0
    }
}

impl VfInterrupterRangeRegisters {
    /// Wraps a raw value of the register.
    pub fn from_raw(raw: u32) -> (r: Self)
        ensures
            r@ == raw,
    {
        Self(raw)
    }

    /// Returns the raw value of the register.
    pub fn into_raw(self) -> (r: u32)
        ensures
            r == self@,
    {
        self.0
    }

    /// Returns the value of the Interrupter Offset field.
    pub fn interrupter_offset(self) -> (r: u16)
        ensures
            r == bits::field32(self@, 0, 10),
    {
        proof {
            bits::lemma_mask32_values();
        }
        bits::get_bits_u32(self.0, 0, 10) as u16
    }

    /// Sets the value of the Interrupter Offset field.
    ///
    /// The value must fit in the 10 bits of the field.
    pub fn set_interrupter_offset(&mut self, offset: u16)
        requires
            offset < 1024,
        ensures
            final(self)@ == bits::with_field32(old(self)@, 0, 10, offset as u32),
    {
        proof {
            bits::lemma_mask32_values();
        }
        self.0 = bits::set_bits_u32(self.0, 0, 10, offset as u32);
    }

    /// Returns the value of the Interrupter Count field.
    pub fn interrupter_count(self) -> (r: u16)
        ensures
            r == bits::field32(self@, 10, 10),
    {
        proof {
            bits::lemma_mask32_values();
        }
        bits::get_bits_u32(self.0, 10, 10) as u16
    }

    /// Sets the value of the Interrupter Count field.
    ///
    /// The value must fit in the 10 bits of the field.
    pub fn set_interrupter_count(&mut self, count: u16)
        requires
            count < 1024,
        ensures
            final(self)@ == bits::with_field32(old(self)@, 10, 10, count as u32),
    {
        proof {
            bits::lemma_mask32_values();
        }
        self.0 = bits::set_bits_u32(self.0, 10, 10, count as u32);
    }

    /// Returns the VF Run bit.
    pub fn vf_run(self) -> (r: bool)
        ensures
            r == bits::bit32(self@, 20),
    {
        bits::get_bit_u32(self.0, 20)
    }

    /// Sets the VF Run bit.
    pub fn set_vf_run(&mut self, b: bool)
        ensures
            final(self)@ == bits::with_bit32(old(self)@, 20, b),
    {
        self.0 = bits::set_bit_u32(self.0, 20, b);
    }

    /// Returns the VF Halted bit.
    pub fn vf_halted(self) -> (r: bool)
        ensures
            r == bits::bit32(self@, 21),
    {
        bits::get_bit_u32(self.0, 21)
    }
}

} // verus!
