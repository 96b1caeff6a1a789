//! HCI Extended Power Management Capability.
use crate::bits;
use vstd::prelude::*;

verus! {

/// HCI Extended Power Management Capability.
#[derive(Copy, Clone, Debug)]
pub struct HciExtendedPowerManagement([u32; 2]);

impl View for HciExtendedPowerManagement {
    type V = Seq<u32>;

    closed spec fn view(&self) -> Seq<u32> {
        self.0@
    }
}

impl HciExtendedPowerManagement {
    /// Wraps a raw value of the register.
    pub fn from_raw(raw: [u32; 2]) -> (r: Self)
        ensures
            r@ == raw@,
    {
        Self(raw)
    }

    /// Returns the raw value of the register.
    pub fn into_raw(self) -> (r: [u32; 2])
        ensures
            r@ == self@,
    {
        self.0
    }

    /// Returns the value of the `PME_Support` field.
    pub fn pme_support(self) -> (r: u8)
        ensures
            r == bits::field32(self@[0], 27, 5),
    {
        proof {
            bits::lemma_mask32_values();
        }
        bits::get_bits_u32(self.0[0], 27, 5) as u8
    }

    /// Returns the `D2_Support` bit.
    pub fn d2_support(self) -> (r: bool)
        ensures
            r == bits::bit32(self@[0], 26),
    {
        bits::get_bit_u32(self.0[0], 26)
    }

    /// Returns the `D1_Support` bit.
    pub fn d1_support(self) -> (r: bool)
        ensures
            r == bits::bit32(self@[0], 25),
    {
        bits::get_bit_u32(self.0[0], 25)
    }

    /// Returns the value of the `Aux_Current` field.
    pub fn aux_current(self) -> (r: u8)
        ensures
            r == bits::field32(self@[0], 22, 3),
    {
        proof {
            bits::lemma_mask32_values();
        }
        bits::get_bits_u32(self.0[0], 22, 3) as u8
    }

    /// Returns the DSI bit.
    pub fn dsi(self) -> (r: bool)
        ensures
            r == bits::bit32(self@[0], 21),
    {
        bits::get_bit_u32(self.0[0], 21)
    }

    /// Returns the PME Clock bit.
    pub fn pme_clock(self) -> (r: bool)
        ensures
            r == bits::bit32(self@[0], 19),
    {
        bits::get_bit_u32(self.0[0], 19)
    }

    /// Returns the value of the Version field.
    pub fn version(self) -> (r: u8)
        ensures
            r == bits::field32(self@[0], 16, 3),
    {
        proof {
            bits::lemma_mask32_values();
        }
        bits::get_bits_u32(self.0[0], 16, 3) as u8
    }

    /// Returns the `PME_Status` bit.
    pub fn pme_status(self) -> (r: bool)
        ensures
            r == bits::bit32(self@[1], 15),
    {
        bits::get_bit_u32(self.0[1], 15)
    }

    /// Clears the `PME_Status` bit.
    pub fn clear_pme_status(&mut self)
        ensures
            final(self)@ == old(self)@.update(1, bits::with_bit32(old(self)@[1], 15, true)),
    {
        self.0[1] = bits::set_bit_u32(self.0[1], 15, true);
    }

    /// Returns the value of the `Data_Scale` field.
    pub fn data_scale(self) -> (r: u8)
        ensures
            r == bits::field32(self@[1], 13, 2),
    {
        proof {
            bits::lemma_mask32_values();
        }
        bits::get_bits_u32(self.0[1], 13, 2) as u8
    }

    /// Returns the value of the `Data_Select` field.
    pub fn data_select(self) -> (r: u8)
        ensures
            r == bits::field32(self@[1], 9, 4),
    {
        proof {
            bits::lemma_mask32_values();
        }
        bits::get_bits_u32(self.0[1], 9, 4) as u8
    }

    /// Sets the value of the `Data_Select` field.
    ///
    /// The value must fit in the 4 bits of the field.
    pub fn set_data_select(&mut self, data_select: u8)
        requires
            data_select < 16,
        ensures
            final(self)@ == old(self)@.update(1, bits::with_field32(old(self)@[1], 9, 4, data_select as u32)),
    {
        proof {
            bits::lemma_mask32_values();
        }
        self.0[1] = bits::set_bits_u32(self.0[1], 9, 4, data_select as u32);
    }

    /// Returns the `PME_En` bit.
    pub fn pme_en(self) -> (r: bool)
        ensures
            r == bits::bit32(self@[1], 8),
    {
        bits::get_bit_u32(self.0[1], 8)
    }

    /// Sets the `PME_En` bit.
    pub fn set_pme_en(&mut self, b: bool)
        ensures
            final(self)@ == old(self)@.update(1, bits::with_bit32(old(self)@[1], 8, b)),
    {
        self.0[1] = bits::set_bit_u32(self.0[1], 8, b);
    }

    /// Returns the value of the `PowerState` field.
    pub fn power_state(self) -> (r: u8)
        ensures
            r == bits::field32(self@[1], 0, 2),
    {
        proof {
            bits::lemma_mask32_values();
        }
        bits::get_bits_u32(self.0[1], 0, 2) as u8
    }

    /// Sets the value of the `PowerState` field.
    ///
    /// The value must fit in the 2 bits of the field.
    pub fn set_power_state(&mut self, s: u8)
        requires
            s < 4,
        ensures
            final(self)@ == old(self)@.update(1, bits::with_field32(old(self)@[1], 0, 2, s as u32)),
    {
        proof {
            bits::lemma_mask32_values();
        }
        self.0[1] = bits::set_bits_u32(self.0[1], 0, 2, s as u32);
    }

    /// Returns the `BPCC_En` bit.
    pub fn bpcc_en(self) -> (r: bool)
        ensures
            r == bits::bit32(self@[1], 23),
    {
        bits::get_bit_u32(self.0[1], 23)
    }

    /// Returns the `B2_B3` bit.
    pub fn b2_b3(self) -> (r: bool)
        ensures
            r == bits::bit32(self@[1], 22),
    {
        bits::get_bit_u32(self.0[1], 22)
    }

    /// Returns the Data field.
    pub fn data(self) -> (r: u8)
        ensures
            r == bits::field32(self@[1], 24, 8),
    {
        proof {
            bits::lemma_mask32_values();
        }
        bits::get_bits_u32(self.0[1], 24, 8) as u8
    }
}

/// Power Management Capabilities.
#[derive(Copy, Clone, Debug)]
pub struct PowerManagementCapabilities(u16);

impl View for PowerManagementCapabilities {
    type V = u16;

    closed spec fn view(&self) -> u16 {
        self.0
    }
}

impl PowerManagementCapabilities {
    /// Wraps a raw value of the register.
    pub fn from_raw(raw: u16) -> (r: Self)
        ensures
            r@ == raw,
    {
        Self(raw)
    }

    /// Returns the raw value of the register.
    pub fn into_raw(self) -> (r: u16)
        ensures
            r == self@,
    {
        self.0
    }

    /// Returns the value of the `PME_Support` field.
    pub fn pme_support(self) -> (r: u8)
        ensures
            r == bits::field32(self@ as u32, 11, 5),
    {
        proof {
            bits::lemma_mask32_values();
        }
        bits::get_bits_u32(self.0 as u32, 11, 5) as u8
    }

    /// Returns the `D2_Support` bit.
    pub fn d2_support(self) -> (r: bool)
        ensures
            r == bits::bit32(self@ as u32, 10),
    {
        bits::get_bit_u32(self.0 as u32, 10)
    }

    /// Returns the `D1_Support` bit.
    pub fn d1_support(self) -> (r: bool)
        ensures
            r == bits::bit32(self@ as u32, 9),
    {
        bits::get_bit_u32(self.0 as u32, 9)
    }

    /// Returns the value of the `Aux_Current` field.
    pub fn aux_current(self) -> (r: u8)
        ensures
            r == bits::field32(self@ as u32, 6, 3),
    {
        proof {
            bits::lemma_mask32_values();
        }
        bits::get_bits_u32(self.0 as u32, 6, 3) as u8
    }

    /// Returns the DSI bit.
    pub fn dsi(self) -> (r: bool)
        ensures
            r == bits::bit32(self@ as u32, 5),
    {
        bits::get_bit_u32(self.0 as u32, 5)
    }

    /// Returns the PME Clock bit.
    pub fn pme_clock(self) -> (r: bool)
        ensures
            r == bits::bit32(self@ as u32, 3),
    {
        bits::get_bit_u32(self.0 as u32, 3)
    }

    /// Returns the value of the Version field.
    pub fn version(self) -> (r: u8)
        ensures
            r == bits::field32(self@ as u32, 0, 3),
    {
        proof {
            bits::lemma_mask32_values();
        }
        bits::get_bits_u32(self.0 as u32, 0, 3) as u8
    }
}

/// Power Management Control/Status Register.
#[derive(Copy, Clone, Debug)]
pub struct PowerManagementControlStatusRegister(u16);

impl View for PowerManagementControlStatusRegister {
    type V = u16;

    closed spec fn view(&self) -> u16 {
        self.0
    }
}

impl PowerManagementControlStatusRegister {
    /// Wraps a raw value of the register.
    pub fn from_raw(raw: u16) -> (r: Self)
        ensures
            r@ == raw,
    {
        Self(raw)
    }

    /// Returns the raw value of the register.
    pub fn into_raw(self) -> (r: u16)
        ensures
            r == self@,
    {
        self.0
    }

    /// Returns the `PME_Status` bit.
    pub fn pme_status(self) -> (r: bool)
        ensures
            r == bits::bit32(self@ as u32, 15),
    {
        bits::get_bit_u32(self.0 as u32, 15)
    }

    /// Assigns 1 to the `PME_Status` bit. On register write, this results in clearing the bit.
    pub fn clear_pme_status(&mut self) -> (r: &mut Self)
        ensures
            (*r)@ as u32 == bits::with_bit32(old(self)@ as u32, 15, true),
            *final(self) == *final(r),
    {
        proof {
            bits::lemma_16bit_writes_stay_16bit(self.0 as u32, 15, true, 0, 1, 0);
        }
        self.0 = bits::set_bit_u32(self.0 as u32, 15, true) as u16;
        self
    }

    /// Assigns 0 to the `PME_Status` bit, preventing the bit from being cleared on write.
    pub fn set_0_pme_status(&mut self) -> (r: &mut Self)
        ensures
            (*r)@ as u32 == bits::with_bit32(old(self)@ as u32, 15, false),
            *final(self) == *final(r),
    {
        proof {
            bits::lemma_16bit_writes_stay_16bit(self.0 as u32, 15, false, 0, 1, 0);
        }
        self.0 = bits::set_bit_u32(self.0 as u32, 15, false) as u16;
        self
    }

    /// Returns the value of the `Data_Scale` field.
    pub fn data_scale(self) -> (r: u8)
        ensures
            r == bits::field32(self@ as u32, 13, 2),
    {
        proof {
            bits::lemma_mask32_values();
        }
        bits::get_bits_u32(self.0 as u32, 13, 2) as u8
    }

    /// Returns the value of the `Data_Select` field.
    pub fn data_select(self) -> (r: u8)
        ensures
            r == bits::field32(self@ as u32, 9, 4),
    {
        proof {
            bits::lemma_mask32_values();
        }
        bits::get_bits_u32(self.0 as u32, 9, 4) as u8
    }

    /// Sets the value of the `Data_Select` field.
    ///
    /// The value must fit in the 4 bits of the field.
    pub fn set_data_select(&mut self, value: u8) -> (r: &mut Self)
        requires
            value < 16,
        ensures
            (*r)@ as u32 == bits::with_field32(old(self)@ as u32, 9, 4, value as u32),
            *final(self) == *final(r),
    {
        proof {
            bits::lemma_mask32_values();
            bits::lemma_16bit_writes_stay_16bit(self.0 as u32, 0, true, 9, 4, value as u32);
        }
        self.0 = bits::set_bits_u32(self.0 as u32, 9, 4, value as u32) as u16;
        self
    }

    /// Returns the `PME_En` bit.
    pub fn pme_en(self) -> (r: bool)
        ensures
            r == bits::bit32(self@ as u32, 8),
    {
        bits::get_bit_u32(self.0 as u32, 8)
    }

    /// Sets the `PME_En` bit.
    pub fn set_pme_en(&mut self) -> (r: &mut Self)
        ensures
            (*r)@ as u32 == bits::with_bit32(old(self)@ as u32, 8, true),
            *final(self) == *final(r),
    {
        proof {
            bits::lemma_16bit_writes_stay_16bit(self.0 as u32, 8, true, 0, 1, 0);
        }
        self.0 = bits::set_bit_u32(self.0 as u32, 8, true) as u16;
        self
    }

    /// Clears the `PME_En` bit.
    pub fn clear_pme_en(&mut self) -> (r: &mut Self)
        ensures
            (*r)@ as u32 == bits::with_bit32(old(self)@ as u32, 8, false),
            *final(self) == *final(r),
    {
        proof {
            bits::lemma_16bit_writes_stay_16bit(self.0 as u32, 8, false, 0, 1, 0);
        }
        self.0 = bits::set_bit_u32(self.0 as u32, 8, false) as u16;
        self
    }

    /// Returns the value of the `PowerState` field.
    pub fn power_state(self) -> (r: u8)
        ensures
            r == bits::field32(self@ as u32, 0, 2),
    {
        proof {
            bits::lemma_mask32_values();
        }
        bits::get_bits_u32(self.0 as u32, 0, 2) as u8
    }

    /// Sets the value of the `PowerState` field.
    ///
    /// The value must fit in the 2 bits of the field.
    pub fn set_power_state(&mut self, value: u8) -> (r: &mut Self)
        requires
            value < 4,
        ensures
            (*r)@ as u32 == bits::with_field32(old(self)@ as u32, 0, 2, value as u32),
            *final(self) == *final(r),
    {
        proof {
            bits::lemma_mask32_values();
            bits::lemma_16bit_writes_stay_16bit(self.0 as u32, 0, true, 0, 2, value as u32);
        }
        self.0 = bits::set_bits_u32(self.0 as u32, 0, 2, value as u32) as u16;
        self
    }
}

/// `PMESR_BSE` Register.
#[derive(Copy, Clone, Debug)]
pub struct PmesrBse(u8);

impl View for PmesrBse {
    type V = u8;

    closed spec fn view(&self) -> u8 {
        self.0
    }
}

impl PmesrBse {
    /// Wraps a raw value of the register.
    pub fn from_raw(raw: u8) -> (r: Self)
        ensures
            r@ == raw,
    {
        Self(raw)
    }

    /// Returns the raw value of the register.
    pub fn into_raw(self) -> (r: u8)
        ensures
            r == self@,
    {
        self.0
    }

    /// Returns the `BPCC_En` bit.
    pub fn bpcc_en(self) -> (r: bool)
        ensures
            r == bits::bit32(self@ as u32, 7),
    {
        bits::get_bit_u32(self.0 as u32, 7)
    }

    /// Returns the `B2_B3` bit.
    pub fn b2_b3(self) -> (r: bool)
        ensures
            r == bits::bit32(self@ as u32, 6),
    {
        bits::get_bit_u32(self.0 as u32, 6)
    }
}

/// Data.
#[derive(Copy, Clone, Debug)]
pub struct Data(u8);

impl View for Data {
    type V = u8;

    closed spec fn view(&self) -> u8 {
        self.0
    }
}

impl Data {
    /// Wraps a raw value of the register.
    pub fn from_raw(raw: u8) -> (r: Self)
        ensures
            r@ == raw,
    {
        Self(raw)
    }

    /// Returns the raw value of the register.
    pub fn into_raw(self) -> (r: u8)
        ensures
            r == self@,
    {
        self.0
    }

    /// Returns the wrapped data.
    pub fn get(self) -> (r: u8)
        ensures
            r == self@,
    {
        self.0
    }
}

} // verus!
