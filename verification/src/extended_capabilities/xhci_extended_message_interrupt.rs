//! xHCI Extended Message Interrupt Capability.
use crate::bits;
use vstd::prelude::*;

verus! {

/// xHCI Extended Message Interrupt Capability.
#[derive(Copy, Clone, Debug)]
pub struct XhciExtendedMessageInterrupt {
    /// Capability ID.
    pub id: u8,
    /// Next Capability Pointer.
    pub next: u8,
    /// Message Control.
    pub control: MessageControl,
    /// Message Upper Address.
    pub upper_address: u32,
    /// Table Offset and BIR.
    pub table_offset: TableOffset,
}

impl XhciExtendedMessageInterrupt {
    /// Decodes the capability from its three Dwords: the Capability ID, the Next Capability
    /// Pointer and the Message Control in the first, the Message Upper Address in the second,
    /// and the Table Offset and BIR in the third.
    pub fn from_raw(raw: [u32; 3]) -> (r: Self)
        ensures
            r.id == bits::field32(raw@[0], 0, 8),
            r.next == bits::field32(raw@[0], 8, 8),
            r.control@ == bits::field32(raw@[0], 16, 16),
            r.upper_address == raw@[1],
            r.table_offset@ == raw@[2],
    {
        proof {
            bits::lemma_mask32_values();
        }
        Self {
            id: bits::get_bits_u32(raw[0], 0, 8) as u8,
            next: bits::get_bits_u32(raw[0], 8, 8) as u8,
            control: MessageControl(bits::get_bits_u32(raw[0], 16, 16) as u16),
            upper_address: raw[1],
            table_offset: TableOffset(raw[2]),
        }
    }
}

/// Message Control.
#[derive(Copy, Clone, Debug)]
pub struct MessageControl(u16);

impl View for MessageControl {
    type V = u16;

    closed spec fn view(&self) -> u16 {
        self.0
    }
}

impl MessageControl {
    /// Wraps a raw value of the register.
    pub fn from_raw(raw: u16) -> (r: Self)
        ensures
            r@ == raw,
    {
        Self(raw)
    }

    /// Returns the raw value of the register.
    pub fn into_raw(self) -> (r: u16)
        ensures
            r == self@,
    {
        self.0
    }

    /// Returns the MSI-X Enable bit.
    pub fn msi_x_enable(self) -> (r: bool)
        ensures
            r == bits::bit32(self@ as u32, 15),
    {
        bits::get_bit_u32(self.0 as u32, 15)
    }

    /// Sets the MSI-X Enable bit.
    pub fn set_msi_x_enable(&mut self, b: bool)
        ensures
            final(self)@ as u32 == bits::with_bit32(old(self)@ as u32, 15, b),
    {
        proof {
            bits::lemma_16bit_writes_stay_16bit(self.0 as u32, 15, b, 0, 1, 0);
        }
        self.0 = bits::set_bit_u32(self.0 as u32, 15, b) as u16;
    }

    /// Returns the value of the Table Size field.
    pub fn table_size(self) -> (r: u16)
        ensures
            r == bits::field32(self@ as u32, 0, 11),
    {
        proof {
            bits::lemma_mask32_values();
        }
        bits::get_bits_u32(self.0 as u32, 0, 11) as u16
    }
}

/// Table Offset and BIR.
#[derive(Copy, Clone, Debug)]
pub struct TableOffset(u32);

impl View for TableOffset {
    type V = u32;

    closed spec fn view(&self) -> u32 {
        self.0
    }
}

impl TableOffset {
    /// Wraps a raw value of the register.
    pub fn from_raw(raw: u32) -> (r: Self)
        ensures
            r@ == raw,
    {
        Self(raw)
    }

    /// Returns the raw value of the register.
    pub fn into_raw(self) -> (r: u32)
        ensures
            r == self@,
    {
        self.0
    }

    /// Returns the 8-byte aligned offset.
    pub fn offset(self) -> (r: u32)
        ensures
            r == self@ & !0b111u32,
    {
        self.0 & !0b111
    }

    /// Returns the BIR value.
    pub fn bir(self) -> (r: u8)
        ensures
            r == bits::field32(self@, 0, 3),
    {
        proof {
            bits::lemma_mask32_values();
        }
        bits::get_bits_u32(self.0, 0, 3) as u8
    }
}

} // verus!
