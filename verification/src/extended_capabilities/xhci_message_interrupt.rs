//! xHCI Message Interrupt Capability.
use crate::bits;
use vstd::prelude::*;

verus! {

/// The width of the Message Address of an xHCI Message Interrupt Capability.
#[derive(Copy, Clone, Debug, PartialEq, Eq, Structural)]
pub enum XhciMessageInterrupt {
    /// xHCI Message Interrupt Capability with the 32-bit Message Address.
    Addr32,
    /// xHCI Message Interrupt Capability with the 64-bit Message Address.
    Addr64,
}

impl XhciMessageInterrupt {
    /// Decides the layout of the capability from its Message Control register, whose 64 bit
    /// Address Capable bit tells the width of the Message Address.
    pub fn new(control: MessageControl) -> (r: Self)
        ensures
            r == (if bits::bit32(control@ as u32, 7) {
                XhciMessageInterrupt::Addr64
            } else {
                XhciMessageInterrupt::Addr32
            }),
    {
        if control.bit64_address_capable() {
            Self::Addr64
        } else {
            Self::Addr32
        }
    }
}

/// A type of the Message Address: `u32` or `u64`.
pub trait MessageAddress: Copy + Sized {
    /// The address that a value holds.
    spec fn spec_to_u64(self) -> u64;

    /// Whether the type can hold the address `a`.
    spec fn holds(a: u64) -> bool;

    /// Returns the address that this value holds.
    fn to_u64(self) -> (r: u64)
        ensures
            r == self.spec_to_u64(),
    ;

    /// Returns the value that holds the address `a`.
    fn from_u64(a: u64) -> (r: Self)
        requires
            Self::holds(a),
        ensures
            r.spec_to_u64() == a,
    ;
}

impl MessageAddress for u32 {
    open spec fn spec_to_u64(self) -> u64 {
        self as u64
    }

    open spec fn holds(a: u64) -> bool {
        a <= u32::MAX
    }

    fn to_u64(self) -> (r: u64) {
        self as u64
    }

    fn from_u64(a: u64) -> (r: Self) {
        a as u32
    }
}

impl MessageAddress for u64 {
    open spec fn spec_to_u64(self) -> u64 {
        self
    }

    open spec fn holds(a: u64) -> bool {
        true
    }

    fn to_u64(self) -> (r: u64) {
        self
    }

    fn from_u64(a: u64) -> (r: Self) {
        a
    }
}

/// The actual structure of xHCI Message Interrupt Capability.
#[derive(Copy, Clone, Debug)]
pub struct Internal<T: MessageAddress> {
    _id: u8,
    _next: u8,
    /// Message Control.
    pub control: MessageControl,
    address: T,
    /// Data.
    pub data: u16,
    /// Mask Bits.
    pub mask_bits: u32,
    /// Pending Bits.
    pub pending_bits: u32,
}

impl<T: MessageAddress> Internal<T> {
    /// The Message Address.
    pub closed spec fn spec_addr(&self) -> u64 {
        self.address.spec_to_u64()
    }

    /// The Capability ID, the Next Capability Pointer, the Message Control, the Data, the Mask
    /// Bits and the Pending Bits.
    pub closed spec fn spec_others(&self) -> (u8, u8, MessageControl, u16, u32, u32) {
        (self._id, self._next, self.control, self.data, self.mask_bits, self.pending_bits)
    }

    /// Builds the structure from its fields.
    pub fn new(
        id: u8,
        next: u8,
        control: MessageControl,
        address: T,
        data: u16,
        mask_bits: u32,
        pending_bits: u32,
    ) -> (r: Self)
        ensures
            r.spec_addr() == address.spec_to_u64(),
            r.spec_others() == (id, next, control, data, mask_bits, pending_bits),
    {
        Self { _id: id, _next: next, control, address, data, mask_bits, pending_bits }
    }

    /// Sets the Message Address.
    ///
    /// Bits `0..=1` of the address must be 0, and the address must fit in `T`.
    pub fn set_addr(&mut self, a: u64)
        requires
            a % 4 == 0,
            T::holds(a),
        ensures
            final(self).spec_addr() == a,
            final(self).spec_others() == old(self).spec_others(),
    {
        self.address = T::from_u64(a);
    }

    /// Returns the Message Address.
    pub fn get_addr(&self) -> (r: u64)
        ensures
            r == self.spec_addr(),
    {
        self.address.to_u64()
    }
}

/// Message Control.
#[derive(Copy, Clone, Debug)]
pub struct MessageControl(u16);

impl View for MessageControl {
    type V = u16;

    closed spec fn view(&self) -> u16 {
        self.0
    }
}

impl MessageControl {
    /// Wraps a raw value of the register.
    pub fn from_raw(raw: u16) -> (r: Self)
        ensures
            r@ == raw,
    {
        Self(raw)
    }

    /// Returns the raw value of the register.
    pub fn into_raw(self) -> (r: u16)
        ensures
            r == self@,
    {
        self.0
    }

    /// Returns the MSI Enable bit.
    pub fn msi_enable(&self) -> (r: bool)
        ensures
            r == bits::bit32(self@ as u32, 0),
    {
        bits::get_bit_u32(self.0 as u32, 0)
    }

    /// Sets the MSI Enable bit.
    pub fn set_msi_enable(&mut self) -> (r: &mut Self)
        ensures
            (*r)@ as u32 == bits::with_bit32(old(self)@ as u32, 0, true),
            *final(self) == *final(r),
    {
        proof {
            bits::lemma_16bit_writes_stay_16bit(self.0 as u32, 0, true, 0, 1, 0);
        }
        self.0 = bits::set_bit_u32(self.0 as u32, 0, true) as u16;
        self
    }

    /// Clears the MSI Enable bit.
    pub fn clear_msi_enable(&mut self) -> (r: &mut Self)
        ensures
            (*r)@ as u32 == bits::with_bit32(old(self)@ as u32, 0, false),
            *final(self) == *final(r),
    {
        proof {
            bits::lemma_16bit_writes_stay_16bit(self.0 as u32, 0, false, 0, 1, 0);
        }
        self.0 = bits::set_bit_u32(self.0 as u32, 0, false) as u16;
        self
    }

    /// Returns the value of the Multiple Message Capable field.
    pub fn multiple_message_capable(&self) -> (r: u8)
        ensures
            r == bits::field32(self@ as u32, 1, 3),
    {
        proof {
            bits::lemma_mask32_values();
        }
        bits::get_bits_u32(self.0 as u32, 1, 3) as u8
    }

    /// Returns the value of the Multiple Message Enable field.
    pub fn multiple_message_enable(&self) -> (r: u8)
        ensures
            r == bits::field32(self@ as u32, 4, 3),
    {
        proof {
            bits::lemma_mask32_values();
        }
        bits::get_bits_u32(self.0 as u32, 4, 3) as u8
    }

    /// Sets the value of the Multiple Message Enable field.
    ///
    /// The value must fit in the 3 bits of the field.
    pub fn set_multiple_message_enable(&mut self, value: u8) -> (r: &mut Self)
        requires
            value < 8,
        ensures
            (*r)@ as u32 == bits::with_field32(old(self)@ as u32, 4, 3, value as u32),
            *final(self) == *final(r),
    {
        proof {
            bits::lemma_mask32_values();
            bits::lemma_16bit_writes_stay_16bit(self.0 as u32, 0, true, 4, 3, value as u32);
        }
        self.0 = bits::set_bits_u32(self.0 as u32, 4, 3, value as u32) as u16;
        self
    }

    /// Returns the 64 bit address capable bit.
    pub fn bit64_address_capable(&self) -> (r: bool)
        ensures
            r == bits::bit32(self@ as u32, 7),
    {
        bits::get_bit_u32(self.0 as u32, 7)
    }

    /// Returns the Per-vector masking capable bit.
    pub fn per_vector_masking_capable(&self) -> (r: bool)
        ensures
            r == bits::bit32(self@ as u32, 8),
    {
        bits::get_bit_u32(self.0 as u32, 8)
    }
}

} // verus!
