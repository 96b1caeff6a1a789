//! Slot Context, as an array of 8 Dwords.
use crate::bits;
use vstd::prelude::*;

verus! {

/// Slot Context.
#[derive(Copy, Clone, Debug, Ord, PartialOrd, Eq, PartialEq, Hash)]
pub struct Slot([u32; 8]);

impl View for Slot {
    type V = Seq<u32>;

    closed spec fn view(&self) -> Seq<u32> {
        self.0@
    }
}

impl Default for Slot {
    fn default() -> (r: Self)
        ensures
            r@ == Seq::new(8, |i: int| 0u32),
    {
        Self::new()
    }
}

impl Slot {
    /// Creates a null Slot Context.
    pub fn new() -> (r: Self)
        ensures
            r@ == Seq::new(8, |i: int| 0u32),
    {
        let r = Self([0; 8]);
        assert(r@ =~= Seq::new(8, |i: int| 0u32));
        r
    }

    /// Converts an array of a 32 byte context into a [`Slot`].
    pub fn from_32byte(raw: [u32; 8]) -> (r: Self)
        ensures
            r@ == raw@,
    {
        Self(raw)
    }

    /// Converts an array of a 64 byte context into a [`Slot`], keeping its first 8 Dwords.
    pub fn from_64byte(raw: [u32; 16]) -> (r: Self)
        ensures
            r@ == raw@.subrange(0, 8),
    {
        let r = Self([raw[0], raw[1], raw[2], raw[3], raw[4], raw[5], raw[6], raw[7]]);
        assert(r@ =~= raw@.subrange(0, 8));
        r
    }

    /// Converts [`Slot`] into an array.
    ///
    /// Use this method if the Context Size bit of the HCCPARAMS1 register is 0.
    pub fn into_32byte(self) -> (r: [u32; 8])
        ensures
            r@ == self@,
    {
        self.0
    }

    /// Converts [`Slot`] into an array.
    ///
    /// Use this method if the Context Size bit of the HCCPARAMS1 register is 1. The last 8
    /// Dwords are 0.
    pub fn into_64byte(self) -> (r: [u32; 16])
        ensures
            r@ == self@ + Seq::new(8, |i: int| 0u32),
    {
        let r = [
            self.0[0],
            self.0[1],
            self.0[2],
            self.0[3],
            self.0[4],
            self.0[5],
            self.0[6],
            self.0[7],
            0,
            0,
            0,
            0,
            0,
            0,
            0,
            0,
        ];
        assert(r@ =~= self@ + Seq::new(8, |i: int| 0u32));
        r
    }

    /// Sets the value of the Context Entries field.
    ///
    /// The value must fit in the 5 bits of the field.
    pub fn set_context_entries(&mut self, e: u8) -> (r: &mut Self)
        requires
            e < 32,
        ensures
            (*r)@ == old(self)@.update(0, bits::with_field32(old(self)@[0], 27, 5, e as u32)),
            *final(self) == *final(r),
    {
        proof {
            bits::lemma_mask32_values();
        }
        self.0[0] = bits::set_bits_u32(self.0[0], 27, 5, e as u32);
        self
    }

    /// Sets the value of the Root Hub Port Number field.
    ///
    /// The field is bits 16 to 23 of the second Dword.
    pub fn set_root_hub_port_number(&mut self, n: u8) -> (r: &mut Self)
        ensures
            (*r)@ == old(self)@.update(1, bits::with_field32(old(self)@[1], 16, 8, n as u32)),
            *final(self) == *final(r),
    {
        proof {
            bits::lemma_mask32_values();
        }
        self.0[1] = bits::set_bits_u32(self.0[1], 16, 8, n as u32);
        self
    }
}

} // verus!
