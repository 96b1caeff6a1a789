//! Endpoint Context, as arrays of 8 or 16 Dwords.
use crate::bits;
use vstd::prelude::*;

verus! {

/// Endpoint Type.
#[derive(Copy, Clone, Debug, Ord, PartialOrd, Eq, PartialEq, Structural, Hash)]
pub enum Type {
    /// Not Valid N/A
    NotValid,
    /// Isoch Out.
    IsochronousOut,
    /// Bulk Out.
    BulkOut,
    /// Interrupt Out.
    InterruptOut,
    /// Control Bidirectional.
    Control,
    /// Isoch In.
    IsochronousIn,
    /// Bulk In.
    BulkIn,
    /// Interrupt In.
    InterruptIn,
}

impl Type {
    /// The values of the Endpoint Type (EP Type) field are those of the Endpoint Context in the
    /// xHCI specification: each variant is encoded as its number, each number decodes to its
    /// variant, and no other number decodes to a variant.
    pub proof fn lemma_numbers()
        ensures
            Type::NotValid.encoding() == 0,
            Type::IsochronousOut.encoding() == 1,
            Type::BulkOut.encoding() == 2,
            Type::InterruptOut.encoding() == 3,
            Type::Control.encoding() == 4,
            Type::IsochronousIn.encoding() == 5,
            Type::BulkIn.encoding() == 6,
            Type::InterruptIn.encoding() == 7,
            Type::decode(0) == Some(Type::NotValid),
            Type::decode(1) == Some(Type::IsochronousOut),
            Type::decode(2) == Some(Type::BulkOut),
            Type::decode(3) == Some(Type::InterruptOut),
            Type::decode(4) == Some(Type::Control),
            Type::decode(5) == Some(Type::IsochronousIn),
            Type::decode(6) == Some(Type::BulkIn),
            Type::decode(7) == Some(Type::InterruptIn),
            forall|v: u32|
                #[trigger] Type::decode(v) is Some ==> (
                    v == 0 || v == 1 || v == 2 || v == 3 || v == 4 || v == 5 || v == 6 || v == 7
                ),
    {
    }

    /// The number that encodes this value in its field.
    pub open spec fn encoding(self) -> u32 {
        match self {
            Type::NotValid => 0,
            Type::IsochronousOut => 1,
            Type::BulkOut => 2,
            Type::InterruptOut => 3,
            Type::Control => 4,
            Type::IsochronousIn => 5,
            Type::BulkIn => 6,
            Type::InterruptIn => 7,
        }
    }

    /// The value that the number `v` encodes, if it encodes one.
    pub open spec fn decode(v: u32) -> Option<Type> {
        if v == 0 {
            Some(Type::NotValid)
        } else if v == 1 {
            Some(Type::IsochronousOut)
        } else if v == 2 {
            Some(Type::BulkOut)
        } else if v == 3 {
            Some(Type::InterruptOut)
        } else if v == 4 {
            Some(Type::Control)
        } else if v == 5 {
            Some(Type::IsochronousIn)
        } else if v == 6 {
            Some(Type::BulkIn)
        } else if v == 7 {
            Some(Type::InterruptIn)
        } else {
            None
        }
    }

    /// Returns the number that encodes this value.
    pub fn to_u32(self) -> (r: u32)
        ensures
            r == self.encoding(),
    {
        match self {
            Type::NotValid => 0,
            Type::IsochronousOut => 1,
            Type::BulkOut => 2,
            Type::InterruptOut => 3,
            Type::Control => 4,
            Type::IsochronousIn => 5,
            Type::BulkIn => 6,
            Type::InterruptIn => 7,
        }
    }

    /// Returns the value that `v` encodes, or `None` if `v` is a reserved number.
    pub fn from_u32(v: u32) -> (r: Option<Self>)
        ensures
            r == Self::decode(v),
    {
        if v == 0 {
            Some(Type::NotValid)
        } else if v == 1 {
            Some(Type::IsochronousOut)
        } else if v == 2 {
            Some(Type::BulkOut)
        } else if v == 3 {
            Some(Type::InterruptOut)
        } else if v == 4 {
            Some(Type::Control)
        } else if v == 5 {
            Some(Type::IsochronousIn)
        } else if v == 6 {
            Some(Type::BulkIn)
        } else if v == 7 {
            Some(Type::InterruptIn)
        } else {
            None
        }
    }

    /// Decoding the number that encodes a value gives that value back.
    pub proof fn lemma_decode_encoding(self)
        ensures
            Self::decode(self.encoding()) == Some(self),
    {
    }
}

/// 32 byte version of the Endpoint Context.
#[derive(Copy, Clone, Debug, Ord, PartialOrd, Eq, PartialEq, Hash)]
pub struct Byte32([u32; 8]);

impl View for Byte32 {
    type V = Seq<u32>;

    closed spec fn view(&self) -> Seq<u32> {
        self.0@
    }
}

impl Default for Byte32 {
    fn default() -> (r: Self)
        ensures
            r@ == Seq::new(8, |i: int| 0u32),
    {
        Self::new()
    }
}

impl Byte32 {
    /// Creates a null Endpoint Context.
    pub fn new() -> (r: Self)
        ensures
            r@ == Seq::new(8, |i: int| 0u32),
    {
        let r = Self([0; 8]);
        assert(r@ =~= Seq::new(8, |i: int| 0u32));
        r
    }

    /// Converts an array into the Endpoint Context.
    pub fn from_raw(raw: [u32; 8]) -> (r: Self)
        ensures
            r@ == raw@,
    {
        Self(raw)
    }

    /// Converts the Endpoint Context into an array.
    pub fn into_32byte(self) -> (r: [u32; 8])
        ensures
            r@ == self@,
    {
        self.0
    }

    /// Sets the value of the Mult field.
    ///
    /// The value must fit in the 2 bits of the field.
    pub fn set_mult(&mut self, m: u8) -> (r: &mut Self)
        requires
            m < 4,
        ensures
            (*r)@ == old(self)@.update(0, bits::with_field32(old(self)@[0], 8, 2, m as u32)),
            *final(self) == *final(r),
    {
        proof {
            bits::lemma_mask32_values();
        }
        self.0[0] = bits::set_bits_u32(self.0[0], 8, 2, m as u32);
        self
    }

    /// Sets the value of the Max Primary Streams field.
    ///
    /// The value must fit in the 5 bits of the field.
    pub fn set_max_primary_streams(&mut self, s: u8) -> (r: &mut Self)
        requires
            s < 32,
        ensures
            (*r)@ == old(self)@.update(0, bits::with_field32(old(self)@[0], 10, 5, s as u32)),
            *final(self) == *final(r),
    {
        proof {
            bits::lemma_mask32_values();
        }
        self.0[0] = bits::set_bits_u32(self.0[0], 10, 5, s as u32);
        self
    }

    /// Sets the value of the Interval field.
    pub fn set_interval(&mut self, i: u8) -> (r: &mut Self)
        ensures
            (*r)@ == old(self)@.update(0, bits::with_field32(old(self)@[0], 16, 8, i as u32)),
            *final(self) == *final(r),
    {
        proof {
            bits::lemma_mask32_values();
        }
        self.0[0] = bits::set_bits_u32(self.0[0], 16, 8, i as u32);
        self
    }

    /// Sets the value of the Error Count field.
    ///
    /// The value must fit in the 2 bits of the field.
    pub fn set_error_count(&mut self, c: u8) -> (r: &mut Self)
        requires
            c < 4,
        ensures
            (*r)@ == old(self)@.update(1, bits::with_field32(old(self)@[1], 1, 2, c as u32)),
            *final(self) == *final(r),
    {
        proof {
            bits::lemma_mask32_values();
        }
        self.0[1] = bits::set_bits_u32(self.0[1], 1, 2, c as u32);
        self
    }

    /// Sets the type of the Endpoint.
    pub fn set_endpoint_type(&mut self, t: Type) -> (r: &mut Self)
        ensures
            (*r)@ == old(self)@.update(1, bits::with_field32(old(self)@[1], 3, 3, t.encoding())),
            *final(self) == *final(r),
    {
        proof {
            bits::lemma_mask32_values();
        }
        self.0[1] = bits::set_bits_u32(self.0[1], 3, 3, t.to_u32());
        self
    }

    /// Sets the value of the Max Burst Size field.
    ///
    /// The valid values of the Max Burst Size field are `0..=15`.
    pub fn set_max_burst_size(&mut self, s: u8) -> (r: &mut Self)
        requires
            s <= 15,
        ensures
            (*r)@ == old(self)@.update(1, bits::with_field32(old(self)@[1], 8, 8, s as u32)),
            *final(self) == *final(r),
    {
        proof {
            bits::lemma_mask32_values();
        }
        self.0[1] = bits::set_bits_u32(self.0[1], 8, 8, s as u32);
        self
    }

    /// Sets the value of the Max Packet Size field.
    pub fn set_max_packet_size(&mut self, s: u16) -> (r: &mut Self)
        ensures
            (*r)@ == old(self)@.update(1, bits::with_field32(old(self)@[1], 16, 16, s as u32)),
            *final(self) == *final(r),
    {
        proof {
            bits::lemma_mask32_values();
        }
        self.0[1] = bits::set_bits_u32(self.0[1], 16, 16, s as u32);
        self
    }

    /// Sets the value of the Dequeue Cycle State bit.
    pub fn set_dequeue_cycle_state(&mut self, c: bool) -> (r: &mut Self)
        ensures
            (*r)@ == old(self)@.update(2, bits::with_bit32(old(self)@[2], 0, c)),
            *final(self) == *final(r),
    {
        self.0[2] = bits::set_bit_u32(self.0[2], 0, c);
        self
    }

    /// Sets the value of the Transfer Ring Dequeue pointer field.
    ///
    /// The pointer must be 16 byte aligned. The Dequeue Cycle State bit keeps its value.
    pub fn set_transfer_ring_dequeue_pointer(&mut self, p: u64) -> (r: &mut Self)
        requires
            p % 16 == 0,
        ensures
            (*r)@ == old(self)@.update(2, bits::low32(p) | (if bits::bit32(old(self)@[2], 0) {
                1u32
            } else {
                0u32
            })).update(3, bits::high32(p)),
            *final(self) == *final(r),
    {
        let l: u32 = bits::low_half(p);
        let u: u32 = bits::high_half(p);
        let c: u32 = if bits::get_bit_u32(self.0[2], 0) {
            1
        } else {
            0
        };

        self.0[2] = l | c;
        self.0[3] = u;
        self
    }
}

/// 64 byte version of the Endpoint Context.
#[derive(Copy, Clone, Debug, Ord, PartialOrd, Eq, PartialEq, Hash)]
pub struct Byte64([u32; 16]);

impl View for Byte64 {
    type V = Seq<u32>;

    closed spec fn view(&self) -> Seq<u32> {
        self.0@
    }
}

impl Default for Byte64 {
    fn default() -> (r: Self)
        ensures
            r@ == Seq::new(16, |i: int| 0u32),
    {
        Self::new()
    }
}

impl Byte64 {
    /// Creates a null Endpoint Context.
    pub fn new() -> (r: Self)
        ensures
            r@ == Seq::new(16, |i: int| 0u32),
    {
        let r = Self([0; 16]);
        assert(r@ =~= Seq::new(16, |i: int| 0u32));
        r
    }

    /// Converts an array into the Endpoint Context.
    pub fn from_raw(raw: [u32; 16]) -> (r: Self)
        ensures
            r@ == raw@,
    {
        Self(raw)
    }

    /// Converts the Endpoint Context into an array.
    pub fn into_64byte(self) -> (r: [u32; 16])
        ensures
            r@ == self@,
    {
        self.0
    }

    /// Sets the value of the Mult field.
    ///
    /// The value must fit in the 2 bits of the field.
    pub fn set_mult(&mut self, m: u8) -> (r: &mut Self)
        requires
            m < 4,
        ensures
            (*r)@ == old(self)@.update(0, bits::with_field32(old(self)@[0], 8, 2, m as u32)),
            *final(self) == *final(r),
    {
        proof {
            bits::lemma_mask32_values();
        }
        self.0[0] = bits::set_bits_u32(self.0[0], 8, 2, m as u32);
        self
    }

    /// Sets the value of the Max Primary Streams field.
    ///
    /// The value must fit in the 5 bits of the field.
    pub fn set_max_primary_streams(&mut self, s: u8) -> (r: &mut Self)
        requires
            s < 32,
        ensures
            (*r)@ == old(self)@.update(0, bits::with_field32(old(self)@[0], 10, 5, s as u32)),
            *final(self) == *final(r),
    {
        proof {
            bits::lemma_mask32_values();
        }
        self.0[0] = bits::set_bits_u32(self.0[0], 10, 5, s as u32);
        self
    }

    /// Sets the value of the Interval field.
    pub fn set_interval(&mut self, i: u8) -> (r: &mut Self)
        ensures
            (*r)@ == old(self)@.update(0, bits::with_field32(old(self)@[0], 16, 8, i as u32)),
            *final(self) == *final(r),
    {
        proof {
            bits::lemma_mask32_values();
        }
        self.0[0] = bits::set_bits_u32(self.0[0], 16, 8, i as u32);
        self
    }

    /// Sets the value of the Error Count field.
    ///
    /// The value must fit in the 2 bits of the field.
    pub fn set_error_count(&mut self, c: u8) -> (r: &mut Self)
        requires
            c < 4,
        ensures
            (*r)@ == old(self)@.update(1, bits::with_field32(old(self)@[1], 1, 2, c as u32)),
            *final(self) == *final(r),
    {
        proof {
            bits::lemma_mask32_values();
        }
        self.0[1] = bits::set_bits_u32(self.0[1], 1, 2, c as u32);
        self
    }

    /// Sets the type of the Endpoint.
    pub fn set_endpoint_type(&mut self, t: Type) -> (r: &mut Self)
        ensures
            (*r)@ == old(self)@.update(1, bits::with_field32(old(self)@[1], 3, 3, t.encoding())),
            *final(self) == *final(r),
    {
        proof {
            bits::lemma_mask32_values();
        }
        self.0[1] = bits::set_bits_u32(self.0[1], 3, 3, t.to_u32());
        self
    }

    /// Sets the value of the Max Burst Size field.
    ///
    /// The valid values of the Max Burst Size field are `0..=15`.
    pub fn set_max_burst_size(&mut self, s: u8) -> (r: &mut Self)
        requires
            s <= 15,
        ensures
            (*r)@ == old(self)@.update(1, bits::with_field32(old(self)@[1], 8, 8, s as u32)),
            *final(self) == *final(r),
    {
        proof {
            bits::lemma_mask32_values();
        }
        self.0[1] = bits::set_bits_u32(self.0[1], 8, 8, s as u32);
        self
    }

    /// Sets the value of the Max Packet Size field.
    pub fn set_max_packet_size(&mut self, s: u16) -> (r: &mut Self)
        ensures
            (*r)@ == old(self)@.update(1, bits::with_field32(old(self)@[1], 16, 16, s as u32)),
            *final(self) == *final(r),
    {
        proof {
            bits::lemma_mask32_values();
        }
        self.0[1] = bits::set_bits_u32(self.0[1], 16, 16, s as u32);
        self
    }

    /// Sets the value of the Dequeue Cycle State bit.
    pub fn set_dequeue_cycle_state(&mut self, c: bool) -> (r: &mut Self)
        ensures
            (*r)@ == old(self)@.update(2, bits::with_bit32(old(self)@[2], 0, c)),
            *final(self) == *final(r),
    {
        self.0[2] = bits::set_bit_u32(self.0[2], 0, c);
        self
    }

    /// Sets the value of the Transfer Ring Dequeue pointer field.
    ///
    /// The pointer must be 16 byte aligned. The Dequeue Cycle State bit keeps its value.
    pub fn set_transfer_ring_dequeue_pointer(&mut self, p: u64) -> (r: &mut Self)
        requires
            p % 16 == 0,
        ensures
            (*r)@ == old(self)@.update(2, bits::low32(p) | (if bits::bit32(old(self)@[2], 0) {
                1u32
            } else {
                0u32
            })).update(3, bits::high32(p)),
            *final(self) == *final(r),
    {
        let l: u32 = bits::low_half(p);
        let u: u32 = bits::high_half(p);
        let c: u32 = if bits::get_bit_u32(self.0[2], 0) {
            1
        } else {
            0
        };

        self.0[2] = l | c;
        self.0[3] = u;
        self
    }
}

} // verus!
