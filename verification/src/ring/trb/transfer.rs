//! Transfer TRBs.
use crate::bits;
use vstd::prelude::*;

verus! {

/// Transfer Type.
#[derive(Copy, Clone, PartialEq, Eq, Structural, PartialOrd, Ord, Hash, Debug)]
pub enum TransferType {
    /// No Data Stage.
    No,
    /// Out Data Stage.
    Out,
    /// In Data Stage.
    In,
}

impl TransferType {
    /// The values of the Transfer Type (TRT) field are those of the Setup Stage TRB in the xHCI
    /// specification: each variant is encoded as its number, each number decodes to its variant,
    /// and no other number decodes to a variant.
    pub proof fn lemma_numbers()
        ensures
            TransferType::No.encoding() == 0,
            TransferType::Out.encoding() == 2,
            TransferType::In.encoding() == 3,
            TransferType::decode(0) == Some(TransferType::No),
            TransferType::decode(2) == Some(TransferType::Out),
            TransferType::decode(3) == Some(TransferType::In),
            forall|v: u32|
                #[trigger] TransferType::decode(v) is Some ==> (
                    v == 0 || v == 2 || v == 3
                ),
    {
    }

    /// The number that encodes this value in its field.
    pub open spec fn encoding(self) -> u32 {
        match self {
            TransferType::No => 0,
            TransferType::Out => 2,
            TransferType::In => 3,
        }
    }

    /// The value that the number `v` encodes, if it encodes one.
    pub open spec fn decode(v: u32) -> Option<TransferType> {
        if v == 0 {
            Some(TransferType::No)
        } else if v == 2 {
            Some(TransferType::Out)
        } else if v == 3 {
            Some(TransferType::In)
        } else {
            None
        }
    }

    /// Returns the number that encodes this value.
    pub fn to_u32(self) -> (r: u32)
        ensures
            r == self.encoding(),
    {
        match self {
            TransferType::No => 0,
            TransferType::Out => 2,
            TransferType::In => 3,
        }
    }

    /// Returns the value that `v` encodes, or `None` if `v` is a reserved number.
    pub fn from_u32(v: u32) -> (r: Option<Self>)
        ensures
            r == Self::decode(v),
    {
        if v == 0 {
            Some(TransferType::No)
        } else if v == 2 {
            Some(TransferType::Out)
        } else if v == 3 {
            Some(TransferType::In)
        } else {
            None
        }
    }

    /// Decoding the number that encodes a value gives that value back.
    pub proof fn lemma_decode_encoding(self)
        ensures
            Self::decode(self.encoding()) == Some(self),
    {
    }
}

/// Allowed TRB Type for Transfer TRB.
#[derive(Copy, Clone, PartialEq, Eq, Structural, PartialOrd, Ord, Hash, Debug)]
pub enum AllowedType {
    /// Normal TRB, 1
    Normal,
    /// Setup Stage TRB, 2
    SetupStage,
    /// Data Stage TRB, 3
    DataStage,
    /// Status Stage TRB, 4
    StatusStage,
    /// Isoch TRB, 5
    Isoch,
    /// Link TRB, 6
    Link,
    /// Event Data TRB, 7
    EventData,
    /// No Op Transfer TRB, 8
    NoOp,
}

impl AllowedType {
    /// The TRB Types are numbered as in Table 6-91 of the xHCI specification: each variant is
    /// encoded as its number, each number decodes to its variant, and no other number decodes to a
    /// variant.
    pub proof fn lemma_numbers()
        ensures
            AllowedType::Normal.encoding() == 1,
            AllowedType::SetupStage.encoding() == 2,
            AllowedType::DataStage.encoding() == 3,
            AllowedType::StatusStage.encoding() == 4,
            AllowedType::Isoch.encoding() == 5,
            AllowedType::Link.encoding() == 6,
            AllowedType::EventData.encoding() == 7,
            AllowedType::NoOp.encoding() == 8,
            AllowedType::decode(1) == Some(AllowedType::Normal),
            AllowedType::decode(2) == Some(AllowedType::SetupStage),
            AllowedType::decode(3) == Some(AllowedType::DataStage),
            AllowedType::decode(4) == Some(AllowedType::StatusStage),
            AllowedType::decode(5) == Some(AllowedType::Isoch),
            AllowedType::decode(6) == Some(AllowedType::Link),
            AllowedType::decode(7) == Some(AllowedType::EventData),
            AllowedType::decode(8) == Some(AllowedType::NoOp),
            forall|v: u32|
                #[trigger] AllowedType::decode(v) is Some ==> (
                    v == 1 || v == 2 || v == 3 || v == 4 || v == 5 || v == 6 || v == 7 || v == 8
                ),
    {
    }

    /// The number that encodes this value in its field.
    pub open spec fn encoding(self) -> u32 {
        match self {
            AllowedType::Normal => 1,
            AllowedType::SetupStage => 2,
            AllowedType::DataStage => 3,
            AllowedType::StatusStage => 4,
            AllowedType::Isoch => 5,
            AllowedType::Link => 6,
            AllowedType::EventData => 7,
            AllowedType::NoOp => 8,
        }
    }

    /// The value that the number `v` encodes, if it encodes one.
    pub open spec fn decode(v: u32) -> Option<AllowedType> {
        if v == 1 {
            Some(AllowedType::Normal)
        } else if v == 2 {
            Some(AllowedType::SetupStage)
        } else if v == 3 {
            Some(AllowedType::DataStage)
        } else if v == 4 {
            Some(AllowedType::StatusStage)
        } else if v == 5 {
            Some(AllowedType::Isoch)
        } else if v == 6 {
            Some(AllowedType::Link)
        } else if v == 7 {
            Some(AllowedType::EventData)
        } else if v == 8 {
            Some(AllowedType::NoOp)
        } else {
            None
        }
    }

    /// Returns the number that encodes this value.
    pub fn to_u32(self) -> (r: u32)
        ensures
            r == self.encoding(),
    {
        match self {
            AllowedType::Normal => 1,
            AllowedType::SetupStage => 2,
            AllowedType::DataStage => 3,
            AllowedType::StatusStage => 4,
            AllowedType::Isoch => 5,
            AllowedType::Link => 6,
            AllowedType::EventData => 7,
            AllowedType::NoOp => 8,
        }
    }

    /// Returns the value that `v` encodes, or `None` if `v` is a reserved number.
    pub fn from_u32(v: u32) -> (r: Option<Self>)
        ensures
            r == Self::decode(v),
    {
        if v == 1 {
            Some(AllowedType::Normal)
        } else if v == 2 {
            Some(AllowedType::SetupStage)
        } else if v == 3 {
            Some(AllowedType::DataStage)
        } else if v == 4 {
            Some(AllowedType::StatusStage)
        } else if v == 5 {
            Some(AllowedType::Isoch)
        } else if v == 6 {
            Some(AllowedType::Link)
        } else if v == 7 {
            Some(AllowedType::EventData)
        } else if v == 8 {
            Some(AllowedType::NoOp)
        } else {
            None
        }
    }

    /// Decoding the number that encodes a value gives that value back.
    pub proof fn lemma_decode_encoding(self)
        ensures
            Self::decode(self.encoding()) == Some(self),
    {
    }
}

/// A raw Transfer TRB Block.
#[derive(Clone, Copy, Debug, PartialEq, Eq, Default, Hash)]
pub struct TRB([u32; 4]);

impl View for TRB {
    type V = Seq<u32>;

    closed spec fn view(&self) -> Seq<u32> {
        self.0@
    }
}

impl TRB {
    /// Wraps the four raw Dwords of a TRB.
    pub fn from_raw(raw: [u32; 4]) -> (r: Self)
        ensures
            r@ == raw@,
    {
        Self(raw)
    }

    /// Returns the four raw Dwords of the TRB.
    pub fn into_raw(self) -> (r: [u32; 4])
        ensures
            r@ == self@,
    {
        self.0
    }

    pub(crate) fn new(ty: AllowedType) -> (r: Self)
        ensures
            r@ == seq![0u32, 0u32, 0u32, bits::with_field32(0, 10, 6, ty.encoding())],
    {
        let mut t = Self([0; 4]);
        t.set_trb_type(ty);
        assert(t@ =~= seq![0u32, 0u32, 0u32, bits::with_field32(0, 10, 6, ty.encoding())]);
        t
    }

    /// Returns the TRB Type, or `None` if the TRB Type field holds a value that is not
    /// allowed for Transfer TRBs.
    pub(crate) fn trb_type(&self) -> (r: Option<AllowedType>)
        ensures
            r == AllowedType::decode(bits::field32(self@[3], 10, 6)),
    {
        AllowedType::from_u32(bits::get_bits_u32(self.0[3], 10, 6))
    }

    fn set_trb_type(&mut self, ty: AllowedType) -> (r: &mut Self)
        ensures
            (*r)@ == old(self)@.update(3, bits::with_field32(old(self)@[3], 10, 6, ty.encoding())),
            *final(self) == *final(r),
    {
        proof {
            bits::lemma_mask32_values();
        }
        self.0[3] = bits::set_bits_u32(self.0[3], 10, 6, ty.to_u32());
        self
    }

    /// Returns the Cycle bit.
    pub fn cycle_bit(&self) -> (r: bool)
        ensures
            r == bits::bit32(self@[3], 0),
    {
        bits::get_bit_u32(self.0[3], 0)
    }

    /// Sets the Cycle bit.
    pub fn set_cycle_bit(&mut self) -> (r: &mut Self)
        ensures
            (*r)@ == old(self)@.update(3, bits::with_bit32(old(self)@[3], 0, true)),
            *final(self) == *final(r),
    {
        self.0[3] = bits::set_bit_u32(self.0[3], 0, true);
        self
    }

    /// Clears the Cycle bit.
    pub fn clear_cycle_bit(&mut self) -> (r: &mut Self)
        ensures
            (*r)@ == old(self)@.update(3, bits::with_bit32(old(self)@[3], 0, false)),
            *final(self) == *final(r),
    {
        self.0[3] = bits::set_bit_u32(self.0[3], 0, false);
        self
    }

    /// Returns the Chain bit.
    pub fn chain_bit(&self) -> (r: bool)
        ensures
            r == bits::bit32(self@[3], 4),
    {
        bits::get_bit_u32(self.0[3], 4)
    }
}

/// A Normal TRB.
#[derive(Clone, Copy, Debug, PartialEq, Eq, Hash)]
pub struct Normal(TRB);

impl View for Normal {
    type V = Seq<u32>;

    closed spec fn view(&self) -> Seq<u32> {
        self.0@
    }
}

impl Normal {
    /// Whether `raw` is a Normal TRB: its TRB Type is 1 and its RsvdZ fields are 0.
    pub open spec fn valid(raw: Seq<u32>) -> bool {
        &&& bits::field32(raw[3], 10, 6) == 1
        &&& bits::field32(raw[3], 7, 2) == 0
        &&& bits::field32(raw[3], 16, 16) == 0
    }

    /// Every Normal TRB passes its own check: `valid` holds of its Dwords.
    #[verifier::type_invariant]
    spec fn is_accepted(&self) -> bool {
        Self::valid(self@)
    }

    /// Creates a new Normal TRB.
    ///
    /// This method sets the value of the TRB Type field properly. All the other fields are set
    /// to 0.
    pub fn new() -> (r: Self)
        ensures
            r@ == seq![0u32, 0u32, 0u32, bits::with_field32(0, 10, 6, 1)],
            Self::valid(r@),
    {
        proof {
            bits::lemma_mask32_values();
            bits::lemma_field32_with_field32_same(0, 10, 6, 1);
            bits::lemma_field32_with_field32_other(0, 10, 6, 1, 7, 2);
            bits::lemma_field32_of_zero(7, 2);
            bits::lemma_field32_with_field32_other(0, 10, 6, 1, 16, 16);
            bits::lemma_field32_of_zero(16, 16);
        }
        Self(TRB::new(AllowedType::Normal))
    }

    /// Converts a TRB into a Normal TRB.
    ///
    /// # Errors
    ///
    /// This method returns the given TRB if its TRB Type is not that of a Normal TRB, or if one of
    /// its RsvdZ fields is not 0.
    pub fn try_from(block: TRB) -> (r: Result<Self, TRB>)
        ensures
            r is Ok <==> Self::valid(block@),
            r matches Ok(t) ==> t@ == block@,
            r matches Err(b) ==> b == block,
    {
        proof {
            bits::lemma_mask32_values();
        }
        match block.trb_type() {
            Some(AllowedType::Normal) => {},
            _ => {
                return Err(block);
            },
        }
        if bits::get_bits_u32(block.0[3], 7, 2) != 0
            || bits::get_bits_u32(block.0[3], 16, 16) != 0
        {
            return Err(block);
        }
        Ok(Self(block))
    }

    /// Converts the Normal TRB into a raw TRB.
    pub fn into_trb(self) -> (r: TRB)
        ensures
            r@ == self@,
            Self::valid(r@),
    {
        proof {
            use_type_invariant(&self);
        }
        self.0
    }

    /// Returns the value of the Data Buffer Pointer field.
    pub fn data_buffer_pointer(&self) -> (r: u64)
        ensures
            r == bits::join64(self@[0], self@[1]),
    {
        let lo = self.0.0[0];
        let hi = self.0.0[1];

        bits::join_halves(lo, hi)
    }

    /// Sets the value of the Data Buffer Pointer field.
    pub fn set_data_buffer_pointer(&mut self, value: u64) -> (r: &mut Self)
        ensures
            (*r)@ == old(self)@.update(0, bits::low32(value)).update(1, bits::high32(value)),
            *final(self) == *final(r),
    {
        proof {
            use_type_invariant(&*self);
            bits::lemma_mask32_values();
        }
        let lo = bits::low_half(value);
        let hi = bits::high_half(value);

        self.0.0[0] = lo;
        self.0.0[1] = hi;
        self
    }

    /// Returns the value of the TRB Transfer Length field.
    pub fn trb_transfer_length(&self) -> (r: u32)
        ensures
            r == bits::field32(self@[2], 0, 17),
    {
        bits::get_bits_u32(self.0.0[2], 0, 17)
    }

    /// Sets the value of the TRB Transfer Length field.
    ///
    /// The value must fit in the 17 bits of the field.
    pub fn set_trb_transfer_length(&mut self, value: u32) -> (r: &mut Self)
        requires
            value < 131072,
        ensures
            (*r)@ == old(self)@.update(2, bits::with_field32(old(self)@[2], 0, 17, value)),
            *final(self) == *final(r),
    {
        proof {
            use_type_invariant(&*self);
            bits::lemma_mask32_values();
        }
        self.0.0[2] = bits::set_bits_u32(self.0.0[2], 0, 17, value);
        self
    }

    /// Returns the value of the TD Size field.
    pub fn td_size(&self) -> (r: u8)
        ensures
            r == bits::field32(self@[2], 17, 5),
    {
        proof {
            bits::lemma_mask32_values();
        }
        bits::get_bits_u32(self.0.0[2], 17, 5) as u8
    }

    /// Sets the value of the TD Size field.
    ///
    /// The value must fit in the 5 bits of the field.
    pub fn set_td_size(&mut self, value: u8) -> (r: &mut Self)
        requires
            value < 32,
        ensures
            (*r)@ == old(self)@.update(2, bits::with_field32(old(self)@[2], 17, 5, value as u32)),
            *final(self) == *final(r),
    {
        proof {
            use_type_invariant(&*self);
            bits::lemma_mask32_values();
        }
        self.0.0[2] = bits::set_bits_u32(self.0.0[2], 17, 5, value as u32);
        self
    }

    /// Returns the value of the Interrupter Target field.
    pub fn interrupter_target(&self) -> (r: u16)
        ensures
            r == bits::field32(self@[2], 22, 10),
    {
        proof {
            bits::lemma_mask32_values();
        }
        bits::get_bits_u32(self.0.0[2], 22, 10) as u16
    }

    /// Sets the value of the Interrupter Target field.
    ///
    /// The value must fit in the 10 bits of the field.
    pub fn set_interrupter_target(&mut self, value: u16) -> (r: &mut Self)
        requires
            value < 1024,
        ensures
            (*r)@ == old(self)@.update(2, bits::with_field32(old(self)@[2], 22, 10, value as u32)),
            *final(self) == *final(r),
    {
        proof {
            use_type_invariant(&*self);
            bits::lemma_mask32_values();
        }
        self.0.0[2] = bits::set_bits_u32(self.0.0[2], 22, 10, value as u32);
        self
    }

    /// Returns the Evaluate Next TRB bit.
    pub fn evaluate_next_trb(&self) -> (r: bool)
        ensures
            r == bits::bit32(self@[3], 1),
    {
        bits::get_bit_u32(self.0.0[3], 1)
    }

    /// Sets the Evaluate Next TRB bit.
    pub fn set_evaluate_next_trb(&mut self) -> (r: &mut Self)
        ensures
            (*r)@ == old(self)@.update(3, bits::with_bit32(old(self)@[3], 1, true)),
            *final(self) == *final(r),
    {
        proof {
            use_type_invariant(&*self);
            bits::lemma_mask32_values();
            bits::lemma_field32_with_bit32_other(old(self)@[3], 1, true, 10, 6);
            bits::lemma_field32_with_bit32_other(old(self)@[3], 1, true, 7, 2);
            bits::lemma_field32_with_bit32_other(old(self)@[3], 1, true, 16, 16);
        }
        self.0.0[3] = bits::set_bit_u32(self.0.0[3], 1, true);
        self
    }

    /// Clears the Evaluate Next TRB bit.
    pub fn clear_evaluate_next_trb(&mut self) -> (r: &mut Self)
        ensures
            (*r)@ == old(self)@.update(3, bits::with_bit32(old(self)@[3], 1, false)),
            *final(self) == *final(r),
    {
        proof {
            use_type_invariant(&*self);
            bits::lemma_mask32_values();
            bits::lemma_field32_with_bit32_other(old(self)@[3], 1, false, 10, 6);
            bits::lemma_field32_with_bit32_other(old(self)@[3], 1, false, 7, 2);
            bits::lemma_field32_with_bit32_other(old(self)@[3], 1, false, 16, 16);
        }
        self.0.0[3] = bits::set_bit_u32(self.0.0[3], 1, false);
        self
    }

    /// Returns the Interrupt on Short Packet bit.
    pub fn interrupt_on_short_packet(&self) -> (r: bool)
        ensures
            r == bits::bit32(self@[3], 2),
    {
        bits::get_bit_u32(self.0.0[3], 2)
    }

    /// Sets the Interrupt on Short Packet bit.
    pub fn set_interrupt_on_short_packet(&mut self) -> (r: &mut Self)
        ensures
            (*r)@ == old(self)@.update(3, bits::with_bit32(old(self)@[3], 2, true)),
            *final(self) == *final(r),
    {
        proof {
            use_type_invariant(&*self);
            bits::lemma_mask32_values();
            bits::lemma_field32_with_bit32_other(old(self)@[3], 2, true, 10, 6);
            bits::lemma_field32_with_bit32_other(old(self)@[3], 2, true, 7, 2);
            bits::lemma_field32_with_bit32_other(old(self)@[3], 2, true, 16, 16);
        }
        self.0.0[3] = bits::set_bit_u32(self.0.0[3], 2, true);
        self
    }

    /// Clears the Interrupt on Short Packet bit.
    pub fn clear_interrupt_on_short_packet(&mut self) -> (r: &mut Self)
        ensures
            (*r)@ == old(self)@.update(3, bits::with_bit32(old(self)@[3], 2, false)),
            *final(self) == *final(r),
    {
        proof {
            use_type_invariant(&*self);
            bits::lemma_mask32_values();
            bits::lemma_field32_with_bit32_other(old(self)@[3], 2, false, 10, 6);
            bits::lemma_field32_with_bit32_other(old(self)@[3], 2, false, 7, 2);
            bits::lemma_field32_with_bit32_other(old(self)@[3], 2, false, 16, 16);
        }
        self.0.0[3] = bits::set_bit_u32(self.0.0[3], 2, false);
        self
    }

    /// Returns the No Snoop bit.
    pub fn no_snoop(&self) -> (r: bool)
        ensures
            r == bits::bit32(self@[3], 3),
    {
        bits::get_bit_u32(self.0.0[3], 3)
    }

    /// Sets the No Snoop bit.
    pub fn set_no_snoop(&mut self) -> (r: &mut Self)
        ensures
            (*r)@ == old(self)@.update(3, bits::with_bit32(old(self)@[3], 3, true)),
            *final(self) == *final(r),
    {
        proof {
            use_type_invariant(&*self);
            bits::lemma_mask32_values();
            bits::lemma_field32_with_bit32_other(old(self)@[3], 3, true, 10, 6);
            bits::lemma_field32_with_bit32_other(old(self)@[3], 3, true, 7, 2);
            bits::lemma_field32_with_bit32_other(old(self)@[3], 3, true, 16, 16);
        }
        self.0.0[3] = bits::set_bit_u32(self.0.0[3], 3, true);
        self
    }

    /// Clears the No Snoop bit.
    pub fn clear_no_snoop(&mut self) -> (r: &mut Self)
        ensures
            (*r)@ == old(self)@.update(3, bits::with_bit32(old(self)@[3], 3, false)),
            *final(self) == *final(r),
    {
        proof {
            use_type_invariant(&*self);
            bits::lemma_mask32_values();
            bits::lemma_field32_with_bit32_other(old(self)@[3], 3, false, 10, 6);
            bits::lemma_field32_with_bit32_other(old(self)@[3], 3, false, 7, 2);
            bits::lemma_field32_with_bit32_other(old(self)@[3], 3, false, 16, 16);
        }
        self.0.0[3] = bits::set_bit_u32(self.0.0[3], 3, false);
        self
    }

    /// Returns the Chain bit.
    pub fn chain_bit(&self) -> (r: bool)
        ensures
            r == bits::bit32(self@[3], 4),
    {
        bits::get_bit_u32(self.0.0[3], 4)
    }

    /// Sets the Chain bit.
    pub fn set_chain_bit(&mut self) -> (r: &mut Self)
        ensures
            (*r)@ == old(self)@.update(3, bits::with_bit32(old(self)@[3], 4, true)),
            *final(self) == *final(r),
    {
        proof {
            use_type_invariant(&*self);
            bits::lemma_mask32_values();
            bits::lemma_field32_with_bit32_other(old(self)@[3], 4, true, 10, 6);
            bits::lemma_field32_with_bit32_other(old(self)@[3], 4, true, 7, 2);
            bits::lemma_field32_with_bit32_other(old(self)@[3], 4, true, 16, 16);
        }
        self.0.0[3] = bits::set_bit_u32(self.0.0[3], 4, true);
        self
    }

    /// Clears the Chain bit.
    pub fn clear_chain_bit(&mut self) -> (r: &mut Self)
        ensures
            (*r)@ == old(self)@.update(3, bits::with_bit32(old(self)@[3], 4, false)),
            *final(self) == *final(r),
    {
        proof {
            use_type_invariant(&*self);
            bits::lemma_mask32_values();
            bits::lemma_field32_with_bit32_other(old(self)@[3], 4, false, 10, 6);
            bits::lemma_field32_with_bit32_other(old(self)@[3], 4, false, 7, 2);
            bits::lemma_field32_with_bit32_other(old(self)@[3], 4, false, 16, 16);
        }
        self.0.0[3] = bits::set_bit_u32(self.0.0[3], 4, false);
        self
    }

    /// Returns the Interrupt On Completion bit.
    pub fn interrupt_on_completion(&self) -> (r: bool)
        ensures
            r == bits::bit32(self@[3], 5),
    {
        bits::get_bit_u32(self.0.0[3], 5)
    }

    /// Sets the Interrupt On Completion bit.
    pub fn set_interrupt_on_completion(&mut self) -> (r: &mut Self)
        ensures
            (*r)@ == old(self)@.update(3, bits::with_bit32(old(self)@[3], 5, true)),
            *final(self) == *final(r),
    {
        proof {
            use_type_invariant(&*self);
            bits::lemma_mask32_values();
            bits::lemma_field32_with_bit32_other(old(self)@[3], 5, true, 10, 6);
            bits::lemma_field32_with_bit32_other(old(self)@[3], 5, true, 7, 2);
            bits::lemma_field32_with_bit32_other(old(self)@[3], 5, true, 16, 16);
        }
        self.0.0[3] = bits::set_bit_u32(self.0.0[3], 5, true);
        self
    }

    /// Clears the Interrupt On Completion bit.
    pub fn clear_interrupt_on_completion(&mut self) -> (r: &mut Self)
        ensures
            (*r)@ == old(self)@.update(3, bits::with_bit32(old(self)@[3], 5, false)),
            *final(self) == *final(r),
    {
        proof {
            use_type_invariant(&*self);
            bits::lemma_mask32_values();
            bits::lemma_field32_with_bit32_other(old(self)@[3], 5, false, 10, 6);
            bits::lemma_field32_with_bit32_other(old(self)@[3], 5, false, 7, 2);
            bits::lemma_field32_with_bit32_other(old(self)@[3], 5, false, 16, 16);
        }
        self.0.0[3] = bits::set_bit_u32(self.0.0[3], 5, false);
        self
    }

    /// Returns the Immediate Data bit.
    pub fn immediate_data(&self) -> (r: bool)
        ensures
            r == bits::bit32(self@[3], 6),
    {
        bits::get_bit_u32(self.0.0[3], 6)
    }

    /// Sets the Immediate Data bit.
    pub fn set_immediate_data(&mut self) -> (r: &mut Self)
        ensures
            (*r)@ == old(self)@.update(3, bits::with_bit32(old(self)@[3], 6, true)),
            *final(self) == *final(r),
    {
        proof {
            use_type_invariant(&*self);
            bits::lemma_mask32_values();
            bits::lemma_field32_with_bit32_other(old(self)@[3], 6, true, 10, 6);
            bits::lemma_field32_with_bit32_other(old(self)@[3], 6, true, 7, 2);
            bits::lemma_field32_with_bit32_other(old(self)@[3], 6, true, 16, 16);
        }
        self.0.0[3] = bits::set_bit_u32(self.0.0[3], 6, true);
        self
    }

    /// Clears the Immediate Data bit.
    pub fn clear_immediate_data(&mut self) -> (r: &mut Self)
        ensures
            (*r)@ == old(self)@.update(3, bits::with_bit32(old(self)@[3], 6, false)),
            *final(self) == *final(r),
    {
        proof {
            use_type_invariant(&*self);
            bits::lemma_mask32_values();
            bits::lemma_field32_with_bit32_other(old(self)@[3], 6, false, 10, 6);
            bits::lemma_field32_with_bit32_other(old(self)@[3], 6, false, 7, 2);
            bits::lemma_field32_with_bit32_other(old(self)@[3], 6, false, 16, 16);
        }
        self.0.0[3] = bits::set_bit_u32(self.0.0[3], 6, false);
        self
    }

    /// Returns the Block Event Interrupt bit.
    pub fn block_event_interrupt(&self) -> (r: bool)
        ensures
            r == bits::bit32(self@[3], 9),
    {
        bits::get_bit_u32(self.0.0[3], 9)
    }

    /// Sets the Block Event Interrupt bit.
    pub fn set_block_event_interrupt(&mut self) -> (r: &mut Self)
        ensures
            (*r)@ == old(self)@.update(3, bits::with_bit32(old(self)@[3], 9, true)),
            *final(self) == *final(r),
    {
        proof {
            use_type_invariant(&*self);
            bits::lemma_mask32_values();
            bits::lemma_field32_with_bit32_other(old(self)@[3], 9, true, 10, 6);
            bits::lemma_field32_with_bit32_other(old(self)@[3], 9, true, 7, 2);
            bits::lemma_field32_with_bit32_other(old(self)@[3], 9, true, 16, 16);
        }
        self.0.0[3] = bits::set_bit_u32(self.0.0[3], 9, true);
        self
    }

    /// Clears the Block Event Interrupt bit.
    pub fn clear_block_event_interrupt(&mut self) -> (r: &mut Self)
        ensures
            (*r)@ == old(self)@.update(3, bits::with_bit32(old(self)@[3], 9, false)),
            *final(self) == *final(r),
    {
        proof {
            use_type_invariant(&*self);
            bits::lemma_mask32_values();
            bits::lemma_field32_with_bit32_other(old(self)@[3], 9, false, 10, 6);
            bits::lemma_field32_with_bit32_other(old(self)@[3], 9, false, 7, 2);
            bits::lemma_field32_with_bit32_other(old(self)@[3], 9, false, 16, 16);
        }
        self.0.0[3] = bits::set_bit_u32(self.0.0[3], 9, false);
        self
    }
}

impl Default for Normal {
    fn default() -> (r: Self)
        ensures
            r@ == seq![0u32, 0u32, 0u32, bits::with_field32(0, 10, 6, 1)],
    {
        Self::new()
    }
}

/// A Setup Stage TRB.
#[derive(Clone, Copy, Debug, PartialEq, Eq, Hash)]
pub struct SetupStage(TRB);

impl View for SetupStage {
    type V = Seq<u32>;

    closed spec fn view(&self) -> Seq<u32> {
        self.0@
    }
}

impl SetupStage {
    /// Whether `raw` is a Setup Stage TRB: its TRB Type is 2 and its RsvdZ fields are 0.
    pub open spec fn valid(raw: Seq<u32>) -> bool {
        &&& bits::field32(raw[3], 10, 6) == 2
        &&& bits::field32(raw[2], 17, 5) == 0
        &&& bits::field32(raw[3], 1, 4) == 0
        &&& bits::field32(raw[3], 7, 3) == 0
        &&& bits::field32(raw[3], 18, 14) == 0
    }

    /// Every Setup Stage TRB passes its own check: `valid` holds of its Dwords.
    #[verifier::type_invariant]
    spec fn is_accepted(&self) -> bool {
        Self::valid(self@)
    }

    /// Creates a new Setup Stage TRB.
    ///
    /// This method sets the value of the TRB Type, TRB Transfer Length, and the Immediate Data
    /// field properly. All the other fields are set to 0.
    pub fn new() -> (r: Self)
        ensures
            r@ == seq![
                0u32,
                0u32,
                bits::with_field32(0, 0, 17, 8),
                bits::with_bit32(bits::with_field32(0, 10, 6, 2), 6, true),
            ],
            Self::valid(r@),
    {
        proof {
            bits::lemma_mask32_values();
            bits::lemma_field32_with_field32_same(0, 10, 6, 2);
            bits::lemma_field32_with_bit32_other(bits::with_field32(0, 10, 6, 2), 6, true, 10, 6);
            bits::lemma_field32_with_field32_other(0, 0, 17, 8, 17, 5);
            bits::lemma_field32_of_zero(17, 5);
            bits::lemma_field32_of_zero(1, 4);
            bits::lemma_field32_of_zero(7, 3);
            bits::lemma_field32_of_zero(18, 14);
            bits::lemma_field32_with_field32_other(0, 10, 6, 2, 1, 4);
            bits::lemma_field32_with_field32_other(0, 10, 6, 2, 7, 3);
            bits::lemma_field32_with_field32_other(0, 10, 6, 2, 18, 14);
            bits::lemma_field32_with_bit32_other(bits::with_field32(0, 10, 6, 2), 6, true, 1, 4);
            bits::lemma_field32_with_bit32_other(bits::with_field32(0, 10, 6, 2), 6, true, 7, 3);
            bits::lemma_field32_with_bit32_other(bits::with_field32(0, 10, 6, 2), 6, true, 18, 14);
        }
        let mut t = Self(TRB::new(AllowedType::SetupStage));
        t.set_immediate_data();
        t.set_trb_transfer_length(8);
        t
    }

    /// Converts a TRB into a Setup Stage TRB.
    ///
    /// # Errors
    ///
    /// This method returns the given TRB if its TRB Type is not that of a Setup Stage TRB, or if
    /// one of its RsvdZ fields is not 0.
    pub fn try_from(block: TRB) -> (r: Result<Self, TRB>)
        ensures
            r is Ok <==> Self::valid(block@),
            r matches Ok(t) ==> t@ == block@,
            r matches Err(b) ==> b == block,
    {
        proof {
            bits::lemma_mask32_values();
        }
        match block.trb_type() {
            Some(AllowedType::SetupStage) => {},
            _ => {
                return Err(block);
            },
        }
        if bits::get_bits_u32(block.0[2], 17, 5) != 0
            || bits::get_bits_u32(block.0[3], 1, 4) != 0
            || bits::get_bits_u32(block.0[3], 7, 3) != 0
            || bits::get_bits_u32(block.0[3], 18, 14) != 0
        {
            return Err(block);
        }
        Ok(Self(block))
    }

    /// Converts the Setup Stage TRB into a raw TRB.
    pub fn into_trb(self) -> (r: TRB)
        ensures
            r@ == self@,
            Self::valid(r@),
    {
        proof {
            use_type_invariant(&self);
        }
        self.0
    }

    /// Returns the value of the bmRequestType field.
    pub fn request_type(&self) -> (r: u8)
        ensures
            r == bits::field32(self@[0], 0, 8),
    {
        proof {
            bits::lemma_mask32_values();
        }
        bits::get_bits_u32(self.0.0[0], 0, 8) as u8
    }

    /// Sets the value of the bmRequestType field.
    pub fn set_request_type(&mut self, value: u8) -> (r: &mut Self)
        ensures
            (*r)@ == old(self)@.update(0, bits::with_field32(old(self)@[0], 0, 8, value as u32)),
            *final(self) == *final(r),
    {
        proof {
            use_type_invariant(&*self);
            bits::lemma_mask32_values();
        }
        self.0.0[0] = bits::set_bits_u32(self.0.0[0], 0, 8, value as u32);
        self
    }

    /// Returns the value of the bRequest field.
    pub fn request(&self) -> (r: u8)
        ensures
            r == bits::field32(self@[0], 8, 8),
    {
        proof {
            bits::lemma_mask32_values();
        }
        bits::get_bits_u32(self.0.0[0], 8, 8) as u8
    }

    /// Sets the value of the bRequest field.
    pub fn set_request(&mut self, value: u8) -> (r: &mut Self)
        ensures
            (*r)@ == old(self)@.update(0, bits::with_field32(old(self)@[0], 8, 8, value as u32)),
            *final(self) == *final(r),
    {
        proof {
            use_type_invariant(&*self);
            bits::lemma_mask32_values();
        }
        self.0.0[0] = bits::set_bits_u32(self.0.0[0], 8, 8, value as u32);
        self
    }

    /// Returns the value of the wValue field.
    pub fn value(&self) -> (r: u16)
        ensures
            r == bits::field32(self@[0], 16, 16),
    {
        proof {
            bits::lemma_mask32_values();
        }
        bits::get_bits_u32(self.0.0[0], 16, 16) as u16
    }

    /// Sets the value of the wValue field.
    pub fn set_value(&mut self, value: u16) -> (r: &mut Self)
        ensures
            (*r)@ == old(self)@.update(0, bits::with_field32(old(self)@[0], 16, 16, value as u32)),
            *final(self) == *final(r),
    {
        proof {
            use_type_invariant(&*self);
            bits::lemma_mask32_values();
        }
        self.0.0[0] = bits::set_bits_u32(self.0.0[0], 16, 16, value as u32);
        self
    }

    /// Returns the value of the wIndex field.
    pub fn index(&self) -> (r: u16)
        ensures
            r == bits::field32(self@[1], 0, 16),
    {
        proof {
            bits::lemma_mask32_values();
        }
        bits::get_bits_u32(self.0.0[1], 0, 16) as u16
    }

    /// Sets the value of the wIndex field.
    pub fn set_index(&mut self, value: u16) -> (r: &mut Self)
        ensures
            (*r)@ == old(self)@.update(1, bits::with_field32(old(self)@[1], 0, 16, value as u32)),
            *final(self) == *final(r),
    {
        proof {
            use_type_invariant(&*self);
            bits::lemma_mask32_values();
        }
        self.0.0[1] = bits::set_bits_u32(self.0.0[1], 0, 16, value as u32);
        self
    }

    /// Returns the value of the wLength field.
    pub fn length(&self) -> (r: u16)
        ensures
            r == bits::field32(self@[1], 16, 16),
    {
        proof {
            bits::lemma_mask32_values();
        }
        bits::get_bits_u32(self.0.0[1], 16, 16) as u16
    }

    /// Sets the value of the wLength field.
    pub fn set_length(&mut self, value: u16) -> (r: &mut Self)
        ensures
            (*r)@ == old(self)@.update(1, bits::with_field32(old(self)@[1], 16, 16, value as u32)),
            *final(self) == *final(r),
    {
        proof {
            use_type_invariant(&*self);
            bits::lemma_mask32_values();
        }
        self.0.0[1] = bits::set_bits_u32(self.0.0[1], 16, 16, value as u32);
        self
    }

    /// Returns the value of the TRB Transfer Length field.
    fn trb_transfer_length(&self) -> (r: u32)
        ensures
            r == bits::field32(self@[2], 0, 17),
    {
        bits::get_bits_u32(self.0.0[2], 0, 17)
    }

    /// Sets the value of the TRB Transfer Length field.
    ///
    /// The value must fit in the 17 bits of the field.
    fn set_trb_transfer_length(&mut self, value: u32) -> (r: &mut Self)
        requires
            value < 131072,
        ensures
            (*r)@ == old(self)@.update(2, bits::with_field32(old(self)@[2], 0, 17, value)),
            *final(self) == *final(r),
    {
        proof {
            use_type_invariant(&*self);
            bits::lemma_mask32_values();
            bits::lemma_field32_with_field32_other(old(self)@[2], 0, 17, value, 17, 5);
        }
        self.0.0[2] = bits::set_bits_u32(self.0.0[2], 0, 17, value);
        self
    }

    /// Returns the value of the Interrupter Target field.
    pub fn interrupter_target(&self) -> (r: u16)
        ensures
            r == bits::field32(self@[2], 22, 10),
    {
        proof {
            bits::lemma_mask32_values();
        }
        bits::get_bits_u32(self.0.0[2], 22, 10) as u16
    }

    /// Sets the value of the Interrupter Target field.
    ///
    /// The value must fit in the 10 bits of the field.
    pub fn set_interrupter_target(&mut self, value: u16) -> (r: &mut Self)
        requires
            value < 1024,
        ensures
            (*r)@ == old(self)@.update(2, bits::with_field32(old(self)@[2], 22, 10, value as u32)),
            *final(self) == *final(r),
    {
        proof {
            use_type_invariant(&*self);
            bits::lemma_mask32_values();
            bits::lemma_field32_with_field32_other(old(self)@[2], 22, 10, value as u32, 17, 5);
        }
        self.0.0[2] = bits::set_bits_u32(self.0.0[2], 22, 10, value as u32);
        self
    }

    /// Returns the Interrupt On Completion bit.
    pub fn interrupt_on_completion(&self) -> (r: bool)
        ensures
            r == bits::bit32(self@[3], 5),
    {
        bits::get_bit_u32(self.0.0[3], 5)
    }

    /// Sets the Interrupt On Completion bit.
    pub fn set_interrupt_on_completion(&mut self) -> (r: &mut Self)
        ensures
            (*r)@ == old(self)@.update(3, bits::with_bit32(old(self)@[3], 5, true)),
            *final(self) == *final(r),
    {
        proof {
            use_type_invariant(&*self);
            bits::lemma_mask32_values();
            bits::lemma_field32_with_bit32_other(old(self)@[3], 5, true, 10, 6);
            bits::lemma_field32_with_bit32_other(old(self)@[3], 5, true, 1, 4);
            bits::lemma_field32_with_bit32_other(old(self)@[3], 5, true, 7, 3);
            bits::lemma_field32_with_bit32_other(old(self)@[3], 5, true, 18, 14);
        }
        self.0.0[3] = bits::set_bit_u32(self.0.0[3], 5, true);
        self
    }

    /// Clears the Interrupt On Completion bit.
    pub fn clear_interrupt_on_completion(&mut self) -> (r: &mut Self)
        ensures
            (*r)@ == old(self)@.update(3, bits::with_bit32(old(self)@[3], 5, false)),
            *final(self) == *final(r),
    {
        proof {
            use_type_invariant(&*self);
            bits::lemma_mask32_values();
            bits::lemma_field32_with_bit32_other(old(self)@[3], 5, false, 10, 6);
            bits::lemma_field32_with_bit32_other(old(self)@[3], 5, false, 1, 4);
            bits::lemma_field32_with_bit32_other(old(self)@[3], 5, false, 7, 3);
            bits::lemma_field32_with_bit32_other(old(self)@[3], 5, false, 18, 14);
        }
        self.0.0[3] = bits::set_bit_u32(self.0.0[3], 5, false);
        self
    }

    /// Returns the Immediate Data bit.
    fn immediate_data(&self) -> (r: bool)
        ensures
            r == bits::bit32(self@[3], 6),
    {
        bits::get_bit_u32(self.0.0[3], 6)
    }

    /// Sets the Immediate Data bit.
    fn set_immediate_data(&mut self) -> (r: &mut Self)
        ensures
            (*r)@ == old(self)@.update(3, bits::with_bit32(old(self)@[3], 6, true)),
            *final(self) == *final(r),
    {
        proof {
            use_type_invariant(&*self);
            bits::lemma_mask32_values();
            bits::lemma_field32_with_bit32_other(old(self)@[3], 6, true, 10, 6);
            bits::lemma_field32_with_bit32_other(old(self)@[3], 6, true, 1, 4);
            bits::lemma_field32_with_bit32_other(old(self)@[3], 6, true, 7, 3);
            bits::lemma_field32_with_bit32_other(old(self)@[3], 6, true, 18, 14);
        }
        self.0.0[3] = bits::set_bit_u32(self.0.0[3], 6, true);
        self
    }

    /// Sets the value of the Transfer Type field.
    pub fn set_transfer_type(&mut self, t: TransferType) -> (r: &mut Self)
        ensures
            (*r)@ == old(self)@.update(3, bits::with_field32(old(self)@[3], 16, 2, t.encoding())),
            *final(self) == *final(r),
    {
        proof {
            use_type_invariant(&*self);
            bits::lemma_mask32_values();
            bits::lemma_field32_with_field32_other(old(self)@[3], 16, 2, t.encoding(), 10, 6);
            bits::lemma_field32_with_field32_other(old(self)@[3], 16, 2, t.encoding(), 1, 4);
            bits::lemma_field32_with_field32_other(old(self)@[3], 16, 2, t.encoding(), 7, 3);
            bits::lemma_field32_with_field32_other(old(self)@[3], 16, 2, t.encoding(), 18, 14);
        }
        self.0.0[3] = bits::set_bits_u32(self.0.0[3], 16, 2, t.to_u32());
        self
    }

    /// Returns the value of the Transfer Type field.
    ///
    /// The Transfer Type field must not hold 1, which is reserved.
    pub fn transfer_type(&self) -> (r: TransferType)
        requires
            TransferType::decode(bits::field32(self@[3], 16, 2) as u32) is Some,
        ensures
            TransferType::decode(bits::field32(self@[3], 16, 2) as u32) == Some(r),
    {
        proof {
            bits::lemma_mask32_values();
        }
        let v = TransferType::from_u32(bits::get_bits_u32(self.0.0[3], 16, 2));
        v.unwrap()
    }
}

/// A Data Stage TRB.
#[derive(Clone, Copy, Debug, PartialEq, Eq, Hash)]
pub struct DataStage(TRB);

impl View for DataStage {
    type V = Seq<u32>;

    closed spec fn view(&self) -> Seq<u32> {
        self.0@
    }
}

impl DataStage {
    /// Whether `raw` is a Data Stage TRB: its TRB Type is 3 and its RsvdZ fields are 0.
    pub open spec fn valid(raw: Seq<u32>) -> bool {
        &&& bits::field32(raw[3], 10, 6) == 3
        &&& bits::field32(raw[3], 7, 3) == 0
        &&& bits::field32(raw[3], 17, 15) == 0
    }

    /// Every Data Stage TRB passes its own check: `valid` holds of its Dwords.
    #[verifier::type_invariant]
    spec fn is_accepted(&self) -> bool {
        Self::valid(self@)
    }

    /// Creates a new Data Stage TRB.
    ///
    /// This method sets the value of the TRB Type field properly. All the other fields are set
    /// to 0.
    pub fn new() -> (r: Self)
        ensures
            r@ == seq![0u32, 0u32, 0u32, bits::with_field32(0, 10, 6, 3)],
            Self::valid(r@),
    {
        proof {
            bits::lemma_mask32_values();
            bits::lemma_field32_with_field32_same(0, 10, 6, 3);
            bits::lemma_field32_with_field32_other(0, 10, 6, 3, 7, 3);
            bits::lemma_field32_of_zero(7, 3);
            bits::lemma_field32_with_field32_other(0, 10, 6, 3, 17, 15);
            bits::lemma_field32_of_zero(17, 15);
        }
        Self(TRB::new(AllowedType::DataStage))
    }

    /// Converts a TRB into a Data Stage TRB.
    ///
    /// # Errors
    ///
    /// This method returns the given TRB if its TRB Type is not that of a Data Stage TRB, or if one
    /// of its RsvdZ fields is not 0.
    pub fn try_from(block: TRB) -> (r: Result<Self, TRB>)
        ensures
            r is Ok <==> Self::valid(block@),
            r matches Ok(t) ==> t@ == block@,
            r matches Err(b) ==> b == block,
    {
        proof {
            bits::lemma_mask32_values();
        }
        match block.trb_type() {
            Some(AllowedType::DataStage) => {},
            _ => {
                return Err(block);
            },
        }
        if bits::get_bits_u32(block.0[3], 7, 3) != 0
            || bits::get_bits_u32(block.0[3], 17, 15) != 0
        {
            return Err(block);
        }
        Ok(Self(block))
    }

    /// Converts the Data Stage TRB into a raw TRB.
    pub fn into_trb(self) -> (r: TRB)
        ensures
            r@ == self@,
            Self::valid(r@),
    {
        proof {
            use_type_invariant(&self);
        }
        self.0
    }

    /// Returns the value of the Data Buffer Pointer field.
    pub fn data_buffer_pointer(&self) -> (r: u64)
        ensures
            r == bits::join64(self@[0], self@[1]),
    {
        let lo = self.0.0[0];
        let hi = self.0.0[1];

        bits::join_halves(lo, hi)
    }

    /// Sets the value of the Data Buffer Pointer field.
    pub fn set_data_buffer_pointer(&mut self, value: u64) -> (r: &mut Self)
        ensures
            (*r)@ == old(self)@.update(0, bits::low32(value)).update(1, bits::high32(value)),
            *final(self) == *final(r),
    {
        proof {
            use_type_invariant(&*self);
            bits::lemma_mask32_values();
        }
        let lo = bits::low_half(value);
        let hi = bits::high_half(value);

        self.0.0[0] = lo;
        self.0.0[1] = hi;
        self
    }

    /// Returns the value of the TRB Transfer Length field.
    pub fn trb_transfer_length(&self) -> (r: u32)
        ensures
            r == bits::field32(self@[2], 0, 17),
    {
        bits::get_bits_u32(self.0.0[2], 0, 17)
    }

    /// Sets the value of the TRB Transfer Length field.
    ///
    /// The value must fit in the 17 bits of the field.
    pub fn set_trb_transfer_length(&mut self, value: u32) -> (r: &mut Self)
        requires
            value < 131072,
        ensures
            (*r)@ == old(self)@.update(2, bits::with_field32(old(self)@[2], 0, 17, value)),
            *final(self) == *final(r),
    {
        proof {
            use_type_invariant(&*self);
            bits::lemma_mask32_values();
        }
        self.0.0[2] = bits::set_bits_u32(self.0.0[2], 0, 17, value);
        self
    }

    /// Returns the value of the TD Size field.
    pub fn td_size(&self) -> (r: u8)
        ensures
            r == bits::field32(self@[2], 17, 5),
    {
        proof {
            bits::lemma_mask32_values();
        }
        bits::get_bits_u32(self.0.0[2], 17, 5) as u8
    }

    /// Sets the value of the TD Size field.
    ///
    /// The value must fit in the 5 bits of the field.
    pub fn set_td_size(&mut self, value: u8) -> (r: &mut Self)
        requires
            value < 32,
        ensures
            (*r)@ == old(self)@.update(2, bits::with_field32(old(self)@[2], 17, 5, value as u32)),
            *final(self) == *final(r),
    {
        proof {
            use_type_invariant(&*self);
            bits::lemma_mask32_values();
        }
        self.0.0[2] = bits::set_bits_u32(self.0.0[2], 17, 5, value as u32);
        self
    }

    /// Returns the value of the Interrupter Target field.
    pub fn interrupter_target(&self) -> (r: u16)
        ensures
            r == bits::field32(self@[2], 22, 10),
    {
        proof {
            bits::lemma_mask32_values();
        }
        bits::get_bits_u32(self.0.0[2], 22, 10) as u16
    }

    /// Sets the value of the Interrupter Target field.
    ///
    /// The value must fit in the 10 bits of the field.
    pub fn set_interrupter_target(&mut self, value: u16) -> (r: &mut Self)
        requires
            value < 1024,
        ensures
            (*r)@ == old(self)@.update(2, bits::with_field32(old(self)@[2], 22, 10, value as u32)),
            *final(self) == *final(r),
    {
        proof {
            use_type_invariant(&*self);
            bits::lemma_mask32_values();
        }
        self.0.0[2] = bits::set_bits_u32(self.0.0[2], 22, 10, value as u32);
        self
    }

    /// Returns the Evaluate Next TRB bit.
    pub fn evaluate_next_trb(&self) -> (r: bool)
        ensures
            r == bits::bit32(self@[3], 1),
    {
        bits::get_bit_u32(self.0.0[3], 1)
    }

    /// Sets the Evaluate Next TRB bit.
    pub fn set_evaluate_next_trb(&mut self) -> (r: &mut Self)
        ensures
            (*r)@ == old(self)@.update(3, bits::with_bit32(old(self)@[3], 1, true)),
            *final(self) == *final(r),
    {
        proof {
            use_type_invariant(&*self);
            bits::lemma_mask32_values();
            bits::lemma_field32_with_bit32_other(old(self)@[3], 1, true, 10, 6);
            bits::lemma_field32_with_bit32_other(old(self)@[3], 1, true, 7, 3);
            bits::lemma_field32_with_bit32_other(old(self)@[3], 1, true, 17, 15);
        }
        self.0.0[3] = bits::set_bit_u32(self.0.0[3], 1, true);
        self
    }

    /// Clears the Evaluate Next TRB bit.
    pub fn clear_evaluate_next_trb(&mut self) -> (r: &mut Self)
        ensures
            (*r)@ == old(self)@.update(3, bits::with_bit32(old(self)@[3], 1, false)),
            *final(self) == *final(r),
    {
        proof {
            use_type_invariant(&*self);
            bits::lemma_mask32_values();
            bits::lemma_field32_with_bit32_other(old(self)@[3], 1, false, 10, 6);
            bits::lemma_field32_with_bit32_other(old(self)@[3], 1, false, 7, 3);
            bits::lemma_field32_with_bit32_other(old(self)@[3], 1, false, 17, 15);
        }
        self.0.0[3] = bits::set_bit_u32(self.0.0[3], 1, false);
        self
    }

    /// Returns the Interrupt on Short Packet bit.
    pub fn interrupt_on_short_packet(&self) -> (r: bool)
        ensures
            r == bits::bit32(self@[3], 2),
    {
        bits::get_bit_u32(self.0.0[3], 2)
    }

    /// Sets the Interrupt on Short Packet bit.
    pub fn set_interrupt_on_short_packet(&mut self) -> (r: &mut Self)
        ensures
            (*r)@ == old(self)@.update(3, bits::with_bit32(old(self)@[3], 2, true)),
            *final(self) == *final(r),
    {
        proof {
            use_type_invariant(&*self);
            bits::lemma_mask32_values();
            bits::lemma_field32_with_bit32_other(old(self)@[3], 2, true, 10, 6);
            bits::lemma_field32_with_bit32_other(old(self)@[3], 2, true, 7, 3);
            bits::lemma_field32_with_bit32_other(old(self)@[3], 2, true, 17, 15);
        }
        self.0.0[3] = bits::set_bit_u32(self.0.0[3], 2, true);
        self
    }

    /// Clears the Interrupt on Short Packet bit.
    pub fn clear_interrupt_on_short_packet(&mut self) -> (r: &mut Self)
        ensures
            (*r)@ == old(self)@.update(3, bits::with_bit32(old(self)@[3], 2, false)),
            *final(self) == *final(r),
    {
        proof {
            use_type_invariant(&*self);
            bits::lemma_mask32_values();
            bits::lemma_field32_with_bit32_other(old(self)@[3], 2, false, 10, 6);
            bits::lemma_field32_with_bit32_other(old(self)@[3], 2, false, 7, 3);
            bits::lemma_field32_with_bit32_other(old(self)@[3], 2, false, 17, 15);
        }
        self.0.0[3] = bits::set_bit_u32(self.0.0[3], 2, false);
        self
    }

    /// Returns the No Snoop bit.
    pub fn no_snoop(&self) -> (r: bool)
        ensures
            r == bits::bit32(self@[3], 3),
    {
        bits::get_bit_u32(self.0.0[3], 3)
    }

    /// Sets the No Snoop bit.
    pub fn set_no_snoop(&mut self) -> (r: &mut Self)
        ensures
            (*r)@ == old(self)@.update(3, bits::with_bit32(old(self)@[3], 3, true)),
            *final(self) == *final(r),
    {
        proof {
            use_type_invariant(&*self);
            bits::lemma_mask32_values();
            bits::lemma_field32_with_bit32_other(old(self)@[3], 3, true, 10, 6);
            bits::lemma_field32_with_bit32_other(old(self)@[3], 3, true, 7, 3);
            bits::lemma_field32_with_bit32_other(old(self)@[3], 3, true, 17, 15);
        }
        self.0.0[3] = bits::set_bit_u32(self.0.0[3], 3, true);
        self
    }

    /// Clears the No Snoop bit.
    pub fn clear_no_snoop(&mut self) -> (r: &mut Self)
        ensures
            (*r)@ == old(self)@.update(3, bits::with_bit32(old(self)@[3], 3, false)),
            *final(self) == *final(r),
    {
        proof {
            use_type_invariant(&*self);
            bits::lemma_mask32_values();
            bits::lemma_field32_with_bit32_other(old(self)@[3], 3, false, 10, 6);
            bits::lemma_field32_with_bit32_other(old(self)@[3], 3, false, 7, 3);
            bits::lemma_field32_with_bit32_other(old(self)@[3], 3, false, 17, 15);
        }
        self.0.0[3] = bits::set_bit_u32(self.0.0[3], 3, false);
        self
    }

    /// Returns the Chain bit.
    pub fn chain_bit(&self) -> (r: bool)
        ensures
            r == bits::bit32(self@[3], 4),
    {
        bits::get_bit_u32(self.0.0[3], 4)
    }

    /// Sets the Chain bit.
    pub fn set_chain_bit(&mut self) -> (r: &mut Self)
        ensures
            (*r)@ == old(self)@.update(3, bits::with_bit32(old(self)@[3], 4, true)),
            *final(self) == *final(r),
    {
        proof {
            use_type_invariant(&*self);
            bits::lemma_mask32_values();
            bits::lemma_field32_with_bit32_other(old(self)@[3], 4, true, 10, 6);
            bits::lemma_field32_with_bit32_other(old(self)@[3], 4, true, 7, 3);
            bits::lemma_field32_with_bit32_other(old(self)@[3], 4, true, 17, 15);
        }
        self.0.0[3] = bits::set_bit_u32(self.0.0[3], 4, true);
        self
    }

    /// Clears the Chain bit.
    pub fn clear_chain_bit(&mut self) -> (r: &mut Self)
        ensures
            (*r)@ == old(self)@.update(3, bits::with_bit32(old(self)@[3], 4, false)),
            *final(self) == *final(r),
    {
        proof {
            use_type_invariant(&*self);
            bits::lemma_mask32_values();
            bits::lemma_field32_with_bit32_other(old(self)@[3], 4, false, 10, 6);
            bits::lemma_field32_with_bit32_other(old(self)@[3], 4, false, 7, 3);
            bits::lemma_field32_with_bit32_other(old(self)@[3], 4, false, 17, 15);
        }
        self.0.0[3] = bits::set_bit_u32(self.0.0[3], 4, false);
        self
    }

    /// Returns the Interrupt On Completion bit.
    pub fn interrupt_on_completion(&self) -> (r: bool)
        ensures
            r == bits::bit32(self@[3], 5),
    {
        bits::get_bit_u32(self.0.0[3], 5)
    }

    /// Sets the Interrupt On Completion bit.
    pub fn set_interrupt_on_completion(&mut self) -> (r: &mut Self)
        ensures
            (*r)@ == old(self)@.update(3, bits::with_bit32(old(self)@[3], 5, true)),
            *final(self) == *final(r),
    {
        proof {
            use_type_invariant(&*self);
            bits::lemma_mask32_values();
            bits::lemma_field32_with_bit32_other(old(self)@[3], 5, true, 10, 6);
            bits::lemma_field32_with_bit32_other(old(self)@[3], 5, true, 7, 3);
            bits::lemma_field32_with_bit32_other(old(self)@[3], 5, true, 17, 15);
        }
        self.0.0[3] = bits::set_bit_u32(self.0.0[3], 5, true);
        self
    }

    /// Clears the Interrupt On Completion bit.
    pub fn clear_interrupt_on_completion(&mut self) -> (r: &mut Self)
        ensures
            (*r)@ == old(self)@.update(3, bits::with_bit32(old(self)@[3], 5, false)),
            *final(self) == *final(r),
    {
        proof {
            use_type_invariant(&*self);
            bits::lemma_mask32_values();
            bits::lemma_field32_with_bit32_other(old(self)@[3], 5, false, 10, 6);
            bits::lemma_field32_with_bit32_other(old(self)@[3], 5, false, 7, 3);
            bits::lemma_field32_with_bit32_other(old(self)@[3], 5, false, 17, 15);
        }
        self.0.0[3] = bits::set_bit_u32(self.0.0[3], 5, false);
        self
    }

    /// Returns the Immediate Data bit.
    pub fn immediate_data(&self) -> (r: bool)
        ensures
            r == bits::bit32(self@[3], 6),
    {
        bits::get_bit_u32(self.0.0[3], 6)
    }

    /// Sets the Immediate Data bit.
    pub fn set_immediate_data(&mut self) -> (r: &mut Self)
        ensures
            (*r)@ == old(self)@.update(3, bits::with_bit32(old(self)@[3], 6, true)),
            *final(self) == *final(r),
    {
        proof {
            use_type_invariant(&*self);
            bits::lemma_mask32_values();
            bits::lemma_field32_with_bit32_other(old(self)@[3], 6, true, 10, 6);
            bits::lemma_field32_with_bit32_other(old(self)@[3], 6, true, 7, 3);
            bits::lemma_field32_with_bit32_other(old(self)@[3], 6, true, 17, 15);
        }
        self.0.0[3] = bits::set_bit_u32(self.0.0[3], 6, true);
        self
    }

    /// Clears the Immediate Data bit.
    pub fn clear_immediate_data(&mut self) -> (r: &mut Self)
        ensures
            (*r)@ == old(self)@.update(3, bits::with_bit32(old(self)@[3], 6, false)),
            *final(self) == *final(r),
    {
        proof {
            use_type_invariant(&*self);
            bits::lemma_mask32_values();
            bits::lemma_field32_with_bit32_other(old(self)@[3], 6, false, 10, 6);
            bits::lemma_field32_with_bit32_other(old(self)@[3], 6, false, 7, 3);
            bits::lemma_field32_with_bit32_other(old(self)@[3], 6, false, 17, 15);
        }
        self.0.0[3] = bits::set_bit_u32(self.0.0[3], 6, false);
        self
    }

    /// Returns the Direction (is-in) bit.
    pub fn direction(&self) -> (r: bool)
        ensures
            r == bits::bit32(self@[3], 16),
    {
        bits::get_bit_u32(self.0.0[3], 16)
    }

    /// Sets the Direction (is-in) bit.
    pub fn set_direction(&mut self) -> (r: &mut Self)
        ensures
            (*r)@ == old(self)@.update(3, bits::with_bit32(old(self)@[3], 16, true)),
            *final(self) == *final(r),
    {
        proof {
            use_type_invariant(&*self);
            bits::lemma_mask32_values();
            bits::lemma_field32_with_bit32_other(old(self)@[3], 16, true, 10, 6);
            bits::lemma_field32_with_bit32_other(old(self)@[3], 16, true, 7, 3);
            bits::lemma_field32_with_bit32_other(old(self)@[3], 16, true, 17, 15);
        }
        self.0.0[3] = bits::set_bit_u32(self.0.0[3], 16, true);
        self
    }

    /// Clears the Direction (is-in) bit.
    pub fn clear_direction(&mut self) -> (r: &mut Self)
        ensures
            (*r)@ == old(self)@.update(3, bits::with_bit32(old(self)@[3], 16, false)),
            *final(self) == *final(r),
    {
        proof {
            use_type_invariant(&*self);
            bits::lemma_mask32_values();
            bits::lemma_field32_with_bit32_other(old(self)@[3], 16, false, 10, 6);
            bits::lemma_field32_with_bit32_other(old(self)@[3], 16, false, 7, 3);
            bits::lemma_field32_with_bit32_other(old(self)@[3], 16, false, 17, 15);
        }
        self.0.0[3] = bits::set_bit_u32(self.0.0[3], 16, false);
        self
    }
}

impl Default for DataStage {
    fn default() -> (r: Self)
        ensures
            r@ == seq![0u32, 0u32, 0u32, bits::with_field32(0, 10, 6, 3)],
    {
        Self::new()
    }
}

/// A Status Stage TRB.
#[derive(Clone, Copy, Debug, PartialEq, Eq, Hash)]
pub struct StatusStage(TRB);

impl View for StatusStage {
    type V = Seq<u32>;

    closed spec fn view(&self) -> Seq<u32> {
        self.0@
    }
}

impl StatusStage {
    /// Whether `raw` is a Status Stage TRB: its TRB Type is 4 and its RsvdZ fields are 0.
    pub open spec fn valid(raw: Seq<u32>) -> bool {
        &&& bits::field32(raw[3], 10, 6) == 4
        &&& raw[0] == 0
        &&& raw[1] == 0
        &&& bits::field32(raw[2], 0, 22) == 0
        &&& bits::field32(raw[3], 2, 2) == 0
        &&& bits::field32(raw[3], 6, 4) == 0
        &&& bits::field32(raw[3], 17, 15) == 0
    }

    /// Every Status Stage TRB passes its own check: `valid` holds of its Dwords.
    #[verifier::type_invariant]
    spec fn is_accepted(&self) -> bool {
        Self::valid(self@)
    }

    /// Creates a new Status Stage TRB.
    ///
    /// This method sets the value of the TRB Type field properly. All the other fields are set
    /// to 0.
    pub fn new() -> (r: Self)
        ensures
            r@ == seq![0u32, 0u32, 0u32, bits::with_field32(0, 10, 6, 4)],
            Self::valid(r@),
    {
        proof {
            bits::lemma_mask32_values();
            bits::lemma_field32_with_field32_same(0, 10, 6, 4);
            bits::lemma_field32_of_zero(0, 22);
            bits::lemma_field32_with_field32_other(0, 10, 6, 4, 2, 2);
            bits::lemma_field32_of_zero(2, 2);
            bits::lemma_field32_with_field32_other(0, 10, 6, 4, 6, 4);
            bits::lemma_field32_of_zero(6, 4);
            bits::lemma_field32_with_field32_other(0, 10, 6, 4, 17, 15);
            bits::lemma_field32_of_zero(17, 15);
        }
        Self(TRB::new(AllowedType::StatusStage))
    }

    /// Converts a TRB into a Status Stage TRB.
    ///
    /// # Errors
    ///
    /// This method returns the given TRB if its TRB Type is not that of a Status Stage TRB, or if
    /// one of its RsvdZ fields is not 0.
    pub fn try_from(block: TRB) -> (r: Result<Self, TRB>)
        ensures
            r is Ok <==> Self::valid(block@),
            r matches Ok(t) ==> t@ == block@,
            r matches Err(b) ==> b == block,
    {
        proof {
            bits::lemma_mask32_values();
        }
        match block.trb_type() {
            Some(AllowedType::StatusStage) => {},
            _ => {
                return Err(block);
            },
        }
        if block.0[0] != 0
            || block.0[1] != 0
            || bits::get_bits_u32(block.0[2], 0, 22) != 0
            || bits::get_bits_u32(block.0[3], 2, 2) != 0
            || bits::get_bits_u32(block.0[3], 6, 4) != 0
            || bits::get_bits_u32(block.0[3], 17, 15) != 0
        {
            return Err(block);
        }
        Ok(Self(block))
    }

    /// Converts the Status Stage TRB into a raw TRB.
    pub fn into_trb(self) -> (r: TRB)
        ensures
            r@ == self@,
            Self::valid(r@),
    {
        proof {
            use_type_invariant(&self);
        }
        self.0
    }

    /// Returns the value of the Interrupter Target field.
    pub fn interrupter_target(&self) -> (r: u16)
        ensures
            r == bits::field32(self@[2], 22, 10),
    {
        proof {
            bits::lemma_mask32_values();
        }
        bits::get_bits_u32(self.0.0[2], 22, 10) as u16
    }

    /// Sets the value of the Interrupter Target field.
    ///
    /// The value must fit in the 10 bits of the field.
    pub fn set_interrupter_target(&mut self, value: u16) -> (r: &mut Self)
        requires
            value < 1024,
        ensures
            (*r)@ == old(self)@.update(2, bits::with_field32(old(self)@[2], 22, 10, value as u32)),
            *final(self) == *final(r),
    {
        proof {
            use_type_invariant(&*self);
            bits::lemma_mask32_values();
            bits::lemma_field32_with_field32_other(old(self)@[2], 22, 10, value as u32, 0, 22);
        }
        self.0.0[2] = bits::set_bits_u32(self.0.0[2], 22, 10, value as u32);
        self
    }

    /// Returns the Evaluate Next TRB bit.
    pub fn evaluate_next_trb(&self) -> (r: bool)
        ensures
            r == bits::bit32(self@[3], 1),
    {
        bits::get_bit_u32(self.0.0[3], 1)
    }

    /// Sets the Evaluate Next TRB bit.
    pub fn set_evaluate_next_trb(&mut self) -> (r: &mut Self)
        ensures
            (*r)@ == old(self)@.update(3, bits::with_bit32(old(self)@[3], 1, true)),
            *final(self) == *final(r),
    {
        proof {
            use_type_invariant(&*self);
            bits::lemma_mask32_values();
            bits::lemma_field32_with_bit32_other(old(self)@[3], 1, true, 10, 6);
            bits::lemma_field32_with_bit32_other(old(self)@[3], 1, true, 2, 2);
            bits::lemma_field32_with_bit32_other(old(self)@[3], 1, true, 6, 4);
            bits::lemma_field32_with_bit32_other(old(self)@[3], 1, true, 17, 15);
        }
        self.0.0[3] = bits::set_bit_u32(self.0.0[3], 1, true);
        self
    }

    /// Clears the Evaluate Next TRB bit.
    pub fn clear_evaluate_next_trb(&mut self) -> (r: &mut Self)
        ensures
            (*r)@ == old(self)@.update(3, bits::with_bit32(old(self)@[3], 1, false)),
            *final(self) == *final(r),
    {
        proof {
            use_type_invariant(&*self);
            bits::lemma_mask32_values();
            bits::lemma_field32_with_bit32_other(old(self)@[3], 1, false, 10, 6);
            bits::lemma_field32_with_bit32_other(old(self)@[3], 1, false, 2, 2);
            bits::lemma_field32_with_bit32_other(old(self)@[3], 1, false, 6, 4);
            bits::lemma_field32_with_bit32_other(old(self)@[3], 1, false, 17, 15);
        }
        self.0.0[3] = bits::set_bit_u32(self.0.0[3], 1, false);
        self
    }

    /// Returns the Chain bit.
    pub fn chain_bit(&self) -> (r: bool)
        ensures
            r == bits::bit32(self@[3], 4),
    {
        bits::get_bit_u32(self.0.0[3], 4)
    }

    /// Sets the Chain bit.
    pub fn set_chain_bit(&mut self) -> (r: &mut Self)
        ensures
            (*r)@ == old(self)@.update(3, bits::with_bit32(old(self)@[3], 4, true)),
            *final(self) == *final(r),
    {
        proof {
            use_type_invariant(&*self);
            bits::lemma_mask32_values();
            bits::lemma_field32_with_bit32_other(old(self)@[3], 4, true, 10, 6);
            bits::lemma_field32_with_bit32_other(old(self)@[3], 4, true, 2, 2);
            bits::lemma_field32_with_bit32_other(old(self)@[3], 4, true, 6, 4);
            bits::lemma_field32_with_bit32_other(old(self)@[3], 4, true, 17, 15);
        }
        self.0.0[3] = bits::set_bit_u32(self.0.0[3], 4, true);
        self
    }

    /// Clears the Chain bit.
    pub fn clear_chain_bit(&mut self) -> (r: &mut Self)
        ensures
            (*r)@ == old(self)@.update(3, bits::with_bit32(old(self)@[3], 4, false)),
            *final(self) == *final(r),
    {
        proof {
            use_type_invariant(&*self);
            bits::lemma_mask32_values();
            bits::lemma_field32_with_bit32_other(old(self)@[3], 4, false, 10, 6);
            bits::lemma_field32_with_bit32_other(old(self)@[3], 4, false, 2, 2);
            bits::lemma_field32_with_bit32_other(old(self)@[3], 4, false, 6, 4);
            bits::lemma_field32_with_bit32_other(old(self)@[3], 4, false, 17, 15);
        }
        self.0.0[3] = bits::set_bit_u32(self.0.0[3], 4, false);
        self
    }

    /// Returns the Interrupt On Completion bit.
    pub fn interrupt_on_completion(&self) -> (r: bool)
        ensures
            r == bits::bit32(self@[3], 5),
    {
        bits::get_bit_u32(self.0.0[3], 5)
    }

    /// Sets the Interrupt On Completion bit.
    pub fn set_interrupt_on_completion(&mut self) -> (r: &mut Self)
        ensures
            (*r)@ == old(self)@.update(3, bits::with_bit32(old(self)@[3], 5, true)),
            *final(self) == *final(r),
    {
        proof {
            use_type_invariant(&*self);
            bits::lemma_mask32_values();
            bits::lemma_field32_with_bit32_other(old(self)@[3], 5, true, 10, 6);
            bits::lemma_field32_with_bit32_other(old(self)@[3], 5, true, 2, 2);
            bits::lemma_field32_with_bit32_other(old(self)@[3], 5, true, 6, 4);
            bits::lemma_field32_with_bit32_other(old(self)@[3], 5, true, 17, 15);
        }
        self.0.0[3] = bits::set_bit_u32(self.0.0[3], 5, true);
        self
    }

    /// Clears the Interrupt On Completion bit.
    pub fn clear_interrupt_on_completion(&mut self) -> (r: &mut Self)
        ensures
            (*r)@ == old(self)@.update(3, bits::with_bit32(old(self)@[3], 5, false)),
            *final(self) == *final(r),
    {
        proof {
            use_type_invariant(&*self);
            bits::lemma_mask32_values();
            bits::lemma_field32_with_bit32_other(old(self)@[3], 5, false, 10, 6);
            bits::lemma_field32_with_bit32_other(old(self)@[3], 5, false, 2, 2);
            bits::lemma_field32_with_bit32_other(old(self)@[3], 5, false, 6, 4);
            bits::lemma_field32_with_bit32_other(old(self)@[3], 5, false, 17, 15);
        }
        self.0.0[3] = bits::set_bit_u32(self.0.0[3], 5, false);
        self
    }

    /// Returns the Direction (is-in) bit.
    pub fn direction(&self) -> (r: bool)
        ensures
            r == bits::bit32(self@[3], 16),
    {
        bits::get_bit_u32(self.0.0[3], 16)
    }

    /// Sets the Direction (is-in) bit.
    pub fn set_direction(&mut self) -> (r: &mut Self)
        ensures
            (*r)@ == old(self)@.update(3, bits::with_bit32(old(self)@[3], 16, true)),
            *final(self) == *final(r),
    {
        proof {
            use_type_invariant(&*self);
            bits::lemma_mask32_values();
            bits::lemma_field32_with_bit32_other(old(self)@[3], 16, true, 10, 6);
            bits::lemma_field32_with_bit32_other(old(self)@[3], 16, true, 2, 2);
            bits::lemma_field32_with_bit32_other(old(self)@[3], 16, true, 6, 4);
            bits::lemma_field32_with_bit32_other(old(self)@[3], 16, true, 17, 15);
        }
        self.0.0[3] = bits::set_bit_u32(self.0.0[3], 16, true);
        self
    }

    /// Clears the Direction (is-in) bit.
    pub fn clear_direction(&mut self) -> (r: &mut Self)
        ensures
            (*r)@ == old(self)@.update(3, bits::with_bit32(old(self)@[3], 16, false)),
            *final(self) == *final(r),
    {
        proof {
            use_type_invariant(&*self);
            bits::lemma_mask32_values();
            bits::lemma_field32_with_bit32_other(old(self)@[3], 16, false, 10, 6);
            bits::lemma_field32_with_bit32_other(old(self)@[3], 16, false, 2, 2);
            bits::lemma_field32_with_bit32_other(old(self)@[3], 16, false, 6, 4);
            bits::lemma_field32_with_bit32_other(old(self)@[3], 16, false, 17, 15);
        }
        self.0.0[3] = bits::set_bit_u32(self.0.0[3], 16, false);
        self
    }
}

impl Default for StatusStage {
    fn default() -> (r: Self)
        ensures
            r@ == seq![0u32, 0u32, 0u32, bits::with_field32(0, 10, 6, 4)],
    {
        Self::new()
    }
}

/// An Isoch TRB.
#[derive(Clone, Copy, Debug, PartialEq, Eq, Hash)]
pub struct Isoch(TRB);

impl View for Isoch {
    type V = Seq<u32>;

    closed spec fn view(&self) -> Seq<u32> {
        self.0@
    }
}

impl Isoch {
    /// Whether `raw` is an Isoch TRB: its TRB Type is 5 and its RsvdZ fields are 0.
    pub open spec fn valid(raw: Seq<u32>) -> bool {
        &&& bits::field32(raw[3], 10, 6) == 5
    }

    /// Every Isoch TRB passes its own check: `valid` holds of its Dwords.
    #[verifier::type_invariant]
    spec fn is_accepted(&self) -> bool {
        Self::valid(self@)
    }

    /// Creates a new Isoch TRB.
    ///
    /// This method sets the value of the TRB Type field properly. All the other fields are set
    /// to 0.
    pub fn new() -> (r: Self)
        ensures
            r@ == seq![0u32, 0u32, 0u32, bits::with_field32(0, 10, 6, 5)],
            Self::valid(r@),
    {
        proof {
            bits::lemma_mask32_values();
            bits::lemma_field32_with_field32_same(0, 10, 6, 5);
        }
        Self(TRB::new(AllowedType::Isoch))
    }

    /// Converts a TRB into an Isoch TRB.
    ///
    /// # Errors
    ///
    /// This method returns the given TRB if its TRB Type is not that of an Isoch TRB, or if one of
    /// its RsvdZ fields is not 0.
    pub fn try_from(block: TRB) -> (r: Result<Self, TRB>)
        ensures
            r is Ok <==> Self::valid(block@),
            r matches Ok(t) ==> t@ == block@,
            r matches Err(b) ==> b == block,
    {
        proof {
            bits::lemma_mask32_values();
        }
        match block.trb_type() {
            Some(AllowedType::Isoch) => {},
            _ => {
                return Err(block);
            },
        }
        Ok(Self(block))
    }

    /// Converts the Isoch TRB into a raw TRB.
    pub fn into_trb(self) -> (r: TRB)
        ensures
            r@ == self@,
            Self::valid(r@),
    {
        proof {
            use_type_invariant(&self);
        }
        self.0
    }

    /// Returns the value of the Data Buffer Pointer field.
    pub fn data_buffer_pointer(&self) -> (r: u64)
        ensures
            r == bits::join64(self@[0], self@[1]),
    {
        let lo = self.0.0[0];
        let hi = self.0.0[1];

        bits::join_halves(lo, hi)
    }

    /// Sets the value of the Data Buffer Pointer field.
    pub fn set_data_buffer_pointer(&mut self, value: u64) -> (r: &mut Self)
        ensures
            (*r)@ == old(self)@.update(0, bits::low32(value)).update(1, bits::high32(value)),
            *final(self) == *final(r),
    {
        proof {
            use_type_invariant(&*self);
            bits::lemma_mask32_values();
        }
        let lo = bits::low_half(value);
        let hi = bits::high_half(value);

        self.0.0[0] = lo;
        self.0.0[1] = hi;
        self
    }

    /// Returns the value of the TRB Transfer Length field.
    pub fn trb_transfer_length(&self) -> (r: u32)
        ensures
            r == bits::field32(self@[2], 0, 17),
    {
        bits::get_bits_u32(self.0.0[2], 0, 17)
    }

    /// Sets the value of the TRB Transfer Length field.
    ///
    /// The value must fit in the 17 bits of the field.
    pub fn set_trb_transfer_length(&mut self, value: u32) -> (r: &mut Self)
        requires
            value < 131072,
        ensures
            (*r)@ == old(self)@.update(2, bits::with_field32(old(self)@[2], 0, 17, value)),
            *final(self) == *final(r),
    {
        proof {
            use_type_invariant(&*self);
            bits::lemma_mask32_values();
        }
        self.0.0[2] = bits::set_bits_u32(self.0.0[2], 0, 17, value);
        self
    }

    /// Returns the value of the TD Size/TBC field.
    pub fn td_size_or_tbc(&self) -> (r: u8)
        ensures
            r == bits::field32(self@[2], 17, 5),
    {
        proof {
            bits::lemma_mask32_values();
        }
        bits::get_bits_u32(self.0.0[2], 17, 5) as u8
    }

    /// Sets the value of the TD Size/TBC field.
    ///
    /// The value must fit in the 5 bits of the field.
    pub fn set_td_size_or_tbc(&mut self, value: u8) -> (r: &mut Self)
        requires
            value < 32,
        ensures
            (*r)@ == old(self)@.update(2, bits::with_field32(old(self)@[2], 17, 5, value as u32)),
            *final(self) == *final(r),
    {
        proof {
            use_type_invariant(&*self);
            bits::lemma_mask32_values();
        }
        self.0.0[2] = bits::set_bits_u32(self.0.0[2], 17, 5, value as u32);
        self
    }

    /// Returns the value of the Interrupter Target field.
    pub fn interrupter_target(&self) -> (r: u16)
        ensures
            r == bits::field32(self@[2], 22, 10),
    {
        proof {
            bits::lemma_mask32_values();
        }
        bits::get_bits_u32(self.0.0[2], 22, 10) as u16
    }

    /// Sets the value of the Interrupter Target field.
    ///
    /// The value must fit in the 10 bits of the field.
    pub fn set_interrupter_target(&mut self, value: u16) -> (r: &mut Self)
        requires
            value < 1024,
        ensures
            (*r)@ == old(self)@.update(2, bits::with_field32(old(self)@[2], 22, 10, value as u32)),
            *final(self) == *final(r),
    {
        proof {
            use_type_invariant(&*self);
            bits::lemma_mask32_values();
        }
        self.0.0[2] = bits::set_bits_u32(self.0.0[2], 22, 10, value as u32);
        self
    }

    /// Returns the Evaluate Next TRB bit.
    pub fn evaluate_next_trb(&self) -> (r: bool)
        ensures
            r == bits::bit32(self@[3], 1),
    {
        bits::get_bit_u32(self.0.0[3], 1)
    }

    /// Sets the Evaluate Next TRB bit.
    pub fn set_evaluate_next_trb(&mut self) -> (r: &mut Self)
        ensures
            (*r)@ == old(self)@.update(3, bits::with_bit32(old(self)@[3], 1, true)),
            *final(self) == *final(r),
    {
        proof {
            use_type_invariant(&*self);
            bits::lemma_mask32_values();
            bits::lemma_field32_with_bit32_other(old(self)@[3], 1, true, 10, 6);
        }
        self.0.0[3] = bits::set_bit_u32(self.0.0[3], 1, true);
        self
    }

    /// Clears the Evaluate Next TRB bit.
    pub fn clear_evaluate_next_trb(&mut self) -> (r: &mut Self)
        ensures
            (*r)@ == old(self)@.update(3, bits::with_bit32(old(self)@[3], 1, false)),
            *final(self) == *final(r),
    {
        proof {
            use_type_invariant(&*self);
            bits::lemma_mask32_values();
            bits::lemma_field32_with_bit32_other(old(self)@[3], 1, false, 10, 6);
        }
        self.0.0[3] = bits::set_bit_u32(self.0.0[3], 1, false);
        self
    }

    /// Returns the Interrupt on Short Packet bit.
    pub fn interrupt_on_short_packet(&self) -> (r: bool)
        ensures
            r == bits::bit32(self@[3], 2),
    {
        bits::get_bit_u32(self.0.0[3], 2)
    }

    /// Sets the Interrupt on Short Packet bit.
    pub fn set_interrupt_on_short_packet(&mut self) -> (r: &mut Self)
        ensures
            (*r)@ == old(self)@.update(3, bits::with_bit32(old(self)@[3], 2, true)),
            *final(self) == *final(r),
    {
        proof {
            use_type_invariant(&*self);
            bits::lemma_mask32_values();
            bits::lemma_field32_with_bit32_other(old(self)@[3], 2, true, 10, 6);
        }
        self.0.0[3] = bits::set_bit_u32(self.0.0[3], 2, true);
        self
    }

    /// Clears the Interrupt on Short Packet bit.
    pub fn clear_interrupt_on_short_packet(&mut self) -> (r: &mut Self)
        ensures
            (*r)@ == old(self)@.update(3, bits::with_bit32(old(self)@[3], 2, false)),
            *final(self) == *final(r),
    {
        proof {
            use_type_invariant(&*self);
            bits::lemma_mask32_values();
            bits::lemma_field32_with_bit32_other(old(self)@[3], 2, false, 10, 6);
        }
        self.0.0[3] = bits::set_bit_u32(self.0.0[3], 2, false);
        self
    }

    /// Returns the No Snoop bit.
    pub fn no_snoop(&self) -> (r: bool)
        ensures
            r == bits::bit32(self@[3], 3),
    {
        bits::get_bit_u32(self.0.0[3], 3)
    }

    /// Sets the No Snoop bit.
    pub fn set_no_snoop(&mut self) -> (r: &mut Self)
        ensures
            (*r)@ == old(self)@.update(3, bits::with_bit32(old(self)@[3], 3, true)),
            *final(self) == *final(r),
    {
        proof {
            use_type_invariant(&*self);
            bits::lemma_mask32_values();
            bits::lemma_field32_with_bit32_other(old(self)@[3], 3, true, 10, 6);
        }
        self.0.0[3] = bits::set_bit_u32(self.0.0[3], 3, true);
        self
    }

    /// Clears the No Snoop bit.
    pub fn clear_no_snoop(&mut self) -> (r: &mut Self)
        ensures
            (*r)@ == old(self)@.update(3, bits::with_bit32(old(self)@[3], 3, false)),
            *final(self) == *final(r),
    {
        proof {
            use_type_invariant(&*self);
            bits::lemma_mask32_values();
            bits::lemma_field32_with_bit32_other(old(self)@[3], 3, false, 10, 6);
        }
        self.0.0[3] = bits::set_bit_u32(self.0.0[3], 3, false);
        self
    }

    /// Returns the Chain bit.
    pub fn chain_bit(&self) -> (r: bool)
        ensures
            r == bits::bit32(self@[3], 4),
    {
        bits::get_bit_u32(self.0.0[3], 4)
    }

    /// Sets the Chain bit.
    pub fn set_chain_bit(&mut self) -> (r: &mut Self)
        ensures
            (*r)@ == old(self)@.update(3, bits::with_bit32(old(self)@[3], 4, true)),
            *final(self) == *final(r),
    {
        proof {
            use_type_invariant(&*self);
            bits::lemma_mask32_values();
            bits::lemma_field32_with_bit32_other(old(self)@[3], 4, true, 10, 6);
        }
        self.0.0[3] = bits::set_bit_u32(self.0.0[3], 4, true);
        self
    }

    /// Clears the Chain bit.
    pub fn clear_chain_bit(&mut self) -> (r: &mut Self)
        ensures
            (*r)@ == old(self)@.update(3, bits::with_bit32(old(self)@[3], 4, false)),
            *final(self) == *final(r),
    {
        proof {
            use_type_invariant(&*self);
            bits::lemma_mask32_values();
            bits::lemma_field32_with_bit32_other(old(self)@[3], 4, false, 10, 6);
        }
        self.0.0[3] = bits::set_bit_u32(self.0.0[3], 4, false);
        self
    }

    /// Returns the Interrupt On Completion bit.
    pub fn interrupt_on_completion(&self) -> (r: bool)
        ensures
            r == bits::bit32(self@[3], 5),
    {
        bits::get_bit_u32(self.0.0[3], 5)
    }

    /// Sets the Interrupt On Completion bit.
    pub fn set_interrupt_on_completion(&mut self) -> (r: &mut Self)
        ensures
            (*r)@ == old(self)@.update(3, bits::with_bit32(old(self)@[3], 5, true)),
            *final(self) == *final(r),
    {
        proof {
            use_type_invariant(&*self);
            bits::lemma_mask32_values();
            bits::lemma_field32_with_bit32_other(old(self)@[3], 5, true, 10, 6);
        }
        self.0.0[3] = bits::set_bit_u32(self.0.0[3], 5, true);
        self
    }

    /// Clears the Interrupt On Completion bit.
    pub fn clear_interrupt_on_completion(&mut self) -> (r: &mut Self)
        ensures
            (*r)@ == old(self)@.update(3, bits::with_bit32(old(self)@[3], 5, false)),
            *final(self) == *final(r),
    {
        proof {
            use_type_invariant(&*self);
            bits::lemma_mask32_values();
            bits::lemma_field32_with_bit32_other(old(self)@[3], 5, false, 10, 6);
        }
        self.0.0[3] = bits::set_bit_u32(self.0.0[3], 5, false);
        self
    }

    /// Returns the Immediate Data bit.
    pub fn immediate_data(&self) -> (r: bool)
        ensures
            r == bits::bit32(self@[3], 6),
    {
        bits::get_bit_u32(self.0.0[3], 6)
    }

    /// Sets the Immediate Data bit.
    pub fn set_immediate_data(&mut self) -> (r: &mut Self)
        ensures
            (*r)@ == old(self)@.update(3, bits::with_bit32(old(self)@[3], 6, true)),
            *final(self) == *final(r),
    {
        proof {
            use_type_invariant(&*self);
            bits::lemma_mask32_values();
            bits::lemma_field32_with_bit32_other(old(self)@[3], 6, true, 10, 6);
        }
        self.0.0[3] = bits::set_bit_u32(self.0.0[3], 6, true);
        self
    }

    /// Clears the Immediate Data bit.
    pub fn clear_immediate_data(&mut self) -> (r: &mut Self)
        ensures
            (*r)@ == old(self)@.update(3, bits::with_bit32(old(self)@[3], 6, false)),
            *final(self) == *final(r),
    {
        proof {
            use_type_invariant(&*self);
            bits::lemma_mask32_values();
            bits::lemma_field32_with_bit32_other(old(self)@[3], 6, false, 10, 6);
        }
        self.0.0[3] = bits::set_bit_u32(self.0.0[3], 6, false);
        self
    }

    /// Returns the value of the TBC/TRBSts field.
    pub fn tbc_or_sts(&self) -> (r: u8)
        ensures
            r == bits::field32(self@[3], 7, 2),
    {
        proof {
            bits::lemma_mask32_values();
        }
        bits::get_bits_u32(self.0.0[3], 7, 2) as u8
    }

    /// Sets the value of the TBC/TRBSts field.
    ///
    /// The value must fit in the 2 bits of the field.
    pub fn set_tbc_or_sts(&mut self, value: u8) -> (r: &mut Self)
        requires
            value < 4,
        ensures
            (*r)@ == old(self)@.update(3, bits::with_field32(old(self)@[3], 7, 2, value as u32)),
            *final(self) == *final(r),
    {
        proof {
            use_type_invariant(&*self);
            bits::lemma_mask32_values();
            bits::lemma_field32_with_field32_other(old(self)@[3], 7, 2, value as u32, 10, 6);
        }
        self.0.0[3] = bits::set_bits_u32(self.0.0[3], 7, 2, value as u32);
        self
    }

    /// Returns the Block Event Interrupt bit.
    pub fn block_event_interrupt(&self) -> (r: bool)
        ensures
            r == bits::bit32(self@[3], 9),
    {
        bits::get_bit_u32(self.0.0[3], 9)
    }

    /// Sets the Block Event Interrupt bit.
    pub fn set_block_event_interrupt(&mut self) -> (r: &mut Self)
        ensures
            (*r)@ == old(self)@.update(3, bits::with_bit32(old(self)@[3], 9, true)),
            *final(self) == *final(r),
    {
        proof {
            use_type_invariant(&*self);
            bits::lemma_mask32_values();
            bits::lemma_field32_with_bit32_other(old(self)@[3], 9, true, 10, 6);
        }
        self.0.0[3] = bits::set_bit_u32(self.0.0[3], 9, true);
        self
    }

    /// Clears the Block Event Interrupt bit.
    pub fn clear_block_event_interrupt(&mut self) -> (r: &mut Self)
        ensures
            (*r)@ == old(self)@.update(3, bits::with_bit32(old(self)@[3], 9, false)),
            *final(self) == *final(r),
    {
        proof {
            use_type_invariant(&*self);
            bits::lemma_mask32_values();
            bits::lemma_field32_with_bit32_other(old(self)@[3], 9, false, 10, 6);
        }
        self.0.0[3] = bits::set_bit_u32(self.0.0[3], 9, false);
        self
    }

    /// Returns the value of the Transfer Last Burst Packet Count field.
    pub fn transfer_last_burst_packet_count(&self) -> (r: u8)
        ensures
            r == bits::field32(self@[3], 16, 4),
    {
        proof {
            bits::lemma_mask32_values();
        }
        bits::get_bits_u32(self.0.0[3], 16, 4) as u8
    }

    /// Sets the value of the Transfer Last Burst Packet Count field.
    ///
    /// The value must fit in the 4 bits of the field.
    pub fn set_transfer_last_burst_packet_count(&mut self, value: u8) -> (r: &mut Self)
        requires
            value < 16,
        ensures
            (*r)@ == old(self)@.update(3, bits::with_field32(old(self)@[3], 16, 4, value as u32)),
            *final(self) == *final(r),
    {
        proof {
            use_type_invariant(&*self);
            bits::lemma_mask32_values();
            bits::lemma_field32_with_field32_other(old(self)@[3], 16, 4, value as u32, 10, 6);
        }
        self.0.0[3] = bits::set_bits_u32(self.0.0[3], 16, 4, value as u32);
        self
    }

    /// Returns the value of the Frame ID field.
    pub fn frame_id(&self) -> (r: u16)
        ensures
            r == bits::field32(self@[3], 20, 11),
    {
        proof {
            bits::lemma_mask32_values();
        }
        bits::get_bits_u32(self.0.0[3], 20, 11) as u16
    }

    /// Sets the value of the Frame ID field.
    ///
    /// The value must fit in the 11 bits of the field.
    pub fn set_frame_id(&mut self, value: u16) -> (r: &mut Self)
        requires
            value < 2048,
        ensures
            (*r)@ == old(self)@.update(3, bits::with_field32(old(self)@[3], 20, 11, value as u32)),
            *final(self) == *final(r),
    {
        proof {
            use_type_invariant(&*self);
            bits::lemma_mask32_values();
            bits::lemma_field32_with_field32_other(old(self)@[3], 20, 11, value as u32, 10, 6);
        }
        self.0.0[3] = bits::set_bits_u32(self.0.0[3], 20, 11, value as u32);
        self
    }

    /// Returns the Start Isoch ASAP bit.
    pub fn start_isoch_asap(&self) -> (r: bool)
        ensures
            r == bits::bit32(self@[3], 31),
    {
        bits::get_bit_u32(self.0.0[3], 31)
    }

    /// Sets the Start Isoch ASAP bit.
    pub fn set_start_isoch_asap(&mut self) -> (r: &mut Self)
        ensures
            (*r)@ == old(self)@.update(3, bits::with_bit32(old(self)@[3], 31, true)),
            *final(self) == *final(r),
    {
        proof {
            use_type_invariant(&*self);
            bits::lemma_mask32_values();
            bits::lemma_field32_with_bit32_other(old(self)@[3], 31, true, 10, 6);
        }
        self.0.0[3] = bits::set_bit_u32(self.0.0[3], 31, true);
        self
    }

    /// Clears the Start Isoch ASAP bit.
    pub fn clear_start_isoch_asap(&mut self) -> (r: &mut Self)
        ensures
            (*r)@ == old(self)@.update(3, bits::with_bit32(old(self)@[3], 31, false)),
            *final(self) == *final(r),
    {
        proof {
            use_type_invariant(&*self);
            bits::lemma_mask32_values();
            bits::lemma_field32_with_bit32_other(old(self)@[3], 31, false, 10, 6);
        }
        self.0.0[3] = bits::set_bit_u32(self.0.0[3], 31, false);
        self
    }
}

impl Default for Isoch {
    fn default() -> (r: Self)
        ensures
            r@ == seq![0u32, 0u32, 0u32, bits::with_field32(0, 10, 6, 5)],
    {
        Self::new()
    }
}

/// A Link TRB.
#[derive(Clone, Copy, Debug, PartialEq, Eq, Hash)]
pub struct Link(TRB);

impl View for Link {
    type V = Seq<u32>;

    closed spec fn view(&self) -> Seq<u32> {
        self.0@
    }
}

impl Link {
    /// Whether `raw` is a Link TRB: its TRB Type is 6 and its RsvdZ fields are 0.
    pub open spec fn valid(raw: Seq<u32>) -> bool {
        &&& bits::field32(raw[3], 10, 6) == 6
        &&& bits::field32(raw[0], 0, 4) == 0
        &&& bits::field32(raw[2], 0, 22) == 0
        &&& bits::field32(raw[3], 2, 2) == 0
        &&& bits::field32(raw[3], 6, 4) == 0
        &&& bits::field32(raw[3], 16, 16) == 0
    }

    /// Every Link TRB passes its own check: `valid` holds of its Dwords.
    #[verifier::type_invariant]
    spec fn is_accepted(&self) -> bool {
        Self::valid(self@)
    }

    /// Creates a new Link TRB.
    ///
    /// This method sets the value of the TRB Type field properly. All the other fields are set
    /// to 0.
    pub fn new() -> (r: Self)
        ensures
            r@ == seq![0u32, 0u32, 0u32, bits::with_field32(0, 10, 6, 6)],
            Self::valid(r@),
    {
        proof {
            bits::lemma_mask32_values();
            bits::lemma_field32_with_field32_same(0, 10, 6, 6);
            bits::lemma_field32_of_zero(0, 4);
            bits::lemma_field32_of_zero(0, 22);
            bits::lemma_field32_with_field32_other(0, 10, 6, 6, 2, 2);
            bits::lemma_field32_of_zero(2, 2);
            bits::lemma_field32_with_field32_other(0, 10, 6, 6, 6, 4);
            bits::lemma_field32_of_zero(6, 4);
            bits::lemma_field32_with_field32_other(0, 10, 6, 6, 16, 16);
            bits::lemma_field32_of_zero(16, 16);
        }
        Self(TRB::new(AllowedType::Link))
    }

    /// Converts a TRB into a Link TRB.
    ///
    /// # Errors
    ///
    /// This method returns the given TRB if its TRB Type is not that of a Link TRB, or if one of
    /// its RsvdZ fields is not 0.
    pub fn try_from(block: TRB) -> (r: Result<Self, TRB>)
        ensures
            r is Ok <==> Self::valid(block@),
            r matches Ok(t) ==> t@ == block@,
            r matches Err(b) ==> b == block,
    {
        proof {
            bits::lemma_mask32_values();
        }
        match block.trb_type() {
            Some(AllowedType::Link) => {},
            _ => {
                return Err(block);
            },
        }
        if bits::get_bits_u32(block.0[0], 0, 4) != 0
            || bits::get_bits_u32(block.0[2], 0, 22) != 0
            || bits::get_bits_u32(block.0[3], 2, 2) != 0
            || bits::get_bits_u32(block.0[3], 6, 4) != 0
            || bits::get_bits_u32(block.0[3], 16, 16) != 0
        {
            return Err(block);
        }
        Ok(Self(block))
    }

    /// Converts the Link TRB into a raw TRB.
    pub fn into_trb(self) -> (r: TRB)
        ensures
            r@ == self@,
            Self::valid(r@),
    {
        proof {
            use_type_invariant(&self);
        }
        self.0
    }

    /// Returns the value of the Ring Segment Pointer field.
    pub fn ring_segment_pointer(&self) -> (r: u64)
        ensures
            r == bits::join64(bits::clear_low32(self@[0], 4), self@[1]),
    {
        let lo = self.0.0[0] >> 4 << 4;
        let hi = self.0.0[1];

        bits::join_halves(lo, hi)
    }

    /// Sets the value of the Ring Segment Pointer field.
    ///
    /// The value must be 16-byte aligned.
    pub fn set_ring_segment_pointer(&mut self, value: u64) -> (r: &mut Self)
        requires
            value % 16 == 0,
        ensures
            (*r)@ == old(self)@.update(0, bits::with_high32(old(self)@[0], 4, bits::low32(value))).update(
                1,
                bits::high32(value),
            ),
            *final(self) == *final(r),
    {
        proof {
            use_type_invariant(&*self);
            bits::lemma_mask32_values();
            bits::lemma_low32_aligned(value);
            bits::lemma_aligned32(bits::low32(value));
            bits::lemma_clear_low32_with_high32(old(self)@[0], 4, bits::low32(value));
        }
        let lo = bits::low_half(value);
        let hi = bits::high_half(value);

        self.0.0[0] = bits::set_high_bits_u32(self.0.0[0], 4, lo);
        self.0.0[1] = hi;
        self
    }

    /// Returns the value of the Interrupter Target field.
    pub fn interrupter_target(&self) -> (r: u16)
        ensures
            r == bits::field32(self@[2], 22, 10),
    {
        proof {
            bits::lemma_mask32_values();
        }
        bits::get_bits_u32(self.0.0[2], 22, 10) as u16
    }

    /// Sets the value of the Interrupter Target field.
    ///
    /// The value must fit in the 10 bits of the field.
    pub fn set_interrupter_target(&mut self, value: u16) -> (r: &mut Self)
        requires
            value < 1024,
        ensures
            (*r)@ == old(self)@.update(2, bits::with_field32(old(self)@[2], 22, 10, value as u32)),
            *final(self) == *final(r),
    {
        proof {
            use_type_invariant(&*self);
            bits::lemma_mask32_values();
            bits::lemma_field32_with_field32_other(old(self)@[2], 22, 10, value as u32, 0, 22);
        }
        self.0.0[2] = bits::set_bits_u32(self.0.0[2], 22, 10, value as u32);
        self
    }

    /// Returns the Toggle Cycle bit.
    pub fn toggle_cycle(&self) -> (r: bool)
        ensures
            r == bits::bit32(self@[3], 1),
    {
        bits::get_bit_u32(self.0.0[3], 1)
    }

    /// Sets the Toggle Cycle bit.
    pub fn set_toggle_cycle(&mut self) -> (r: &mut Self)
        ensures
            (*r)@ == old(self)@.update(3, bits::with_bit32(old(self)@[3], 1, true)),
            *final(self) == *final(r),
    {
        proof {
            use_type_invariant(&*self);
            bits::lemma_mask32_values();
            bits::lemma_field32_with_bit32_other(old(self)@[3], 1, true, 10, 6);
            bits::lemma_field32_with_bit32_other(old(self)@[3], 1, true, 2, 2);
            bits::lemma_field32_with_bit32_other(old(self)@[3], 1, true, 6, 4);
            bits::lemma_field32_with_bit32_other(old(self)@[3], 1, true, 16, 16);
        }
        self.0.0[3] = bits::set_bit_u32(self.0.0[3], 1, true);
        self
    }

    /// Clears the Toggle Cycle bit.
    pub fn clear_toggle_cycle(&mut self) -> (r: &mut Self)
        ensures
            (*r)@ == old(self)@.update(3, bits::with_bit32(old(self)@[3], 1, false)),
            *final(self) == *final(r),
    {
        proof {
            use_type_invariant(&*self);
            bits::lemma_mask32_values();
            bits::lemma_field32_with_bit32_other(old(self)@[3], 1, false, 10, 6);
            bits::lemma_field32_with_bit32_other(old(self)@[3], 1, false, 2, 2);
            bits::lemma_field32_with_bit32_other(old(self)@[3], 1, false, 6, 4);
            bits::lemma_field32_with_bit32_other(old(self)@[3], 1, false, 16, 16);
        }
        self.0.0[3] = bits::set_bit_u32(self.0.0[3], 1, false);
        self
    }

    /// Returns the Chain bit.
    pub fn chain_bit(&self) -> (r: bool)
        ensures
            r == bits::bit32(self@[3], 4),
    {
        bits::get_bit_u32(self.0.0[3], 4)
    }

    /// Sets the Chain bit.
    pub fn set_chain_bit(&mut self) -> (r: &mut Self)
        ensures
            (*r)@ == old(self)@.update(3, bits::with_bit32(old(self)@[3], 4, true)),
            *final(self) == *final(r),
    {
        proof {
            use_type_invariant(&*self);
            bits::lemma_mask32_values();
            bits::lemma_field32_with_bit32_other(old(self)@[3], 4, true, 10, 6);
            bits::lemma_field32_with_bit32_other(old(self)@[3], 4, true, 2, 2);
            bits::lemma_field32_with_bit32_other(old(self)@[3], 4, true, 6, 4);
            bits::lemma_field32_with_bit32_other(old(self)@[3], 4, true, 16, 16);
        }
        self.0.0[3] = bits::set_bit_u32(self.0.0[3], 4, true);
        self
    }

    /// Clears the Chain bit.
    pub fn clear_chain_bit(&mut self) -> (r: &mut Self)
        ensures
            (*r)@ == old(self)@.update(3, bits::with_bit32(old(self)@[3], 4, false)),
            *final(self) == *final(r),
    {
        proof {
            use_type_invariant(&*self);
            bits::lemma_mask32_values();
            bits::lemma_field32_with_bit32_other(old(self)@[3], 4, false, 10, 6);
            bits::lemma_field32_with_bit32_other(old(self)@[3], 4, false, 2, 2);
            bits::lemma_field32_with_bit32_other(old(self)@[3], 4, false, 6, 4);
            bits::lemma_field32_with_bit32_other(old(self)@[3], 4, false, 16, 16);
        }
        self.0.0[3] = bits::set_bit_u32(self.0.0[3], 4, false);
        self
    }

    /// Returns the Interrupt On Completion bit.
    pub fn interrupt_on_completion(&self) -> (r: bool)
        ensures
            r == bits::bit32(self@[3], 5),
    {
        bits::get_bit_u32(self.0.0[3], 5)
    }

    /// Sets the Interrupt On Completion bit.
    pub fn set_interrupt_on_completion(&mut self) -> (r: &mut Self)
        ensures
            (*r)@ == old(self)@.update(3, bits::with_bit32(old(self)@[3], 5, true)),
            *final(self) == *final(r),
    {
        proof {
            use_type_invariant(&*self);
            bits::lemma_mask32_values();
            bits::lemma_field32_with_bit32_other(old(self)@[3], 5, true, 10, 6);
            bits::lemma_field32_with_bit32_other(old(self)@[3], 5, true, 2, 2);
            bits::lemma_field32_with_bit32_other(old(self)@[3], 5, true, 6, 4);
            bits::lemma_field32_with_bit32_other(old(self)@[3], 5, true, 16, 16);
        }
        self.0.0[3] = bits::set_bit_u32(self.0.0[3], 5, true);
        self
    }

    /// Clears the Interrupt On Completion bit.
    pub fn clear_interrupt_on_completion(&mut self) -> (r: &mut Self)
        ensures
            (*r)@ == old(self)@.update(3, bits::with_bit32(old(self)@[3], 5, false)),
            *final(self) == *final(r),
    {
        proof {
            use_type_invariant(&*self);
            bits::lemma_mask32_values();
            bits::lemma_field32_with_bit32_other(old(self)@[3], 5, false, 10, 6);
            bits::lemma_field32_with_bit32_other(old(self)@[3], 5, false, 2, 2);
            bits::lemma_field32_with_bit32_other(old(self)@[3], 5, false, 6, 4);
            bits::lemma_field32_with_bit32_other(old(self)@[3], 5, false, 16, 16);
        }
        self.0.0[3] = bits::set_bit_u32(self.0.0[3], 5, false);
        self
    }
}

impl Default for Link {
    fn default() -> (r: Self)
        ensures
            r@ == seq![0u32, 0u32, 0u32, bits::with_field32(0, 10, 6, 6)],
    {
        Self::new()
    }
}

/// An Event Data TRB.
#[derive(Clone, Copy, Debug, PartialEq, Eq, Hash)]
pub struct EventData(TRB);

impl View for EventData {
    type V = Seq<u32>;

    closed spec fn view(&self) -> Seq<u32> {
        self.0@
    }
}

impl EventData {
    /// Whether `raw` is an Event Data TRB: its TRB Type is 7 and its RsvdZ fields are 0.
    pub open spec fn valid(raw: Seq<u32>) -> bool {
        &&& bits::field32(raw[3], 10, 6) == 7
        &&& bits::field32(raw[2], 0, 22) == 0
        &&& bits::field32(raw[3], 2, 2) == 0
        &&& bits::field32(raw[3], 6, 3) == 0
        &&& bits::field32(raw[3], 16, 16) == 0
    }

    /// Every Event Data TRB passes its own check: `valid` holds of its Dwords.
    #[verifier::type_invariant]
    spec fn is_accepted(&self) -> bool {
        Self::valid(self@)
    }

    /// Creates a new Event Data TRB.
    ///
    /// This method sets the value of the TRB Type field properly. All the other fields are set
    /// to 0.
    pub fn new() -> (r: Self)
        ensures
            r@ == seq![0u32, 0u32, 0u32, bits::with_field32(0, 10, 6, 7)],
            Self::valid(r@),
    {
        proof {
            bits::lemma_mask32_values();
            bits::lemma_field32_with_field32_same(0, 10, 6, 7);
            bits::lemma_field32_of_zero(0, 22);
            bits::lemma_field32_with_field32_other(0, 10, 6, 7, 2, 2);
            bits::lemma_field32_of_zero(2, 2);
            bits::lemma_field32_with_field32_other(0, 10, 6, 7, 6, 3);
            bits::lemma_field32_of_zero(6, 3);
            bits::lemma_field32_with_field32_other(0, 10, 6, 7, 16, 16);
            bits::lemma_field32_of_zero(16, 16);
        }
        Self(TRB::new(AllowedType::EventData))
    }

    /// Converts a TRB into an Event Data TRB.
    ///
    /// # Errors
    ///
    /// This method returns the given TRB if its TRB Type is not that of an Event Data TRB, or if
    /// one of its RsvdZ fields is not 0.
    pub fn try_from(block: TRB) -> (r: Result<Self, TRB>)
        ensures
            r is Ok <==> Self::valid(block@),
            r matches Ok(t) ==> t@ == block@,
            r matches Err(b) ==> b == block,
    {
        proof {
            bits::lemma_mask32_values();
        }
        match block.trb_type() {
            Some(AllowedType::EventData) => {},
            _ => {
                return Err(block);
            },
        }
        if bits::get_bits_u32(block.0[2], 0, 22) != 0
            || bits::get_bits_u32(block.0[3], 2, 2) != 0
            || bits::get_bits_u32(block.0[3], 6, 3) != 0
            || bits::get_bits_u32(block.0[3], 16, 16) != 0
        {
            return Err(block);
        }
        Ok(Self(block))
    }

    /// Converts the Event Data TRB into a raw TRB.
    pub fn into_trb(self) -> (r: TRB)
        ensures
            r@ == self@,
            Self::valid(r@),
    {
        proof {
            use_type_invariant(&self);
        }
        self.0
    }

    /// Returns the value of the Event Data field.
    pub fn event_data(&self) -> (r: u64)
        ensures
            r == bits::join64(self@[0], self@[1]),
    {
        let lo = self.0.0[0];
        let hi = self.0.0[1];

        bits::join_halves(lo, hi)
    }

    /// Sets the value of the Event Data field.
    pub fn set_event_data(&mut self, value: u64) -> (r: &mut Self)
        ensures
            (*r)@ == old(self)@.update(0, bits::low32(value)).update(1, bits::high32(value)),
            *final(self) == *final(r),
    {
        proof {
            use_type_invariant(&*self);
            bits::lemma_mask32_values();
        }
        let lo = bits::low_half(value);
        let hi = bits::high_half(value);

        self.0.0[0] = lo;
        self.0.0[1] = hi;
        self
    }

    /// Returns the value of the Interrupter Target field.
    pub fn interrupter_target(&self) -> (r: u16)
        ensures
            r == bits::field32(self@[2], 22, 10),
    {
        proof {
            bits::lemma_mask32_values();
        }
        bits::get_bits_u32(self.0.0[2], 22, 10) as u16
    }

    /// Sets the value of the Interrupter Target field.
    ///
    /// The value must fit in the 10 bits of the field.
    pub fn set_interrupter_target(&mut self, value: u16) -> (r: &mut Self)
        requires
            value < 1024,
        ensures
            (*r)@ == old(self)@.update(2, bits::with_field32(old(self)@[2], 22, 10, value as u32)),
            *final(self) == *final(r),
    {
        proof {
            use_type_invariant(&*self);
            bits::lemma_mask32_values();
            bits::lemma_field32_with_field32_other(old(self)@[2], 22, 10, value as u32, 0, 22);
        }
        self.0.0[2] = bits::set_bits_u32(self.0.0[2], 22, 10, value as u32);
        self
    }

    /// Returns the Evaluate Next TRB bit.
    pub fn evaluate_next_trb(&self) -> (r: bool)
        ensures
            r == bits::bit32(self@[3], 1),
    {
        bits::get_bit_u32(self.0.0[3], 1)
    }

    /// Sets the Evaluate Next TRB bit.
    pub fn set_evaluate_next_trb(&mut self) -> (r: &mut Self)
        ensures
            (*r)@ == old(self)@.update(3, bits::with_bit32(old(self)@[3], 1, true)),
            *final(self) == *final(r),
    {
        proof {
            use_type_invariant(&*self);
            bits::lemma_mask32_values();
            bits::lemma_field32_with_bit32_other(old(self)@[3], 1, true, 10, 6);
            bits::lemma_field32_with_bit32_other(old(self)@[3], 1, true, 2, 2);
            bits::lemma_field32_with_bit32_other(old(self)@[3], 1, true, 6, 3);
            bits::lemma_field32_with_bit32_other(old(self)@[3], 1, true, 16, 16);
        }
        self.0.0[3] = bits::set_bit_u32(self.0.0[3], 1, true);
        self
    }

    /// Clears the Evaluate Next TRB bit.
    pub fn clear_evaluate_next_trb(&mut self) -> (r: &mut Self)
        ensures
            (*r)@ == old(self)@.update(3, bits::with_bit32(old(self)@[3], 1, false)),
            *final(self) == *final(r),
    {
        proof {
            use_type_invariant(&*self);
            bits::lemma_mask32_values();
            bits::lemma_field32_with_bit32_other(old(self)@[3], 1, false, 10, 6);
            bits::lemma_field32_with_bit32_other(old(self)@[3], 1, false, 2, 2);
            bits::lemma_field32_with_bit32_other(old(self)@[3], 1, false, 6, 3);
            bits::lemma_field32_with_bit32_other(old(self)@[3], 1, false, 16, 16);
        }
        self.0.0[3] = bits::set_bit_u32(self.0.0[3], 1, false);
        self
    }

    /// Returns the Chain bit.
    pub fn chain_bit(&self) -> (r: bool)
        ensures
            r == bits::bit32(self@[3], 4),
    {
        bits::get_bit_u32(self.0.0[3], 4)
    }

    /// Sets the Chain bit.
    pub fn set_chain_bit(&mut self) -> (r: &mut Self)
        ensures
            (*r)@ == old(self)@.update(3, bits::with_bit32(old(self)@[3], 4, true)),
            *final(self) == *final(r),
    {
        proof {
            use_type_invariant(&*self);
            bits::lemma_mask32_values();
            bits::lemma_field32_with_bit32_other(old(self)@[3], 4, true, 10, 6);
            bits::lemma_field32_with_bit32_other(old(self)@[3], 4, true, 2, 2);
            bits::lemma_field32_with_bit32_other(old(self)@[3], 4, true, 6, 3);
            bits::lemma_field32_with_bit32_other(old(self)@[3], 4, true, 16, 16);
        }
        self.0.0[3] = bits::set_bit_u32(self.0.0[3], 4, true);
        self
    }

    /// Clears the Chain bit.
    pub fn clear_chain_bit(&mut self) -> (r: &mut Self)
        ensures
            (*r)@ == old(self)@.update(3, bits::with_bit32(old(self)@[3], 4, false)),
            *final(self) == *final(r),
    {
        proof {
            use_type_invariant(&*self);
            bits::lemma_mask32_values();
            bits::lemma_field32_with_bit32_other(old(self)@[3], 4, false, 10, 6);
            bits::lemma_field32_with_bit32_other(old(self)@[3], 4, false, 2, 2);
            bits::lemma_field32_with_bit32_other(old(self)@[3], 4, false, 6, 3);
            bits::lemma_field32_with_bit32_other(old(self)@[3], 4, false, 16, 16);
        }
        self.0.0[3] = bits::set_bit_u32(self.0.0[3], 4, false);
        self
    }

    /// Returns the Interrupt On Completion bit.
    pub fn interrupt_on_completion(&self) -> (r: bool)
        ensures
            r == bits::bit32(self@[3], 5),
    {
        bits::get_bit_u32(self.0.0[3], 5)
    }

    /// Sets the Interrupt On Completion bit.
    pub fn set_interrupt_on_completion(&mut self) -> (r: &mut Self)
        ensures
            (*r)@ == old(self)@.update(3, bits::with_bit32(old(self)@[3], 5, true)),
            *final(self) == *final(r),
    {
        proof {
            use_type_invariant(&*self);
            bits::lemma_mask32_values();
            bits::lemma_field32_with_bit32_other(old(self)@[3], 5, true, 10, 6);
            bits::lemma_field32_with_bit32_other(old(self)@[3], 5, true, 2, 2);
            bits::lemma_field32_with_bit32_other(old(self)@[3], 5, true, 6, 3);
            bits::lemma_field32_with_bit32_other(old(self)@[3], 5, true, 16, 16);
        }
        self.0.0[3] = bits::set_bit_u32(self.0.0[3], 5, true);
        self
    }

    /// Clears the Interrupt On Completion bit.
    pub fn clear_interrupt_on_completion(&mut self) -> (r: &mut Self)
        ensures
            (*r)@ == old(self)@.update(3, bits::with_bit32(old(self)@[3], 5, false)),
            *final(self) == *final(r),
    {
        proof {
            use_type_invariant(&*self);
            bits::lemma_mask32_values();
            bits::lemma_field32_with_bit32_other(old(self)@[3], 5, false, 10, 6);
            bits::lemma_field32_with_bit32_other(old(self)@[3], 5, false, 2, 2);
            bits::lemma_field32_with_bit32_other(old(self)@[3], 5, false, 6, 3);
            bits::lemma_field32_with_bit32_other(old(self)@[3], 5, false, 16, 16);
        }
        self.0.0[3] = bits::set_bit_u32(self.0.0[3], 5, false);
        self
    }

    /// Returns the Block Event Interrupt bit.
    pub fn block_event_interrupt(&self) -> (r: bool)
        ensures
            r == bits::bit32(self@[3], 9),
    {
        bits::get_bit_u32(self.0.0[3], 9)
    }

    /// Sets the Block Event Interrupt bit.
    pub fn set_block_event_interrupt(&mut self) -> (r: &mut Self)
        ensures
            (*r)@ == old(self)@.update(3, bits::with_bit32(old(self)@[3], 9, true)),
            *final(self) == *final(r),
    {
        proof {
            use_type_invariant(&*self);
            bits::lemma_mask32_values();
            bits::lemma_field32_with_bit32_other(old(self)@[3], 9, true, 10, 6);
            bits::lemma_field32_with_bit32_other(old(self)@[3], 9, true, 2, 2);
            bits::lemma_field32_with_bit32_other(old(self)@[3], 9, true, 6, 3);
            bits::lemma_field32_with_bit32_other(old(self)@[3], 9, true, 16, 16);
        }
        self.0.0[3] = bits::set_bit_u32(self.0.0[3], 9, true);
        self
    }

    /// Clears the Block Event Interrupt bit.
    pub fn clear_block_event_interrupt(&mut self) -> (r: &mut Self)
        ensures
            (*r)@ == old(self)@.update(3, bits::with_bit32(old(self)@[3], 9, false)),
            *final(self) == *final(r),
    {
        proof {
            use_type_invariant(&*self);
            bits::lemma_mask32_values();
            bits::lemma_field32_with_bit32_other(old(self)@[3], 9, false, 10, 6);
            bits::lemma_field32_with_bit32_other(old(self)@[3], 9, false, 2, 2);
            bits::lemma_field32_with_bit32_other(old(self)@[3], 9, false, 6, 3);
            bits::lemma_field32_with_bit32_other(old(self)@[3], 9, false, 16, 16);
        }
        self.0.0[3] = bits::set_bit_u32(self.0.0[3], 9, false);
        self
    }
}

impl Default for EventData {
    fn default() -> (r: Self)
        ensures
            r@ == seq![0u32, 0u32, 0u32, bits::with_field32(0, 10, 6, 7)],
    {
        Self::new()
    }
}

/// A No Op Transfer TRB.
#[derive(Clone, Copy, Debug, PartialEq, Eq, Hash)]
pub struct NoOp(TRB);

impl View for NoOp {
    type V = Seq<u32>;

    closed spec fn view(&self) -> Seq<u32> {
        self.0@
    }
}

impl NoOp {
    /// Whether `raw` is a No Op Transfer TRB: its TRB Type is 8 and its RsvdZ fields are 0.
    pub open spec fn valid(raw: Seq<u32>) -> bool {
        &&& bits::field32(raw[3], 10, 6) == 8
        &&& raw[0] == 0
        &&& raw[1] == 0
        &&& bits::field32(raw[2], 0, 22) == 0
        &&& bits::field32(raw[3], 2, 2) == 0
        &&& bits::field32(raw[3], 6, 4) == 0
        &&& bits::field32(raw[3], 16, 16) == 0
    }

    /// Every No Op Transfer TRB passes its own check: `valid` holds of its Dwords.
    #[verifier::type_invariant]
    spec fn is_accepted(&self) -> bool {
        Self::valid(self@)
    }

    /// Creates a new No Op Transfer TRB.
    ///
    /// This method sets the value of the TRB Type field properly. All the other fields are set
    /// to 0.
    pub fn new() -> (r: Self)
        ensures
            r@ == seq![0u32, 0u32, 0u32, bits::with_field32(0, 10, 6, 8)],
            Self::valid(r@),
    {
        proof {
            bits::lemma_mask32_values();
            bits::lemma_field32_with_field32_same(0, 10, 6, 8);
            bits::lemma_field32_of_zero(0, 22);
            bits::lemma_field32_with_field32_other(0, 10, 6, 8, 2, 2);
            bits::lemma_field32_of_zero(2, 2);
            bits::lemma_field32_with_field32_other(0, 10, 6, 8, 6, 4);
            bits::lemma_field32_of_zero(6, 4);
            bits::lemma_field32_with_field32_other(0, 10, 6, 8, 16, 16);
            bits::lemma_field32_of_zero(16, 16);
        }
        Self(TRB::new(AllowedType::NoOp))
    }

    /// Converts a TRB into a No Op Transfer TRB.
    ///
    /// # Errors
    ///
    /// This method returns the given TRB if its TRB Type is not that of a No Op Transfer TRB, or if
    /// one of its RsvdZ fields is not 0.
    pub fn try_from(block: TRB) -> (r: Result<Self, TRB>)
        ensures
            r is Ok <==> Self::valid(block@),
            r matches Ok(t) ==> t@ == block@,
            r matches Err(b) ==> b == block,
    {
        proof {
            bits::lemma_mask32_values();
        }
        match block.trb_type() {
            Some(AllowedType::NoOp) => {},
            _ => {
                return Err(block);
            },
        }
        if block.0[0] != 0
            || block.0[1] != 0
            || bits::get_bits_u32(block.0[2], 0, 22) != 0
            || bits::get_bits_u32(block.0[3], 2, 2) != 0
            || bits::get_bits_u32(block.0[3], 6, 4) != 0
            || bits::get_bits_u32(block.0[3], 16, 16) != 0
        {
            return Err(block);
        }
        Ok(Self(block))
    }

    /// Converts the No Op Transfer TRB into a raw TRB.
    pub fn into_trb(self) -> (r: TRB)
        ensures
            r@ == self@,
            Self::valid(r@),
    {
        proof {
            use_type_invariant(&self);
        }
        self.0
    }

    /// Returns the value of the Interrupter Target field.
    pub fn interrupter_target(&self) -> (r: u16)
        ensures
            r == bits::field32(self@[2], 22, 10),
    {
        proof {
            bits::lemma_mask32_values();
        }
        bits::get_bits_u32(self.0.0[2], 22, 10) as u16
    }

    /// Sets the value of the Interrupter Target field.
    ///
    /// The value must fit in the 10 bits of the field.
    pub fn set_interrupter_target(&mut self, value: u16) -> (r: &mut Self)
        requires
            value < 1024,
        ensures
            (*r)@ == old(self)@.update(2, bits::with_field32(old(self)@[2], 22, 10, value as u32)),
            *final(self) == *final(r),
    {
        proof {
            use_type_invariant(&*self);
            bits::lemma_mask32_values();
            bits::lemma_field32_with_field32_other(old(self)@[2], 22, 10, value as u32, 0, 22);
        }
        self.0.0[2] = bits::set_bits_u32(self.0.0[2], 22, 10, value as u32);
        self
    }

    /// Returns the Evaluate Next TRB bit.
    pub fn evaluate_next_trb(&self) -> (r: bool)
        ensures
            r == bits::bit32(self@[3], 1),
    {
        bits::get_bit_u32(self.0.0[3], 1)
    }

    /// Sets the Evaluate Next TRB bit.
    pub fn set_evaluate_next_trb(&mut self) -> (r: &mut Self)
        ensures
            (*r)@ == old(self)@.update(3, bits::with_bit32(old(self)@[3], 1, true)),
            *final(self) == *final(r),
    {
        proof {
            use_type_invariant(&*self);
            bits::lemma_mask32_values();
            bits::lemma_field32_with_bit32_other(old(self)@[3], 1, true, 10, 6);
            bits::lemma_field32_with_bit32_other(old(self)@[3], 1, true, 2, 2);
            bits::lemma_field32_with_bit32_other(old(self)@[3], 1, true, 6, 4);
            bits::lemma_field32_with_bit32_other(old(self)@[3], 1, true, 16, 16);
        }
        self.0.0[3] = bits::set_bit_u32(self.0.0[3], 1, true);
        self
    }

    /// Clears the Evaluate Next TRB bit.
    pub fn clear_evaluate_next_trb(&mut self) -> (r: &mut Self)
        ensures
            (*r)@ == old(self)@.update(3, bits::with_bit32(old(self)@[3], 1, false)),
            *final(self) == *final(r),
    {
        proof {
            use_type_invariant(&*self);
            bits::lemma_mask32_values();
            bits::lemma_field32_with_bit32_other(old(self)@[3], 1, false, 10, 6);
            bits::lemma_field32_with_bit32_other(old(self)@[3], 1, false, 2, 2);
            bits::lemma_field32_with_bit32_other(old(self)@[3], 1, false, 6, 4);
            bits::lemma_field32_with_bit32_other(old(self)@[3], 1, false, 16, 16);
        }
        self.0.0[3] = bits::set_bit_u32(self.0.0[3], 1, false);
        self
    }

    /// Returns the Chain bit.
    pub fn chain_bit(&self) -> (r: bool)
        ensures
            r == bits::bit32(self@[3], 4),
    {
        bits::get_bit_u32(self.0.0[3], 4)
    }

    /// Sets the Chain bit.
    pub fn set_chain_bit(&mut self) -> (r: &mut Self)
        ensures
            (*r)@ == old(self)@.update(3, bits::with_bit32(old(self)@[3], 4, true)),
            *final(self) == *final(r),
    {
        proof {
            use_type_invariant(&*self);
            bits::lemma_mask32_values();
            bits::lemma_field32_with_bit32_other(old(self)@[3], 4, true, 10, 6);
            bits::lemma_field32_with_bit32_other(old(self)@[3], 4, true, 2, 2);
            bits::lemma_field32_with_bit32_other(old(self)@[3], 4, true, 6, 4);
            bits::lemma_field32_with_bit32_other(old(self)@[3], 4, true, 16, 16);
        }
        self.0.0[3] = bits::set_bit_u32(self.0.0[3], 4, true);
        self
    }

    /// Clears the Chain bit.
    pub fn clear_chain_bit(&mut self) -> (r: &mut Self)
        ensures
            (*r)@ == old(self)@.update(3, bits::with_bit32(old(self)@[3], 4, false)),
            *final(self) == *final(r),
    {
        proof {
            use_type_invariant(&*self);
            bits::lemma_mask32_values();
            bits::lemma_field32_with_bit32_other(old(self)@[3], 4, false, 10, 6);
            bits::lemma_field32_with_bit32_other(old(self)@[3], 4, false, 2, 2);
            bits::lemma_field32_with_bit32_other(old(self)@[3], 4, false, 6, 4);
            bits::lemma_field32_with_bit32_other(old(self)@[3], 4, false, 16, 16);
        }
        self.0.0[3] = bits::set_bit_u32(self.0.0[3], 4, false);
        self
    }

    /// Returns the Interrupt On Completion bit.
    pub fn interrupt_on_completion(&self) -> (r: bool)
        ensures
            r == bits::bit32(self@[3], 5),
    {
        bits::get_bit_u32(self.0.0[3], 5)
    }

    /// Sets the Interrupt On Completion bit.
    pub fn set_interrupt_on_completion(&mut self) -> (r: &mut Self)
        ensures
            (*r)@ == old(self)@.update(3, bits::with_bit32(old(self)@[3], 5, true)),
            *final(self) == *final(r),
    {
        proof {
            use_type_invariant(&*self);
            bits::lemma_mask32_values();
            bits::lemma_field32_with_bit32_other(old(self)@[3], 5, true, 10, 6);
            bits::lemma_field32_with_bit32_other(old(self)@[3], 5, true, 2, 2);
            bits::lemma_field32_with_bit32_other(old(self)@[3], 5, true, 6, 4);
            bits::lemma_field32_with_bit32_other(old(self)@[3], 5, true, 16, 16);
        }
        self.0.0[3] = bits::set_bit_u32(self.0.0[3], 5, true);
        self
    }

    /// Clears the Interrupt On Completion bit.
    pub fn clear_interrupt_on_completion(&mut self) -> (r: &mut Self)
        ensures
            (*r)@ == old(self)@.update(3, bits::with_bit32(old(self)@[3], 5, false)),
            *final(self) == *final(r),
    {
        proof {
            use_type_invariant(&*self);
            bits::lemma_mask32_values();
            bits::lemma_field32_with_bit32_other(old(self)@[3], 5, false, 10, 6);
            bits::lemma_field32_with_bit32_other(old(self)@[3], 5, false, 2, 2);
            bits::lemma_field32_with_bit32_other(old(self)@[3], 5, false, 6, 4);
            bits::lemma_field32_with_bit32_other(old(self)@[3], 5, false, 16, 16);
        }
        self.0.0[3] = bits::set_bit_u32(self.0.0[3], 5, false);
        self
    }
}

impl Default for NoOp {
    fn default() -> (r: Self)
        ensures
            r@ == seq![0u32, 0u32, 0u32, bits::with_field32(0, 10, 6, 8)],
    {
        Self::new()
    }
}

impl Default for SetupStage {
    fn default() -> (r: Self)
        ensures
            r@ == seq![
                0u32,
                0u32,
                bits::with_field32(0, 0, 17, 8),
                bits::with_bit32(bits::with_field32(0, 10, 6, 2), 6, true),
            ],
    {
        Self::new()
    }
}

} // verus!
