//! Command TRBs.
use crate::bits;
use vstd::prelude::*;

verus! {

/// Allowed TRB Type for Command TRB.
#[derive(Copy, Clone, PartialEq, Eq, Structural, PartialOrd, Ord, Hash, Debug)]
pub enum AllowedType {
    /// Link TRB, 6
    Link,
    /// Enable Slot Command TRB, 9
    EnableSlot,
    /// Disable Slot Command TRB, 10
    DisableSlot,
    /// Address Device Command TRB, 11
    AddressDevice,
    /// Configure Endpoint Command TRB, 12
    ConfigureEndpoint,
    /// Evaluate Context Command TRB, 13
    EvaluateContext,
    /// Reset Endpoint Command TRB, 14
    ResetEndpoint,
    /// Stop Endpoint Command TRB, 15
    StopEndpoint,
    /// Set TR Dequeue Pointer Command TRB, 16
    SetTrDequeuePointer,
    /// Reset Device Command TRB, 17
    ResetDevice,
    /// Force Event Command TRB, 18
    ForceEvent,
    /// Negotiate Bandwidth Command TRB, 19
    NegotiateBandwidth,
    /// Set Latency Tolerance Value Command TRB, 20
    SetLatencyToleranceValue,
    /// Get Port Bandwidth Command TRB, 21
    GetPortBandwidth,
    /// Force Header Command TRB, 22
    ForceHeader,
    /// NoOp Command TRB, 23
    NoOp,
    /// Get Extended Property Command TRB, 24
    GetExtendedProperty,
    /// Set Extended Property Command TRB, 25
    SetExtendedProperty,
}

impl AllowedType {
    /// The TRB Types are numbered as in Table 6-91 of the xHCI specification: each variant is
    /// encoded as its number, each number decodes to its variant, and no other number decodes to a
    /// variant.
    pub proof fn lemma_numbers()
        ensures
            AllowedType::Link.encoding() == 6,
            AllowedType::EnableSlot.encoding() == 9,
            AllowedType::DisableSlot.encoding() == 10,
            AllowedType::AddressDevice.encoding() == 11,
            AllowedType::ConfigureEndpoint.encoding() == 12,
            AllowedType::EvaluateContext.encoding() == 13,
            AllowedType::ResetEndpoint.encoding() == 14,
            AllowedType::StopEndpoint.encoding() == 15,
            AllowedType::SetTrDequeuePointer.encoding() == 16,
            AllowedType::ResetDevice.encoding() == 17,
            AllowedType::ForceEvent.encoding() == 18,
            AllowedType::NegotiateBandwidth.encoding() == 19,
            AllowedType::SetLatencyToleranceValue.encoding() == 20,
            AllowedType::GetPortBandwidth.encoding() == 21,
            AllowedType::ForceHeader.encoding() == 22,
            AllowedType::NoOp.encoding() == 23,
            AllowedType::GetExtendedProperty.encoding() == 24,
            AllowedType::SetExtendedProperty.encoding() == 25,
            AllowedType::decode(6) == Some(AllowedType::Link),
            AllowedType::decode(9) == Some(AllowedType::EnableSlot),
            AllowedType::decode(10) == Some(AllowedType::DisableSlot),
            AllowedType::decode(11) == Some(AllowedType::AddressDevice),
            AllowedType::decode(12) == Some(AllowedType::ConfigureEndpoint),
            AllowedType::decode(13) == Some(AllowedType::EvaluateContext),
            AllowedType::decode(14) == Some(AllowedType::ResetEndpoint),
            AllowedType::decode(15) == Some(AllowedType::StopEndpoint),
            AllowedType::decode(16) == Some(AllowedType::SetTrDequeuePointer),
            AllowedType::decode(17) == Some(AllowedType::ResetDevice),
            AllowedType::decode(18) == Some(AllowedType::ForceEvent),
            AllowedType::decode(19) == Some(AllowedType::NegotiateBandwidth),
            AllowedType::decode(20) == Some(AllowedType::SetLatencyToleranceValue),
            AllowedType::decode(21) == Some(AllowedType::GetPortBandwidth),
            AllowedType::decode(22) == Some(AllowedType::ForceHeader),
            AllowedType::decode(23) == Some(AllowedType::NoOp),
            AllowedType::decode(24) == Some(AllowedType::GetExtendedProperty),
            AllowedType::decode(25) == Some(AllowedType::SetExtendedProperty),
            forall|v: u32|
                #[trigger] AllowedType::decode(v) is Some ==> (
                    v == 6 || v == 9 || v == 10 || v == 11 || v == 12 || v == 13 || v == 14 || v ==
                    15 || v == 16 || v == 17 || v == 18 || v == 19 || v == 20 || v == 21 || v == 22
                    || v == 23 || v == 24 || v == 25
                ),
    {
    }

    /// The number that encodes this value in its field.
    pub open spec fn encoding(self) -> u32 {
        match self {
            AllowedType::Link => 6,
            AllowedType::EnableSlot => 9,
            AllowedType::DisableSlot => 10,
            AllowedType::AddressDevice => 11,
            AllowedType::ConfigureEndpoint => 12,
            AllowedType::EvaluateContext => 13,
            AllowedType::ResetEndpoint => 14,
            AllowedType::StopEndpoint => 15,
            AllowedType::SetTrDequeuePointer => 16,
            AllowedType::ResetDevice => 17,
            AllowedType::ForceEvent => 18,
            AllowedType::NegotiateBandwidth => 19,
            AllowedType::SetLatencyToleranceValue => 20,
            AllowedType::GetPortBandwidth => 21,
            AllowedType::ForceHeader => 22,
            AllowedType::NoOp => 23,
            AllowedType::GetExtendedProperty => 24,
            AllowedType::SetExtendedProperty => 25,
        }
    }

    /// The value that the number `v` encodes, if it encodes one.
    pub open spec fn decode(v: u32) -> Option<AllowedType> {
        if v == 6 {
            Some(AllowedType::Link)
        } else if v == 9 {
            Some(AllowedType::EnableSlot)
        } else if v == 10 {
            Some(AllowedType::DisableSlot)
        } else if v == 11 {
            Some(AllowedType::AddressDevice)
        } else if v == 12 {
            Some(AllowedType::ConfigureEndpoint)
        } else if v == 13 {
            Some(AllowedType::EvaluateContext)
        } else if v == 14 {
            Some(AllowedType::ResetEndpoint)
        } else if v == 15 {
            Some(AllowedType::StopEndpoint)
        } else if v == 16 {
            Some(AllowedType::SetTrDequeuePointer)
        } else if v == 17 {
            Some(AllowedType::ResetDevice)
        } else if v == 18 {
            Some(AllowedType::ForceEvent)
        } else if v == 19 {
            Some(AllowedType::NegotiateBandwidth)
        } else if v == 20 {
            Some(AllowedType::SetLatencyToleranceValue)
        } else if v == 21 {
            Some(AllowedType::GetPortBandwidth)
        } else if v == 22 {
            Some(AllowedType::ForceHeader)
        } else if v == 23 {
            Some(AllowedType::NoOp)
        } else if v == 24 {
            Some(AllowedType::GetExtendedProperty)
        } else if v == 25 {
            Some(AllowedType::SetExtendedProperty)
        } else {
            None
        }
    }

    /// Returns the number that encodes this value.
    pub fn to_u32(self) -> (r: u32)
        ensures
            r == self.encoding(),
    {
        match self {
            AllowedType::Link => 6,
            AllowedType::EnableSlot => 9,
            AllowedType::DisableSlot => 10,
            AllowedType::AddressDevice => 11,
            AllowedType::ConfigureEndpoint => 12,
            AllowedType::EvaluateContext => 13,
            AllowedType::ResetEndpoint => 14,
            AllowedType::StopEndpoint => 15,
            AllowedType::SetTrDequeuePointer => 16,
            AllowedType::ResetDevice => 17,
            AllowedType::ForceEvent => 18,
            AllowedType::NegotiateBandwidth => 19,
            AllowedType::SetLatencyToleranceValue => 20,
            AllowedType::GetPortBandwidth => 21,
            AllowedType::ForceHeader => 22,
            AllowedType::NoOp => 23,
            AllowedType::GetExtendedProperty => 24,
            AllowedType::SetExtendedProperty => 25,
        }
    }

    /// Returns the value that `v` encodes, or `None` if `v` is a reserved number.
    pub fn from_u32(v: u32) -> (r: Option<Self>)
        ensures
            r == Self::decode(v),
    {
        if v == 6 {
            Some(AllowedType::Link)
        } else if v == 9 {
            Some(AllowedType::EnableSlot)
        } else if v == 10 {
            Some(AllowedType::DisableSlot)
        } else if v == 11 {
            Some(AllowedType::AddressDevice)
        } else if v == 12 {
            Some(AllowedType::ConfigureEndpoint)
        } else if v == 13 {
            Some(AllowedType::EvaluateContext)
        } else if v == 14 {
            Some(AllowedType::ResetEndpoint)
        } else if v == 15 {
            Some(AllowedType::StopEndpoint)
        } else if v == 16 {
            Some(AllowedType::SetTrDequeuePointer)
        } else if v == 17 {
            Some(AllowedType::ResetDevice)
        } else if v == 18 {
            Some(AllowedType::ForceEvent)
        } else if v == 19 {
            Some(AllowedType::NegotiateBandwidth)
        } else if v == 20 {
            Some(AllowedType::SetLatencyToleranceValue)
        } else if v == 21 {
            Some(AllowedType::GetPortBandwidth)
        } else if v == 22 {
            Some(AllowedType::ForceHeader)
        } else if v == 23 {
            Some(AllowedType::NoOp)
        } else if v == 24 {
            Some(AllowedType::GetExtendedProperty)
        } else if v == 25 {
            Some(AllowedType::SetExtendedProperty)
        } else {
            None
        }
    }

    /// Decoding the number that encodes a value gives that value back.
    pub proof fn lemma_decode_encoding(self)
        ensures
            Self::decode(self.encoding()) == Some(self),
    {
    }
}

/// A raw Command TRB Block.
#[derive(Clone, Copy, Debug, PartialEq, Eq, Default, Hash)]
pub struct TRB([u32; 4]);

impl View for TRB {
    type V = Seq<u32>;

    closed spec fn view(&self) -> Seq<u32> {
        self.0@
    }
}

impl TRB {
    /// Wraps the four raw Dwords of a TRB.
    pub fn from_raw(raw: [u32; 4]) -> (r: Self)
        ensures
            r@ == raw@,
    {
        Self(raw)
    }

    /// Returns the four raw Dwords of the TRB.
    pub fn into_raw(self) -> (r: [u32; 4])
        ensures
            r@ == self@,
    {
        self.0
    }

    pub(crate) fn new(ty: AllowedType) -> (r: Self)
        ensures
            r@ == seq![0u32, 0u32, 0u32, bits::with_field32(0, 10, 6, ty.encoding())],
    {
        let mut t = Self([0; 4]);
        t.set_trb_type(ty);
        assert(t@ =~= seq![0u32, 0u32, 0u32, bits::with_field32(0, 10, 6, ty.encoding())]);
        t
    }

    /// Returns the TRB Type, or `None` if the TRB Type field holds a value that is not
    /// allowed for Command TRBs.
    pub(crate) fn trb_type(&self) -> (r: Option<AllowedType>)
        ensures
            r == AllowedType::decode(bits::field32(self@[3], 10, 6)),
    {
        AllowedType::from_u32(bits::get_bits_u32(self.0[3], 10, 6))
    }

    fn set_trb_type(&mut self, ty: AllowedType) -> (r: &mut Self)
        ensures
            (*r)@ == old(self)@.update(3, bits::with_field32(old(self)@[3], 10, 6, ty.encoding())),
            *final(self) == *final(r),
    {
        proof {
            bits::lemma_mask32_values();
        }
        self.0[3] = bits::set_bits_u32(self.0[3], 10, 6, ty.to_u32());
        self
    }

    /// Returns the Cycle bit.
    pub fn cycle_bit(&self) -> (r: bool)
        ensures
            r == bits::bit32(self@[3], 0),
    {
        bits::get_bit_u32(self.0[3], 0)
    }

    /// Sets the Cycle bit.
    pub fn set_cycle_bit(&mut self) -> (r: &mut Self)
        ensures
            (*r)@ == old(self)@.update(3, bits::with_bit32(old(self)@[3], 0, true)),
            *final(self) == *final(r),
    {
        self.0[3] = bits::set_bit_u32(self.0[3], 0, true);
        self
    }

    /// Clears the Cycle bit.
    pub fn clear_cycle_bit(&mut self) -> (r: &mut Self)
        ensures
            (*r)@ == old(self)@.update(3, bits::with_bit32(old(self)@[3], 0, false)),
            *final(self) == *final(r),
    {
        self.0[3] = bits::set_bit_u32(self.0[3], 0, false);
        self
    }
}

/// A Link TRB.
#[derive(Clone, Copy, Debug, PartialEq, Eq, Hash)]
pub struct Link(TRB);

impl View for Link {
    type V = Seq<u32>;

    closed spec fn view(&self) -> Seq<u32> {
        self.0@
    }
}

impl Link {
    /// Whether `raw` is a Link TRB: its TRB Type is 6 and its RsvdZ fields are 0.
    pub open spec fn valid(raw: Seq<u32>) -> bool {
        &&& bits::field32(raw[3], 10, 6) == 6
        &&& bits::field32(raw[0], 0, 4) == 0
        &&& bits::field32(raw[2], 0, 22) == 0
        &&& bits::field32(raw[3], 2, 2) == 0
        &&& bits::field32(raw[3], 6, 4) == 0
        &&& bits::field32(raw[3], 16, 16) == 0
    }

    /// Every Link TRB passes its own check: `valid` holds of its Dwords.
    #[verifier::type_invariant]
    spec fn is_accepted(&self) -> bool {
        Self::valid(self@)
    }

    /// Creates a new Link TRB.
    ///
    /// This method sets the value of the TRB Type field properly. All the other fields are set
    /// to 0.
    pub fn new() -> (r: Self)
        ensures
            r@ == seq![0u32, 0u32, 0u32, bits::with_field32(0, 10, 6, 6)],
            Self::valid(r@),
    {
        proof {
            bits::lemma_mask32_values();
            bits::lemma_field32_with_field32_same(0, 10, 6, 6);
            bits::lemma_field32_of_zero(0, 4);
            bits::lemma_field32_of_zero(0, 22);
            bits::lemma_field32_with_field32_other(0, 10, 6, 6, 2, 2);
            bits::lemma_field32_of_zero(2, 2);
            bits::lemma_field32_with_field32_other(0, 10, 6, 6, 6, 4);
            bits::lemma_field32_of_zero(6, 4);
            bits::lemma_field32_with_field32_other(0, 10, 6, 6, 16, 16);
            bits::lemma_field32_of_zero(16, 16);
        }
        Self(TRB::new(AllowedType::Link))
    }

    /// Converts a TRB into a Link TRB.
    ///
    /// # Errors
    ///
    /// This method returns the given TRB if its TRB Type is not that of a Link TRB, or if one of
    /// its RsvdZ fields is not 0.
    pub fn try_from(block: TRB) -> (r: Result<Self, TRB>)
        ensures
            r is Ok <==> Self::valid(block@),
            r matches Ok(t) ==> t@ == block@,
            r matches Err(b) ==> b == block,
    {
        proof {
            bits::lemma_mask32_values();
        }
        match block.trb_type() {
            Some(AllowedType::Link) => {},
            _ => {
                return Err(block);
            },
        }
        if bits::get_bits_u32(block.0[0], 0, 4) != 0
            || bits::get_bits_u32(block.0[2], 0, 22) != 0
            || bits::get_bits_u32(block.0[3], 2, 2) != 0
            || bits::get_bits_u32(block.0[3], 6, 4) != 0
            || bits::get_bits_u32(block.0[3], 16, 16) != 0
        {
            return Err(block);
        }
        Ok(Self(block))
    }

    /// Converts the Link TRB into a raw TRB.
    pub fn into_trb(self) -> (r: TRB)
        ensures
            r@ == self@,
            Self::valid(r@),
    {
        proof {
            use_type_invariant(&self);
        }
        self.0
    }

    /// Returns the value of the Ring Segment Pointer field.
    pub fn ring_segment_pointer(&self) -> (r: u64)
        ensures
            r == bits::join64(bits::clear_low32(self@[0], 4), self@[1]),
    {
        let lo = self.0.0[0] >> 4 << 4;
        let hi = self.0.0[1];

        bits::join_halves(lo, hi)
    }

    /// Sets the value of the Ring Segment Pointer field.
    ///
    /// The value must be 16-byte aligned.
    pub fn set_ring_segment_pointer(&mut self, value: u64) -> (r: &mut Self)
        requires
            value % 16 == 0,
        ensures
            (*r)@ == old(self)@.update(0, bits::with_high32(old(self)@[0], 4, bits::low32(value))).update(
                1,
                bits::high32(value),
            ),
            *final(self) == *final(r),
    {
        proof {
            use_type_invariant(&*self);
            bits::lemma_mask32_values();
            bits::lemma_low32_aligned(value);
            bits::lemma_aligned32(bits::low32(value));
            bits::lemma_clear_low32_with_high32(old(self)@[0], 4, bits::low32(value));
        }
        let lo = bits::low_half(value);
        let hi = bits::high_half(value);

        self.0.0[0] = bits::set_high_bits_u32(self.0.0[0], 4, lo);
        self.0.0[1] = hi;
        self
    }

    /// Returns the Toggle Cycle bit.
    pub fn toggle_cycle(&self) -> (r: bool)
        ensures
            r == bits::bit32(self@[3], 1),
    {
        bits::get_bit_u32(self.0.0[3], 1)
    }

    /// Sets the Toggle Cycle bit.
    pub fn set_toggle_cycle(&mut self) -> (r: &mut Self)
        ensures
            (*r)@ == old(self)@.update(3, bits::with_bit32(old(self)@[3], 1, true)),
            *final(self) == *final(r),
    {
        proof {
            use_type_invariant(&*self);
            bits::lemma_mask32_values();
            bits::lemma_field32_with_bit32_other(old(self)@[3], 1, true, 10, 6);
            bits::lemma_field32_with_bit32_other(old(self)@[3], 1, true, 2, 2);
            bits::lemma_field32_with_bit32_other(old(self)@[3], 1, true, 6, 4);
            bits::lemma_field32_with_bit32_other(old(self)@[3], 1, true, 16, 16);
        }
        self.0.0[3] = bits::set_bit_u32(self.0.0[3], 1, true);
        self
    }

    /// Clears the Toggle Cycle bit.
    pub fn clear_toggle_cycle(&mut self) -> (r: &mut Self)
        ensures
            (*r)@ == old(self)@.update(3, bits::with_bit32(old(self)@[3], 1, false)),
            *final(self) == *final(r),
    {
        proof {
            use_type_invariant(&*self);
            bits::lemma_mask32_values();
            bits::lemma_field32_with_bit32_other(old(self)@[3], 1, false, 10, 6);
            bits::lemma_field32_with_bit32_other(old(self)@[3], 1, false, 2, 2);
            bits::lemma_field32_with_bit32_other(old(self)@[3], 1, false, 6, 4);
            bits::lemma_field32_with_bit32_other(old(self)@[3], 1, false, 16, 16);
        }
        self.0.0[3] = bits::set_bit_u32(self.0.0[3], 1, false);
        self
    }

    /// Returns the Interrupt On Completion bit.
    pub fn interrupt_on_completion(&self) -> (r: bool)
        ensures
            r == bits::bit32(self@[3], 5),
    {
        bits::get_bit_u32(self.0.0[3], 5)
    }

    /// Sets the Interrupt On Completion bit.
    pub fn set_interrupt_on_completion(&mut self) -> (r: &mut Self)
        ensures
            (*r)@ == old(self)@.update(3, bits::with_bit32(old(self)@[3], 5, true)),
            *final(self) == *final(r),
    {
        proof {
            use_type_invariant(&*self);
            bits::lemma_mask32_values();
            bits::lemma_field32_with_bit32_other(old(self)@[3], 5, true, 10, 6);
            bits::lemma_field32_with_bit32_other(old(self)@[3], 5, true, 2, 2);
            bits::lemma_field32_with_bit32_other(old(self)@[3], 5, true, 6, 4);
            bits::lemma_field32_with_bit32_other(old(self)@[3], 5, true, 16, 16);
        }
        self.0.0[3] = bits::set_bit_u32(self.0.0[3], 5, true);
        self
    }

    /// Clears the Interrupt On Completion bit.
    pub fn clear_interrupt_on_completion(&mut self) -> (r: &mut Self)
        ensures
            (*r)@ == old(self)@.update(3, bits::with_bit32(old(self)@[3], 5, false)),
            *final(self) == *final(r),
    {
        proof {
            use_type_invariant(&*self);
            bits::lemma_mask32_values();
            bits::lemma_field32_with_bit32_other(old(self)@[3], 5, false, 10, 6);
            bits::lemma_field32_with_bit32_other(old(self)@[3], 5, false, 2, 2);
            bits::lemma_field32_with_bit32_other(old(self)@[3], 5, false, 6, 4);
            bits::lemma_field32_with_bit32_other(old(self)@[3], 5, false, 16, 16);
        }
        self.0.0[3] = bits::set_bit_u32(self.0.0[3], 5, false);
        self
    }
}

impl Default for Link {
    fn default() -> (r: Self)
        ensures
            r@ == seq![0u32, 0u32, 0u32, bits::with_field32(0, 10, 6, 6)],
    {
        Self::new()
    }
}

/// An Enable Slot Command TRB.
#[derive(Clone, Copy, Debug, PartialEq, Eq, Hash)]
pub struct EnableSlot(TRB);

impl View for EnableSlot {
    type V = Seq<u32>;

    closed spec fn view(&self) -> Seq<u32> {
        self.0@
    }
}

impl EnableSlot {
    /// Whether `raw` is an Enable Slot Command TRB: its TRB Type is 9 and its RsvdZ fields are 0.
    pub open spec fn valid(raw: Seq<u32>) -> bool {
        &&& bits::field32(raw[3], 10, 6) == 9
        &&& raw[0] == 0
        &&& raw[1] == 0
        &&& raw[2] == 0
        &&& bits::field32(raw[3], 1, 9) == 0
        &&& bits::field32(raw[3], 21, 11) == 0
    }

    /// Every Enable Slot Command TRB passes its own check: `valid` holds of its Dwords.
    #[verifier::type_invariant]
    spec fn is_accepted(&self) -> bool {
        Self::valid(self@)
    }

    /// Creates a new Enable Slot Command TRB.
    ///
    /// This method sets the value of the TRB Type field properly. All the other fields are set
    /// to 0.
    pub fn new() -> (r: Self)
        ensures
            r@ == seq![0u32, 0u32, 0u32, bits::with_field32(0, 10, 6, 9)],
            Self::valid(r@),
    {
        proof {
            bits::lemma_mask32_values();
            bits::lemma_field32_with_field32_same(0, 10, 6, 9);
            bits::lemma_field32_with_field32_other(0, 10, 6, 9, 1, 9);
            bits::lemma_field32_of_zero(1, 9);
            bits::lemma_field32_with_field32_other(0, 10, 6, 9, 21, 11);
            bits::lemma_field32_of_zero(21, 11);
        }
        Self(TRB::new(AllowedType::EnableSlot))
    }

    /// Converts a TRB into an Enable Slot Command TRB.
    ///
    /// # Errors
    ///
    /// This method returns the given TRB if its TRB Type is not that of an Enable Slot Command TRB,
    /// or if one of its RsvdZ fields is not 0.
    pub fn try_from(block: TRB) -> (r: Result<Self, TRB>)
        ensures
            r is Ok <==> Self::valid(block@),
            r matches Ok(t) ==> t@ == block@,
            r matches Err(b) ==> b == block,
    {
        proof {
            bits::lemma_mask32_values();
        }
        match block.trb_type() {
            Some(AllowedType::EnableSlot) => {},
            _ => {
                return Err(block);
            },
        }
        if block.0[0] != 0
            || block.0[1] != 0
            || block.0[2] != 0
            || bits::get_bits_u32(block.0[3], 1, 9) != 0
            || bits::get_bits_u32(block.0[3], 21, 11) != 0
        {
            return Err(block);
        }
        Ok(Self(block))
    }

    /// Converts the Enable Slot Command TRB into a raw TRB.
    pub fn into_trb(self) -> (r: TRB)
        ensures
            r@ == self@,
            Self::valid(r@),
    {
        proof {
            use_type_invariant(&self);
        }
        self.0
    }

    /// Returns the value of the Slot Type field.
    pub fn slot_type(&self) -> (r: u8)
        ensures
            r == bits::field32(self@[3], 16, 5),
    {
        proof {
            bits::lemma_mask32_values();
        }
        bits::get_bits_u32(self.0.0[3], 16, 5) as u8
    }

    /// Sets the value of the Slot Type field.
    ///
    /// The value must fit in the 5 bits of the field.
    pub fn set_slot_type(&mut self, value: u8) -> (r: &mut Self)
        requires
            value < 32,
        ensures
            (*r)@ == old(self)@.update(3, bits::with_field32(old(self)@[3], 16, 5, value as u32)),
            *final(self) == *final(r),
    {
        proof {
            use_type_invariant(&*self);
            bits::lemma_mask32_values();
            bits::lemma_field32_with_field32_other(old(self)@[3], 16, 5, value as u32, 10, 6);
            bits::lemma_field32_with_field32_other(old(self)@[3], 16, 5, value as u32, 1, 9);
            bits::lemma_field32_with_field32_other(old(self)@[3], 16, 5, value as u32, 21, 11);
        }
        self.0.0[3] = bits::set_bits_u32(self.0.0[3], 16, 5, value as u32);
        self
    }
}

impl Default for EnableSlot {
    fn default() -> (r: Self)
        ensures
            r@ == seq![0u32, 0u32, 0u32, bits::with_field32(0, 10, 6, 9)],
    {
        Self::new()
    }
}

/// A Disable Slot Command TRB.
#[derive(Clone, Copy, Debug, PartialEq, Eq, Hash)]
pub struct DisableSlot(TRB);

impl View for DisableSlot {
    type V = Seq<u32>;

    closed spec fn view(&self) -> Seq<u32> {
        self.0@
    }
}

impl DisableSlot {
    /// Whether `raw` is a Disable Slot Command TRB: its TRB Type is 10 and its RsvdZ fields are 0.
    pub open spec fn valid(raw: Seq<u32>) -> bool {
        &&& bits::field32(raw[3], 10, 6) == 10
        &&& raw[0] == 0
        &&& raw[1] == 0
        &&& raw[2] == 0
        &&& bits::field32(raw[3], 1, 9) == 0
        &&& bits::field32(raw[3], 16, 8) == 0
    }

    /// Every Disable Slot Command TRB passes its own check: `valid` holds of its Dwords.
    #[verifier::type_invariant]
    spec fn is_accepted(&self) -> bool {
        Self::valid(self@)
    }

    /// Creates a new Disable Slot Command TRB.
    ///
    /// This method sets the value of the TRB Type field properly. All the other fields are set
    /// to 0.
    pub fn new() -> (r: Self)
        ensures
            r@ == seq![0u32, 0u32, 0u32, bits::with_field32(0, 10, 6, 10)],
            Self::valid(r@),
    {
        proof {
            bits::lemma_mask32_values();
            bits::lemma_field32_with_field32_same(0, 10, 6, 10);
            bits::lemma_field32_with_field32_other(0, 10, 6, 10, 1, 9);
            bits::lemma_field32_of_zero(1, 9);
            bits::lemma_field32_with_field32_other(0, 10, 6, 10, 16, 8);
            bits::lemma_field32_of_zero(16, 8);
        }
        Self(TRB::new(AllowedType::DisableSlot))
    }

    /// Converts a TRB into a Disable Slot Command TRB.
    ///
    /// # Errors
    ///
    /// This method returns the given TRB if its TRB Type is not that of a Disable Slot Command TRB,
    /// or if one of its RsvdZ fields is not 0.
    pub fn try_from(block: TRB) -> (r: Result<Self, TRB>)
        ensures
            r is Ok <==> Self::valid(block@),
            r matches Ok(t) ==> t@ == block@,
            r matches Err(b) ==> b == block,
    {
        proof {
            bits::lemma_mask32_values();
        }
        match block.trb_type() {
            Some(AllowedType::DisableSlot) => {},
            _ => {
                return Err(block);
            },
        }
        if block.0[0] != 0
            || block.0[1] != 0
            || block.0[2] != 0
            || bits::get_bits_u32(block.0[3], 1, 9) != 0
            || bits::get_bits_u32(block.0[3], 16, 8) != 0
        {
            return Err(block);
        }
        Ok(Self(block))
    }

    /// Converts the Disable Slot Command TRB into a raw TRB.
    pub fn into_trb(self) -> (r: TRB)
        ensures
            r@ == self@,
            Self::valid(r@),
    {
        proof {
            use_type_invariant(&self);
        }
        self.0
    }

    /// Returns the value of the Slot ID field.
    pub fn slot_id(&self) -> (r: u8)
        ensures
            r == bits::field32(self@[3], 24, 8),
    {
        proof {
            bits::lemma_mask32_values();
        }
        bits::get_bits_u32(self.0.0[3], 24, 8) as u8
    }

    /// Sets the value of the Slot ID field.
    pub fn set_slot_id(&mut self, value: u8) -> (r: &mut Self)
        ensures
            (*r)@ == old(self)@.update(3, bits::with_field32(old(self)@[3], 24, 8, value as u32)),
            *final(self) == *final(r),
    {
        proof {
            use_type_invariant(&*self);
            bits::lemma_mask32_values();
            bits::lemma_field32_with_field32_other(old(self)@[3], 24, 8, value as u32, 10, 6);
            bits::lemma_field32_with_field32_other(old(self)@[3], 24, 8, value as u32, 1, 9);
            bits::lemma_field32_with_field32_other(old(self)@[3], 24, 8, value as u32, 16, 8);
        }
        self.0.0[3] = bits::set_bits_u32(self.0.0[3], 24, 8, value as u32);
        self
    }
}

impl Default for DisableSlot {
    fn default() -> (r: Self)
        ensures
            r@ == seq![0u32, 0u32, 0u32, bits::with_field32(0, 10, 6, 10)],
    {
        Self::new()
    }
}

/// An Address Device Command TRB.
#[derive(Clone, Copy, Debug, PartialEq, Eq, Hash)]
pub struct AddressDevice(TRB);

impl View for AddressDevice {
    type V = Seq<u32>;

    closed spec fn view(&self) -> Seq<u32> {
        self.0@
    }
}

impl AddressDevice {
    /// Whether `raw` is an Address Device Command TRB: its TRB Type is 11 and its RsvdZ fields are
    /// 0.
    pub open spec fn valid(raw: Seq<u32>) -> bool {
        &&& bits::field32(raw[3], 10, 6) == 11
        &&& bits::field32(raw[0], 0, 4) == 0
        &&& raw[2] == 0
        &&& bits::field32(raw[3], 1, 8) == 0
        &&& bits::field32(raw[3], 16, 8) == 0
    }

    /// Every Address Device Command TRB passes its own check: `valid` holds of its Dwords.
    #[verifier::type_invariant]
    spec fn is_accepted(&self) -> bool {
        Self::valid(self@)
    }

    /// Creates a new Address Device Command TRB.
    ///
    /// This method sets the value of the TRB Type field properly. All the other fields are set
    /// to 0.
    pub fn new() -> (r: Self)
        ensures
            r@ == seq![0u32, 0u32, 0u32, bits::with_field32(0, 10, 6, 11)],
            Self::valid(r@),
    {
        proof {
            bits::lemma_mask32_values();
            bits::lemma_field32_with_field32_same(0, 10, 6, 11);
            bits::lemma_field32_of_zero(0, 4);
            bits::lemma_field32_with_field32_other(0, 10, 6, 11, 1, 8);
            bits::lemma_field32_of_zero(1, 8);
            bits::lemma_field32_with_field32_other(0, 10, 6, 11, 16, 8);
            bits::lemma_field32_of_zero(16, 8);
        }
        Self(TRB::new(AllowedType::AddressDevice))
    }

    /// Converts a TRB into an Address Device Command TRB.
    ///
    /// # Errors
    ///
    /// This method returns the given TRB if its TRB Type is not that of an Address Device Command
    /// TRB, or if one of its RsvdZ fields is not 0.
    pub fn try_from(block: TRB) -> (r: Result<Self, TRB>)
        ensures
            r is Ok <==> Self::valid(block@),
            r matches Ok(t) ==> t@ == block@,
            r matches Err(b) ==> b == block,
    {
        proof {
            bits::lemma_mask32_values();
        }
        match block.trb_type() {
            Some(AllowedType::AddressDevice) => {},
            _ => {
                return Err(block);
            },
        }
        if bits::get_bits_u32(block.0[0], 0, 4) != 0
            || block.0[2] != 0
            || bits::get_bits_u32(block.0[3], 1, 8) != 0
            || bits::get_bits_u32(block.0[3], 16, 8) != 0
        {
            return Err(block);
        }
        Ok(Self(block))
    }

    /// Converts the Address Device Command TRB into a raw TRB.
    pub fn into_trb(self) -> (r: TRB)
        ensures
            r@ == self@,
            Self::valid(r@),
    {
        proof {
            use_type_invariant(&self);
        }
        self.0
    }

    /// Returns the value of the Input Context Pointer field.
    pub fn input_context_pointer(&self) -> (r: u64)
        ensures
            r == bits::join64(bits::clear_low32(self@[0], 4), self@[1]),
    {
        let lo = self.0.0[0] >> 4 << 4;
        let hi = self.0.0[1];

        bits::join_halves(lo, hi)
    }

    /// Sets the value of the Input Context Pointer field.
    ///
    /// The value must be 16-byte aligned.
    pub fn set_input_context_pointer(&mut self, value: u64) -> (r: &mut Self)
        requires
            value % 16 == 0,
        ensures
            (*r)@ == old(self)@.update(0, bits::with_high32(old(self)@[0], 4, bits::low32(value))).update(
                1,
                bits::high32(value),
            ),
            *final(self) == *final(r),
    {
        proof {
            use_type_invariant(&*self);
            bits::lemma_mask32_values();
            bits::lemma_low32_aligned(value);
            bits::lemma_aligned32(bits::low32(value));
            bits::lemma_clear_low32_with_high32(old(self)@[0], 4, bits::low32(value));
        }
        let lo = bits::low_half(value);
        let hi = bits::high_half(value);

        self.0.0[0] = bits::set_high_bits_u32(self.0.0[0], 4, lo);
        self.0.0[1] = hi;
        self
    }

    /// Returns the Block Set Address Request bit.
    pub fn block_set_address_request(&self) -> (r: bool)
        ensures
            r == bits::bit32(self@[3], 9),
    {
        bits::get_bit_u32(self.0.0[3], 9)
    }

    /// Sets the Block Set Address Request bit.
    pub fn set_block_set_address_request(&mut self) -> (r: &mut Self)
        ensures
            (*r)@ == old(self)@.update(3, bits::with_bit32(old(self)@[3], 9, true)),
            *final(self) == *final(r),
    {
        proof {
            use_type_invariant(&*self);
            bits::lemma_mask32_values();
            bits::lemma_field32_with_bit32_other(old(self)@[3], 9, true, 10, 6);
            bits::lemma_field32_with_bit32_other(old(self)@[3], 9, true, 1, 8);
            bits::lemma_field32_with_bit32_other(old(self)@[3], 9, true, 16, 8);
        }
        self.0.0[3] = bits::set_bit_u32(self.0.0[3], 9, true);
        self
    }

    /// Clears the Block Set Address Request bit.
    pub fn clear_block_set_address_request(&mut self) -> (r: &mut Self)
        ensures
            (*r)@ == old(self)@.update(3, bits::with_bit32(old(self)@[3], 9, false)),
            *final(self) == *final(r),
    {
        proof {
            use_type_invariant(&*self);
            bits::lemma_mask32_values();
            bits::lemma_field32_with_bit32_other(old(self)@[3], 9, false, 10, 6);
            bits::lemma_field32_with_bit32_other(old(self)@[3], 9, false, 1, 8);
            bits::lemma_field32_with_bit32_other(old(self)@[3], 9, false, 16, 8);
        }
        self.0.0[3] = bits::set_bit_u32(self.0.0[3], 9, false);
        self
    }

    /// Returns the value of the Slot ID field.
    pub fn slot_id(&self) -> (r: u8)
        ensures
            r == bits::field32(self@[3], 24, 8),
    {
        proof {
            bits::lemma_mask32_values();
        }
        bits::get_bits_u32(self.0.0[3], 24, 8) as u8
    }

    /// Sets the value of the Slot ID field.
    pub fn set_slot_id(&mut self, value: u8) -> (r: &mut Self)
        ensures
            (*r)@ == old(self)@.update(3, bits::with_field32(old(self)@[3], 24, 8, value as u32)),
            *final(self) == *final(r),
    {
        proof {
            use_type_invariant(&*self);
            bits::lemma_mask32_values();
            bits::lemma_field32_with_field32_other(old(self)@[3], 24, 8, value as u32, 10, 6);
            bits::lemma_field32_with_field32_other(old(self)@[3], 24, 8, value as u32, 1, 8);
            bits::lemma_field32_with_field32_other(old(self)@[3], 24, 8, value as u32, 16, 8);
        }
        self.0.0[3] = bits::set_bits_u32(self.0.0[3], 24, 8, value as u32);
        self
    }
}

impl Default for AddressDevice {
    fn default() -> (r: Self)
        ensures
            r@ == seq![0u32, 0u32, 0u32, bits::with_field32(0, 10, 6, 11)],
    {
        Self::new()
    }
}

/// A Configure Endpoint Command TRB.
#[derive(Clone, Copy, Debug, PartialEq, Eq, Hash)]
pub struct ConfigureEndpoint(TRB);

impl View for ConfigureEndpoint {
    type V = Seq<u32>;

    closed spec fn view(&self) -> Seq<u32> {
        self.0@
    }
}

impl ConfigureEndpoint {
    /// Whether `raw` is a Configure Endpoint Command TRB: its TRB Type is 12 and its RsvdZ fields
    /// are 0.
    pub open spec fn valid(raw: Seq<u32>) -> bool {
        &&& bits::field32(raw[3], 10, 6) == 12
        &&& bits::field32(raw[0], 0, 4) == 0
        &&& raw[2] == 0
        &&& bits::field32(raw[3], 1, 8) == 0
        &&& bits::field32(raw[3], 16, 8) == 0
    }

    /// Every Configure Endpoint Command TRB passes its own check: `valid` holds of its Dwords.
    #[verifier::type_invariant]
    spec fn is_accepted(&self) -> bool {
        Self::valid(self@)
    }

    /// Creates a new Configure Endpoint Command TRB.
    ///
    /// This method sets the value of the TRB Type field properly. All the other fields are set
    /// to 0.
    pub fn new() -> (r: Self)
        ensures
            r@ == seq![0u32, 0u32, 0u32, bits::with_field32(0, 10, 6, 12)],
            Self::valid(r@),
    {
        proof {
            bits::lemma_mask32_values();
            bits::lemma_field32_with_field32_same(0, 10, 6, 12);
            bits::lemma_field32_of_zero(0, 4);
            bits::lemma_field32_with_field32_other(0, 10, 6, 12, 1, 8);
            bits::lemma_field32_of_zero(1, 8);
            bits::lemma_field32_with_field32_other(0, 10, 6, 12, 16, 8);
            bits::lemma_field32_of_zero(16, 8);
        }
        Self(TRB::new(AllowedType::ConfigureEndpoint))
    }

    /// Converts a TRB into a Configure Endpoint Command TRB.
    ///
    /// # Errors
    ///
    /// This method returns the given TRB if its TRB Type is not that of a Configure Endpoint
    /// Command TRB, or if one of its RsvdZ fields is not 0.
    pub fn try_from(block: TRB) -> (r: Result<Self, TRB>)
        ensures
            r is Ok <==> Self::valid(block@),
            r matches Ok(t) ==> t@ == block@,
            r matches Err(b) ==> b == block,
    {
        proof {
            bits::lemma_mask32_values();
        }
        match block.trb_type() {
            Some(AllowedType::ConfigureEndpoint) => {},
            _ => {
                return Err(block);
            },
        }
        if bits::get_bits_u32(block.0[0], 0, 4) != 0
            || block.0[2] != 0
            || bits::get_bits_u32(block.0[3], 1, 8) != 0
            || bits::get_bits_u32(block.0[3], 16, 8) != 0
        {
            return Err(block);
        }
        Ok(Self(block))
    }

    /// Converts the Configure Endpoint Command TRB into a raw TRB.
    pub fn into_trb(self) -> (r: TRB)
        ensures
            r@ == self@,
            Self::valid(r@),
    {
        proof {
            use_type_invariant(&self);
        }
        self.0
    }

    /// Returns the value of the Input Context Pointer field.
    pub fn input_context_pointer(&self) -> (r: u64)
        ensures
            r == bits::join64(bits::clear_low32(self@[0], 4), self@[1]),
    {
        let lo = self.0.0[0] >> 4 << 4;
        let hi = self.0.0[1];

        bits::join_halves(lo, hi)
    }

    /// Sets the value of the Input Context Pointer field.
    ///
    /// The value must be 16-byte aligned.
    pub fn set_input_context_pointer(&mut self, value: u64) -> (r: &mut Self)
        requires
            value % 16 == 0,
        ensures
            (*r)@ == old(self)@.update(0, bits::with_high32(old(self)@[0], 4, bits::low32(value))).update(
                1,
                bits::high32(value),
            ),
            *final(self) == *final(r),
    {
        proof {
            use_type_invariant(&*self);
            bits::lemma_mask32_values();
            bits::lemma_low32_aligned(value);
            bits::lemma_aligned32(bits::low32(value));
            bits::lemma_clear_low32_with_high32(old(self)@[0], 4, bits::low32(value));
        }
        let lo = bits::low_half(value);
        let hi = bits::high_half(value);

        self.0.0[0] = bits::set_high_bits_u32(self.0.0[0], 4, lo);
        self.0.0[1] = hi;
        self
    }

    /// Returns the Deconfigure bit.
    pub fn deconfigure(&self) -> (r: bool)
        ensures
            r == bits::bit32(self@[3], 9),
    {
        bits::get_bit_u32(self.0.0[3], 9)
    }

    /// Sets the Deconfigure bit.
    pub fn set_deconfigure(&mut self) -> (r: &mut Self)
        ensures
            (*r)@ == old(self)@.update(3, bits::with_bit32(old(self)@[3], 9, true)),
            *final(self) == *final(r),
    {
        proof {
            use_type_invariant(&*self);
            bits::lemma_mask32_values();
            bits::lemma_field32_with_bit32_other(old(self)@[3], 9, true, 10, 6);
            bits::lemma_field32_with_bit32_other(old(self)@[3], 9, true, 1, 8);
            bits::lemma_field32_with_bit32_other(old(self)@[3], 9, true, 16, 8);
        }
        self.0.0[3] = bits::set_bit_u32(self.0.0[3], 9, true);
        self
    }

    /// Clears the Deconfigure bit.
    pub fn clear_deconfigure(&mut self) -> (r: &mut Self)
        ensures
            (*r)@ == old(self)@.update(3, bits::with_bit32(old(self)@[3], 9, false)),
            *final(self) == *final(r),
    {
        proof {
            use_type_invariant(&*self);
            bits::lemma_mask32_values();
            bits::lemma_field32_with_bit32_other(old(self)@[3], 9, false, 10, 6);
            bits::lemma_field32_with_bit32_other(old(self)@[3], 9, false, 1, 8);
            bits::lemma_field32_with_bit32_other(old(self)@[3], 9, false, 16, 8);
        }
        self.0.0[3] = bits::set_bit_u32(self.0.0[3], 9, false);
        self
    }

    /// Returns the value of the Slot ID field.
    pub fn slot_id(&self) -> (r: u8)
        ensures
            r == bits::field32(self@[3], 24, 8),
    {
        proof {
            bits::lemma_mask32_values();
        }
        bits::get_bits_u32(self.0.0[3], 24, 8) as u8
    }

    /// Sets the value of the Slot ID field.
    pub fn set_slot_id(&mut self, value: u8) -> (r: &mut Self)
        ensures
            (*r)@ == old(self)@.update(3, bits::with_field32(old(self)@[3], 24, 8, value as u32)),
            *final(self) == *final(r),
    {
        proof {
            use_type_invariant(&*self);
            bits::lemma_mask32_values();
            bits::lemma_field32_with_field32_other(old(self)@[3], 24, 8, value as u32, 10, 6);
            bits::lemma_field32_with_field32_other(old(self)@[3], 24, 8, value as u32, 1, 8);
            bits::lemma_field32_with_field32_other(old(self)@[3], 24, 8, value as u32, 16, 8);
        }
        self.0.0[3] = bits::set_bits_u32(self.0.0[3], 24, 8, value as u32);
        self
    }
}

impl Default for ConfigureEndpoint {
    fn default() -> (r: Self)
        ensures
            r@ == seq![0u32, 0u32, 0u32, bits::with_field32(0, 10, 6, 12)],
    {
        Self::new()
    }
}

/// An Evaluate Context Command TRB.
#[derive(Clone, Copy, Debug, PartialEq, Eq, Hash)]
pub struct EvaluateContext(TRB);

impl View for EvaluateContext {
    type V = Seq<u32>;

    closed spec fn view(&self) -> Seq<u32> {
        self.0@
    }
}

impl EvaluateContext {
    /// Whether `raw` is an Evaluate Context Command TRB: its TRB Type is 13 and its RsvdZ fields
    /// are 0.
    pub open spec fn valid(raw: Seq<u32>) -> bool {
        &&& bits::field32(raw[3], 10, 6) == 13
        &&& bits::field32(raw[0], 0, 4) == 0
        &&& raw[2] == 0
        &&& bits::field32(raw[3], 1, 8) == 0
        &&& bits::field32(raw[3], 16, 8) == 0
    }

    /// Every Evaluate Context Command TRB passes its own check: `valid` holds of its Dwords.
    #[verifier::type_invariant]
    spec fn is_accepted(&self) -> bool {
        Self::valid(self@)
    }

    /// Creates a new Evaluate Context Command TRB.
    ///
    /// This method sets the value of the TRB Type field properly. All the other fields are set
    /// to 0.
    pub fn new() -> (r: Self)
        ensures
            r@ == seq![0u32, 0u32, 0u32, bits::with_field32(0, 10, 6, 13)],
            Self::valid(r@),
    {
        proof {
            bits::lemma_mask32_values();
            bits::lemma_field32_with_field32_same(0, 10, 6, 13);
            bits::lemma_field32_of_zero(0, 4);
            bits::lemma_field32_with_field32_other(0, 10, 6, 13, 1, 8);
            bits::lemma_field32_of_zero(1, 8);
            bits::lemma_field32_with_field32_other(0, 10, 6, 13, 16, 8);
            bits::lemma_field32_of_zero(16, 8);
        }
        Self(TRB::new(AllowedType::EvaluateContext))
    }

    /// Converts a TRB into an Evaluate Context Command TRB.
    ///
    /// # Errors
    ///
    /// This method returns the given TRB if its TRB Type is not that of an Evaluate Context Command
    /// TRB, or if one of its RsvdZ fields is not 0.
    pub fn try_from(block: TRB) -> (r: Result<Self, TRB>)
        ensures
            r is Ok <==> Self::valid(block@),
            r matches Ok(t) ==> t@ == block@,
            r matches Err(b) ==> b == block,
    {
        proof {
            bits::lemma_mask32_values();
        }
        match block.trb_type() {
            Some(AllowedType::EvaluateContext) => {},
            _ => {
                return Err(block);
            },
        }
        if bits::get_bits_u32(block.0[0], 0, 4) != 0
            || block.0[2] != 0
            || bits::get_bits_u32(block.0[3], 1, 8) != 0
            || bits::get_bits_u32(block.0[3], 16, 8) != 0
        {
            return Err(block);
        }
        Ok(Self(block))
    }

    /// Converts the Evaluate Context Command TRB into a raw TRB.
    pub fn into_trb(self) -> (r: TRB)
        ensures
            r@ == self@,
            Self::valid(r@),
    {
        proof {
            use_type_invariant(&self);
        }
        self.0
    }

    /// Returns the value of the Input Context Pointer field.
    pub fn input_context_pointer(&self) -> (r: u64)
        ensures
            r == bits::join64(bits::clear_low32(self@[0], 4), self@[1]),
    {
        let lo = self.0.0[0] >> 4 << 4;
        let hi = self.0.0[1];

        bits::join_halves(lo, hi)
    }

    /// Sets the value of the Input Context Pointer field.
    ///
    /// The value must be 16-byte aligned.
    pub fn set_input_context_pointer(&mut self, value: u64) -> (r: &mut Self)
        requires
            value % 16 == 0,
        ensures
            (*r)@ == old(self)@.update(0, bits::with_high32(old(self)@[0], 4, bits::low32(value))).update(
                1,
                bits::high32(value),
            ),
            *final(self) == *final(r),
    {
        proof {
            use_type_invariant(&*self);
            bits::lemma_mask32_values();
            bits::lemma_low32_aligned(value);
            bits::lemma_aligned32(bits::low32(value));
            bits::lemma_clear_low32_with_high32(old(self)@[0], 4, bits::low32(value));
        }
        let lo = bits::low_half(value);
        let hi = bits::high_half(value);

        self.0.0[0] = bits::set_high_bits_u32(self.0.0[0], 4, lo);
        self.0.0[1] = hi;
        self
    }

    /// Returns the value of the Slot ID field.
    pub fn slot_id(&self) -> (r: u8)
        ensures
            r == bits::field32(self@[3], 24, 8),
    {
        proof {
            bits::lemma_mask32_values();
        }
        bits::get_bits_u32(self.0.0[3], 24, 8) as u8
    }

    /// Sets the value of the Slot ID field.
    pub fn set_slot_id(&mut self, value: u8) -> (r: &mut Self)
        ensures
            (*r)@ == old(self)@.update(3, bits::with_field32(old(self)@[3], 24, 8, value as u32)),
            *final(self) == *final(r),
    {
        proof {
            use_type_invariant(&*self);
            bits::lemma_mask32_values();
            bits::lemma_field32_with_field32_other(old(self)@[3], 24, 8, value as u32, 10, 6);
            bits::lemma_field32_with_field32_other(old(self)@[3], 24, 8, value as u32, 1, 8);
            bits::lemma_field32_with_field32_other(old(self)@[3], 24, 8, value as u32, 16, 8);
        }
        self.0.0[3] = bits::set_bits_u32(self.0.0[3], 24, 8, value as u32);
        self
    }
}

impl Default for EvaluateContext {
    fn default() -> (r: Self)
        ensures
            r@ == seq![0u32, 0u32, 0u32, bits::with_field32(0, 10, 6, 13)],
    {
        Self::new()
    }
}

/// A Reset Endpoint Command TRB.
#[derive(Clone, Copy, Debug, PartialEq, Eq, Hash)]
pub struct ResetEndpoint(TRB);

impl View for ResetEndpoint {
    type V = Seq<u32>;

    closed spec fn view(&self) -> Seq<u32> {
        self.0@
    }
}

impl ResetEndpoint {
    /// Whether `raw` is a Reset Endpoint Command TRB: its TRB Type is 14 and its RsvdZ fields are
    /// 0.
    pub open spec fn valid(raw: Seq<u32>) -> bool {
        &&& bits::field32(raw[3], 10, 6) == 14
        &&& raw[0] == 0
        &&& raw[1] == 0
        &&& raw[2] == 0
        &&& bits::field32(raw[3], 1, 8) == 0
        &&& bits::field32(raw[3], 21, 3) == 0
    }

    /// Every Reset Endpoint Command TRB passes its own check: `valid` holds of its Dwords.
    #[verifier::type_invariant]
    spec fn is_accepted(&self) -> bool {
        Self::valid(self@)
    }

    /// Creates a new Reset Endpoint Command TRB.
    ///
    /// This method sets the value of the TRB Type field properly. All the other fields are set
    /// to 0.
    pub fn new() -> (r: Self)
        ensures
            r@ == seq![0u32, 0u32, 0u32, bits::with_field32(0, 10, 6, 14)],
            Self::valid(r@),
    {
        proof {
            bits::lemma_mask32_values();
            bits::lemma_field32_with_field32_same(0, 10, 6, 14);
            bits::lemma_field32_with_field32_other(0, 10, 6, 14, 1, 8);
            bits::lemma_field32_of_zero(1, 8);
            bits::lemma_field32_with_field32_other(0, 10, 6, 14, 21, 3);
            bits::lemma_field32_of_zero(21, 3);
        }
        Self(TRB::new(AllowedType::ResetEndpoint))
    }

    /// Converts a TRB into a Reset Endpoint Command TRB.
    ///
    /// # Errors
    ///
    /// This method returns the given TRB if its TRB Type is not that of a Reset Endpoint Command
    /// TRB, or if one of its RsvdZ fields is not 0.
    pub fn try_from(block: TRB) -> (r: Result<Self, TRB>)
        ensures
            r is Ok <==> Self::valid(block@),
            r matches Ok(t) ==> t@ == block@,
            r matches Err(b) ==> b == block,
    {
        proof {
            bits::lemma_mask32_values();
        }
        match block.trb_type() {
            Some(AllowedType::ResetEndpoint) => {},
            _ => {
                return Err(block);
            },
        }
        if block.0[0] != 0
            || block.0[1] != 0
            || block.0[2] != 0
            || bits::get_bits_u32(block.0[3], 1, 8) != 0
            || bits::get_bits_u32(block.0[3], 21, 3) != 0
        {
            return Err(block);
        }
        Ok(Self(block))
    }

    /// Converts the Reset Endpoint Command TRB into a raw TRB.
    pub fn into_trb(self) -> (r: TRB)
        ensures
            r@ == self@,
            Self::valid(r@),
    {
        proof {
            use_type_invariant(&self);
        }
        self.0
    }

    /// Returns the Transfer State Preserve bit.
    pub fn transfer_state_preserve(&self) -> (r: bool)
        ensures
            r == bits::bit32(self@[3], 9),
    {
        bits::get_bit_u32(self.0.0[3], 9)
    }

    /// Sets the Transfer State Preserve bit.
    pub fn set_transfer_state_preserve(&mut self) -> (r: &mut Self)
        ensures
            (*r)@ == old(self)@.update(3, bits::with_bit32(old(self)@[3], 9, true)),
            *final(self) == *final(r),
    {
        proof {
            use_type_invariant(&*self);
            bits::lemma_mask32_values();
            bits::lemma_field32_with_bit32_other(old(self)@[3], 9, true, 10, 6);
            bits::lemma_field32_with_bit32_other(old(self)@[3], 9, true, 1, 8);
            bits::lemma_field32_with_bit32_other(old(self)@[3], 9, true, 21, 3);
        }
        self.0.0[3] = bits::set_bit_u32(self.0.0[3], 9, true);
        self
    }

    /// Clears the Transfer State Preserve bit.
    pub fn clear_transfer_state_preserve(&mut self) -> (r: &mut Self)
        ensures
            (*r)@ == old(self)@.update(3, bits::with_bit32(old(self)@[3], 9, false)),
            *final(self) == *final(r),
    {
        proof {
            use_type_invariant(&*self);
            bits::lemma_mask32_values();
            bits::lemma_field32_with_bit32_other(old(self)@[3], 9, false, 10, 6);
            bits::lemma_field32_with_bit32_other(old(self)@[3], 9, false, 1, 8);
            bits::lemma_field32_with_bit32_other(old(self)@[3], 9, false, 21, 3);
        }
        self.0.0[3] = bits::set_bit_u32(self.0.0[3], 9, false);
        self
    }

    /// Returns the value of the Endpoint ID field.
    pub fn endpoint_id(&self) -> (r: u8)
        ensures
            r == bits::field32(self@[3], 16, 5),
    {
        proof {
            bits::lemma_mask32_values();
        }
        bits::get_bits_u32(self.0.0[3], 16, 5) as u8
    }

    /// Sets the value of the Endpoint ID field.
    ///
    /// The value must fit in the 5 bits of the field.
    pub fn set_endpoint_id(&mut self, value: u8) -> (r: &mut Self)
        requires
            value < 32,
        ensures
            (*r)@ == old(self)@.update(3, bits::with_field32(old(self)@[3], 16, 5, value as u32)),
            *final(self) == *final(r),
    {
        proof {
            use_type_invariant(&*self);
            bits::lemma_mask32_values();
            bits::lemma_field32_with_field32_other(old(self)@[3], 16, 5, value as u32, 10, 6);
            bits::lemma_field32_with_field32_other(old(self)@[3], 16, 5, value as u32, 1, 8);
            bits::lemma_field32_with_field32_other(old(self)@[3], 16, 5, value as u32, 21, 3);
        }
        self.0.0[3] = bits::set_bits_u32(self.0.0[3], 16, 5, value as u32);
        self
    }

    /// Returns the value of the Slot ID field.
    pub fn slot_id(&self) -> (r: u8)
        ensures
            r == bits::field32(self@[3], 24, 8),
    {
        proof {
            bits::lemma_mask32_values();
        }
        bits::get_bits_u32(self.0.0[3], 24, 8) as u8
    }

    /// Sets the value of the Slot ID field.
    pub fn set_slot_id(&mut self, value: u8) -> (r: &mut Self)
        ensures
            (*r)@ == old(self)@.update(3, bits::with_field32(old(self)@[3], 24, 8, value as u32)),
            *final(self) == *final(r),
    {
        proof {
            use_type_invariant(&*self);
            bits::lemma_mask32_values();
            bits::lemma_field32_with_field32_other(old(self)@[3], 24, 8, value as u32, 10, 6);
            bits::lemma_field32_with_field32_other(old(self)@[3], 24, 8, value as u32, 1, 8);
            bits::lemma_field32_with_field32_other(old(self)@[3], 24, 8, value as u32, 21, 3);
        }
        self.0.0[3] = bits::set_bits_u32(self.0.0[3], 24, 8, value as u32);
        self
    }
}

impl Default for ResetEndpoint {
    fn default() -> (r: Self)
        ensures
            r@ == seq![0u32, 0u32, 0u32, bits::with_field32(0, 10, 6, 14)],
    {
        Self::new()
    }
}

/// A Stop Endpoint Command TRB.
#[derive(Clone, Copy, Debug, PartialEq, Eq, Hash)]
pub struct StopEndpoint(TRB);

impl View for StopEndpoint {
    type V = Seq<u32>;

    closed spec fn view(&self) -> Seq<u32> {
        self.0@
    }
}

impl StopEndpoint {
    /// Whether `raw` is a Stop Endpoint Command TRB: its TRB Type is 15 and its RsvdZ fields are 0.
    pub open spec fn valid(raw: Seq<u32>) -> bool {
        &&& bits::field32(raw[3], 10, 6) == 15
        &&& raw[0] == 0
        &&& raw[1] == 0
        &&& raw[2] == 0
        &&& bits::field32(raw[3], 1, 9) == 0
        &&& bits::field32(raw[3], 21, 2) == 0
    }

    /// Every Stop Endpoint Command TRB passes its own check: `valid` holds of its Dwords.
    #[verifier::type_invariant]
    spec fn is_accepted(&self) -> bool {
        Self::valid(self@)
    }

    /// Creates a new Stop Endpoint Command TRB.
    ///
    /// This method sets the value of the TRB Type field properly. All the other fields are set
    /// to 0.
    pub fn new() -> (r: Self)
        ensures
            r@ == seq![0u32, 0u32, 0u32, bits::with_field32(0, 10, 6, 15)],
            Self::valid(r@),
    {
        proof {
            bits::lemma_mask32_values();
            bits::lemma_field32_with_field32_same(0, 10, 6, 15);
            bits::lemma_field32_with_field32_other(0, 10, 6, 15, 1, 9);
            bits::lemma_field32_of_zero(1, 9);
            bits::lemma_field32_with_field32_other(0, 10, 6, 15, 21, 2);
            bits::lemma_field32_of_zero(21, 2);
        }
        Self(TRB::new(AllowedType::StopEndpoint))
    }

    /// Converts a TRB into a Stop Endpoint Command TRB.
    ///
    /// # Errors
    ///
    /// This method returns the given TRB if its TRB Type is not that of a Stop Endpoint Command
    /// TRB, or if one of its RsvdZ fields is not 0.
    pub fn try_from(block: TRB) -> (r: Result<Self, TRB>)
        ensures
            r is Ok <==> Self::valid(block@),
            r matches Ok(t) ==> t@ == block@,
            r matches Err(b) ==> b == block,
    {
        proof {
            bits::lemma_mask32_values();
        }
        match block.trb_type() {
            Some(AllowedType::StopEndpoint) => {},
            _ => {
                return Err(block);
            },
        }
        if block.0[0] != 0
            || block.0[1] != 0
            || block.0[2] != 0
            || bits::get_bits_u32(block.0[3], 1, 9) != 0
            || bits::get_bits_u32(block.0[3], 21, 2) != 0
        {
            return Err(block);
        }
        Ok(Self(block))
    }

    /// Converts the Stop Endpoint Command TRB into a raw TRB.
    pub fn into_trb(self) -> (r: TRB)
        ensures
            r@ == self@,
            Self::valid(r@),
    {
        proof {
            use_type_invariant(&self);
        }
        self.0
    }

    /// Returns the value of the Endpoint ID field.
    pub fn endpoint_id(&self) -> (r: u8)
        ensures
            r == bits::field32(self@[3], 16, 5),
    {
        proof {
            bits::lemma_mask32_values();
        }
        bits::get_bits_u32(self.0.0[3], 16, 5) as u8
    }

    /// Sets the value of the Endpoint ID field.
    ///
    /// The value must fit in the 5 bits of the field.
    pub fn set_endpoint_id(&mut self, value: u8) -> (r: &mut Self)
        requires
            value < 32,
        ensures
            (*r)@ == old(self)@.update(3, bits::with_field32(old(self)@[3], 16, 5, value as u32)),
            *final(self) == *final(r),
    {
        proof {
            use_type_invariant(&*self);
            bits::lemma_mask32_values();
            bits::lemma_field32_with_field32_other(old(self)@[3], 16, 5, value as u32, 10, 6);
            bits::lemma_field32_with_field32_other(old(self)@[3], 16, 5, value as u32, 1, 9);
            bits::lemma_field32_with_field32_other(old(self)@[3], 16, 5, value as u32, 21, 2);
        }
        self.0.0[3] = bits::set_bits_u32(self.0.0[3], 16, 5, value as u32);
        self
    }

    /// Returns the Suspend bit.
    pub fn suspend(&self) -> (r: bool)
        ensures
            r == bits::bit32(self@[3], 23),
    {
        bits::get_bit_u32(self.0.0[3], 23)
    }

    /// Sets the Suspend bit.
    pub fn set_suspend(&mut self) -> (r: &mut Self)
        ensures
            (*r)@ == old(self)@.update(3, bits::with_bit32(old(self)@[3], 23, true)),
            *final(self) == *final(r),
    {
        proof {
            use_type_invariant(&*self);
            bits::lemma_mask32_values();
            bits::lemma_field32_with_bit32_other(old(self)@[3], 23, true, 10, 6);
            bits::lemma_field32_with_bit32_other(old(self)@[3], 23, true, 1, 9);
            bits::lemma_field32_with_bit32_other(old(self)@[3], 23, true, 21, 2);
        }
        self.0.0[3] = bits::set_bit_u32(self.0.0[3], 23, true);
        self
    }

    /// Clears the Suspend bit.
    pub fn clear_suspend(&mut self) -> (r: &mut Self)
        ensures
            (*r)@ == old(self)@.update(3, bits::with_bit32(old(self)@[3], 23, false)),
            *final(self) == *final(r),
    {
        proof {
            use_type_invariant(&*self);
            bits::lemma_mask32_values();
            bits::lemma_field32_with_bit32_other(old(self)@[3], 23, false, 10, 6);
            bits::lemma_field32_with_bit32_other(old(self)@[3], 23, false, 1, 9);
            bits::lemma_field32_with_bit32_other(old(self)@[3], 23, false, 21, 2);
        }
        self.0.0[3] = bits::set_bit_u32(self.0.0[3], 23, false);
        self
    }

    /// Returns the value of the Slot ID field.
    pub fn slot_id(&self) -> (r: u8)
        ensures
            r == bits::field32(self@[3], 24, 8),
    {
        proof {
            bits::lemma_mask32_values();
        }
        bits::get_bits_u32(self.0.0[3], 24, 8) as u8
    }

    /// Sets the value of the Slot ID field.
    pub fn set_slot_id(&mut self, value: u8) -> (r: &mut Self)
        ensures
            (*r)@ == old(self)@.update(3, bits::with_field32(old(self)@[3], 24, 8, value as u32)),
            *final(self) == *final(r),
    {
        proof {
            use_type_invariant(&*self);
            bits::lemma_mask32_values();
            bits::lemma_field32_with_field32_other(old(self)@[3], 24, 8, value as u32, 10, 6);
            bits::lemma_field32_with_field32_other(old(self)@[3], 24, 8, value as u32, 1, 9);
            bits::lemma_field32_with_field32_other(old(self)@[3], 24, 8, value as u32, 21, 2);
        }
        self.0.0[3] = bits::set_bits_u32(self.0.0[3], 24, 8, value as u32);
        self
    }
}

impl Default for StopEndpoint {
    fn default() -> (r: Self)
        ensures
            r@ == seq![0u32, 0u32, 0u32, bits::with_field32(0, 10, 6, 15)],
    {
        Self::new()
    }
}

/// A Set TR Dequeue Pointer Command TRB.
#[derive(Clone, Copy, Debug, PartialEq, Eq, Hash)]
pub struct SetTrDequeuePointer(TRB);

impl View for SetTrDequeuePointer {
    type V = Seq<u32>;

    closed spec fn view(&self) -> Seq<u32> {
        self.0@
    }
}

impl SetTrDequeuePointer {
    /// Whether `raw` is a Set TR Dequeue Pointer Command TRB: its TRB Type is 16 and its RsvdZ
    /// fields are 0.
    pub open spec fn valid(raw: Seq<u32>) -> bool {
        &&& bits::field32(raw[3], 10, 6) == 16
        &&& bits::field32(raw[2], 0, 16) == 0
        &&& bits::field32(raw[3], 1, 9) == 0
        &&& bits::field32(raw[3], 21, 3) == 0
    }

    /// Every Set TR Dequeue Pointer Command TRB passes its own check: `valid` holds of its Dwords.
    #[verifier::type_invariant]
    spec fn is_accepted(&self) -> bool {
        Self::valid(self@)
    }

    /// Creates a new Set TR Dequeue Pointer Command TRB.
    ///
    /// This method sets the value of the TRB Type field properly. All the other fields are set
    /// to 0.
    pub fn new() -> (r: Self)
        ensures
            r@ == seq![0u32, 0u32, 0u32, bits::with_field32(0, 10, 6, 16)],
            Self::valid(r@),
    {
        proof {
            bits::lemma_mask32_values();
            bits::lemma_field32_with_field32_same(0, 10, 6, 16);
            bits::lemma_field32_of_zero(0, 16);
            bits::lemma_field32_with_field32_other(0, 10, 6, 16, 1, 9);
            bits::lemma_field32_of_zero(1, 9);
            bits::lemma_field32_with_field32_other(0, 10, 6, 16, 21, 3);
            bits::lemma_field32_of_zero(21, 3);
        }
        Self(TRB::new(AllowedType::SetTrDequeuePointer))
    }

    /// Converts a TRB into a Set TR Dequeue Pointer Command TRB.
    ///
    /// # Errors
    ///
    /// This method returns the given TRB if its TRB Type is not that of a Set TR Dequeue Pointer
    /// Command TRB, or if one of its RsvdZ fields is not 0.
    pub fn try_from(block: TRB) -> (r: Result<Self, TRB>)
        ensures
            r is Ok <==> Self::valid(block@),
            r matches Ok(t) ==> t@ == block@,
            r matches Err(b) ==> b == block,
    {
        proof {
            bits::lemma_mask32_values();
        }
        match block.trb_type() {
            Some(AllowedType::SetTrDequeuePointer) => {},
            _ => {
                return Err(block);
            },
        }
        if bits::get_bits_u32(block.0[2], 0, 16) != 0
            || bits::get_bits_u32(block.0[3], 1, 9) != 0
            || bits::get_bits_u32(block.0[3], 21, 3) != 0
        {
            return Err(block);
        }
        Ok(Self(block))
    }

    /// Converts the Set TR Dequeue Pointer Command TRB into a raw TRB.
    pub fn into_trb(self) -> (r: TRB)
        ensures
            r@ == self@,
            Self::valid(r@),
    {
        proof {
            use_type_invariant(&self);
        }
        self.0
    }

    /// Returns the Dequeue Cycle State bit.
    pub fn dequeue_cycle_state(&self) -> (r: bool)
        ensures
            r == bits::bit32(self@[0], 0),
    {
        bits::get_bit_u32(self.0.0[0], 0)
    }

    /// Sets the Dequeue Cycle State bit.
    pub fn set_dequeue_cycle_state(&mut self) -> (r: &mut Self)
        ensures
            (*r)@ == old(self)@.update(0, bits::with_bit32(old(self)@[0], 0, true)),
            *final(self) == *final(r),
    {
        proof {
            use_type_invariant(&*self);
            bits::lemma_mask32_values();
        }
        self.0.0[0] = bits::set_bit_u32(self.0.0[0], 0, true);
        self
    }

    /// Clears the Dequeue Cycle State bit.
    pub fn clear_dequeue_cycle_state(&mut self) -> (r: &mut Self)
        ensures
            (*r)@ == old(self)@.update(0, bits::with_bit32(old(self)@[0], 0, false)),
            *final(self) == *final(r),
    {
        proof {
            use_type_invariant(&*self);
            bits::lemma_mask32_values();
        }
        self.0.0[0] = bits::set_bit_u32(self.0.0[0], 0, false);
        self
    }

    /// Returns the value of the Stream Context Type field.
    pub fn stream_context_type(&self) -> (r: u8)
        ensures
            r == bits::field32(self@[0], 1, 3),
    {
        proof {
            bits::lemma_mask32_values();
        }
        bits::get_bits_u32(self.0.0[0], 1, 3) as u8
    }

    /// Sets the value of the Stream Context Type field.
    ///
    /// The value must fit in the 3 bits of the field.
    pub fn set_stream_context_type(&mut self, value: u8) -> (r: &mut Self)
        requires
            value < 8,
        ensures
            (*r)@ == old(self)@.update(0, bits::with_field32(old(self)@[0], 1, 3, value as u32)),
            *final(self) == *final(r),
    {
        proof {
            use_type_invariant(&*self);
            bits::lemma_mask32_values();
        }
        self.0.0[0] = bits::set_bits_u32(self.0.0[0], 1, 3, value as u32);
        self
    }

    /// Returns the value of the New TR Dequeue Pointer field.
    pub fn new_tr_dequeue_pointer(&self) -> (r: u64)
        ensures
            r == bits::join64(bits::clear_low32(self@[0], 4), self@[1]),
    {
        let lo = self.0.0[0] >> 4 << 4;
        let hi = self.0.0[1];

        bits::join_halves(lo, hi)
    }

    /// Sets the value of the New TR Dequeue Pointer field.
    ///
    /// The value must be 16-byte aligned.
    pub fn set_new_tr_dequeue_pointer(&mut self, value: u64) -> (r: &mut Self)
        requires
            value % 16 == 0,
        ensures
            (*r)@ == old(self)@.update(0, bits::with_high32(old(self)@[0], 4, bits::low32(value))).update(
                1,
                bits::high32(value),
            ),
            *final(self) == *final(r),
    {
        proof {
            use_type_invariant(&*self);
            bits::lemma_mask32_values();
            bits::lemma_low32_aligned(value);
            bits::lemma_aligned32(bits::low32(value));
        }
        let lo = bits::low_half(value);
        let hi = bits::high_half(value);

        self.0.0[0] = bits::set_high_bits_u32(self.0.0[0], 4, lo);
        self.0.0[1] = hi;
        self
    }

    /// Returns the value of the Stream ID field.
    pub fn stream_id(&self) -> (r: u16)
        ensures
            r == bits::field32(self@[2], 16, 16),
    {
        proof {
            bits::lemma_mask32_values();
        }
        bits::get_bits_u32(self.0.0[2], 16, 16) as u16
    }

    /// Sets the value of the Stream ID field.
    pub fn set_stream_id(&mut self, value: u16) -> (r: &mut Self)
        ensures
            (*r)@ == old(self)@.update(2, bits::with_field32(old(self)@[2], 16, 16, value as u32)),
            *final(self) == *final(r),
    {
        proof {
            use_type_invariant(&*self);
            bits::lemma_mask32_values();
            bits::lemma_field32_with_field32_other(old(self)@[2], 16, 16, value as u32, 0, 16);
        }
        self.0.0[2] = bits::set_bits_u32(self.0.0[2], 16, 16, value as u32);
        self
    }

    /// Returns the value of the Endpoint ID field.
    pub fn endpoint_id(&self) -> (r: u8)
        ensures
            r == bits::field32(self@[3], 16, 5),
    {
        proof {
            bits::lemma_mask32_values();
        }
        bits::get_bits_u32(self.0.0[3], 16, 5) as u8
    }

    /// Sets the value of the Endpoint ID field.
    ///
    /// The value must fit in the 5 bits of the field.
    pub fn set_endpoint_id(&mut self, value: u8) -> (r: &mut Self)
        requires
            value < 32,
        ensures
            (*r)@ == old(self)@.update(3, bits::with_field32(old(self)@[3], 16, 5, value as u32)),
            *final(self) == *final(r),
    {
        proof {
            use_type_invariant(&*self);
            bits::lemma_mask32_values();
            bits::lemma_field32_with_field32_other(old(self)@[3], 16, 5, value as u32, 10, 6);
            bits::lemma_field32_with_field32_other(old(self)@[3], 16, 5, value as u32, 1, 9);
            bits::lemma_field32_with_field32_other(old(self)@[3], 16, 5, value as u32, 21, 3);
        }
        self.0.0[3] = bits::set_bits_u32(self.0.0[3], 16, 5, value as u32);
        self
    }

    /// Returns the value of the Slot ID field.
    pub fn slot_id(&self) -> (r: u8)
        ensures
            r == bits::field32(self@[3], 24, 8),
    {
        proof {
            bits::lemma_mask32_values();
        }
        bits::get_bits_u32(self.0.0[3], 24, 8) as u8
    }

    /// Sets the value of the Slot ID field.
    pub fn set_slot_id(&mut self, value: u8) -> (r: &mut Self)
        ensures
            (*r)@ == old(self)@.update(3, bits::with_field32(old(self)@[3], 24, 8, value as u32)),
            *final(self) == *final(r),
    {
        proof {
            use_type_invariant(&*self);
            bits::lemma_mask32_values();
            bits::lemma_field32_with_field32_other(old(self)@[3], 24, 8, value as u32, 10, 6);
            bits::lemma_field32_with_field32_other(old(self)@[3], 24, 8, value as u32, 1, 9);
            bits::lemma_field32_with_field32_other(old(self)@[3], 24, 8, value as u32, 21, 3);
        }
        self.0.0[3] = bits::set_bits_u32(self.0.0[3], 24, 8, value as u32);
        self
    }
}

impl Default for SetTrDequeuePointer {
    fn default() -> (r: Self)
        ensures
            r@ == seq![0u32, 0u32, 0u32, bits::with_field32(0, 10, 6, 16)],
    {
        Self::new()
    }
}

/// A Reset Device Command TRB.
#[derive(Clone, Copy, Debug, PartialEq, Eq, Hash)]
pub struct ResetDevice(TRB);

impl View for ResetDevice {
    type V = Seq<u32>;

    closed spec fn view(&self) -> Seq<u32> {
        self.0@
    }
}

impl ResetDevice {
    /// Whether `raw` is a Reset Device Command TRB: its TRB Type is 17 and its RsvdZ fields are 0.
    pub open spec fn valid(raw: Seq<u32>) -> bool {
        &&& bits::field32(raw[3], 10, 6) == 17
        &&& raw[0] == 0
        &&& raw[1] == 0
        &&& raw[2] == 0
        &&& bits::field32(raw[3], 1, 9) == 0
        &&& bits::field32(raw[3], 16, 8) == 0
    }

    /// Every Reset Device Command TRB passes its own check: `valid` holds of its Dwords.
    #[verifier::type_invariant]
    spec fn is_accepted(&self) -> bool {
        Self::valid(self@)
    }

    /// Creates a new Reset Device Command TRB.
    ///
    /// This method sets the value of the TRB Type field properly. All the other fields are set
    /// to 0.
    pub fn new() -> (r: Self)
        ensures
            r@ == seq![0u32, 0u32, 0u32, bits::with_field32(0, 10, 6, 17)],
            Self::valid(r@),
    {
        proof {
            bits::lemma_mask32_values();
            bits::lemma_field32_with_field32_same(0, 10, 6, 17);
            bits::lemma_field32_with_field32_other(0, 10, 6, 17, 1, 9);
            bits::lemma_field32_of_zero(1, 9);
            bits::lemma_field32_with_field32_other(0, 10, 6, 17, 16, 8);
            bits::lemma_field32_of_zero(16, 8);
        }
        Self(TRB::new(AllowedType::ResetDevice))
    }

    /// Converts a TRB into a Reset Device Command TRB.
    ///
    /// # Errors
    ///
    /// This method returns the given TRB if its TRB Type is not that of a Reset Device Command TRB,
    /// or if one of its RsvdZ fields is not 0.
    pub fn try_from(block: TRB) -> (r: Result<Self, TRB>)
        ensures
            r is Ok <==> Self::valid(block@),
            r matches Ok(t) ==> t@ == block@,
            r matches Err(b) ==> b == block,
    {
        proof {
            bits::lemma_mask32_values();
        }
        match block.trb_type() {
            Some(AllowedType::ResetDevice) => {},
            _ => {
                return Err(block);
            },
        }
        if block.0[0] != 0
            || block.0[1] != 0
            || block.0[2] != 0
            || bits::get_bits_u32(block.0[3], 1, 9) != 0
            || bits::get_bits_u32(block.0[3], 16, 8) != 0
        {
            return Err(block);
        }
        Ok(Self(block))
    }

    /// Converts the Reset Device Command TRB into a raw TRB.
    pub fn into_trb(self) -> (r: TRB)
        ensures
            r@ == self@,
            Self::valid(r@),
    {
        proof {
            use_type_invariant(&self);
        }
        self.0
    }

    /// Returns the value of the Slot ID field.
    pub fn slot_id(&self) -> (r: u8)
        ensures
            r == bits::field32(self@[3], 24, 8),
    {
        proof {
            bits::lemma_mask32_values();
        }
        bits::get_bits_u32(self.0.0[3], 24, 8) as u8
    }

    /// Sets the value of the Slot ID field.
    pub fn set_slot_id(&mut self, value: u8) -> (r: &mut Self)
        ensures
            (*r)@ == old(self)@.update(3, bits::with_field32(old(self)@[3], 24, 8, value as u32)),
            *final(self) == *final(r),
    {
        proof {
            use_type_invariant(&*self);
            bits::lemma_mask32_values();
            bits::lemma_field32_with_field32_other(old(self)@[3], 24, 8, value as u32, 10, 6);
            bits::lemma_field32_with_field32_other(old(self)@[3], 24, 8, value as u32, 1, 9);
            bits::lemma_field32_with_field32_other(old(self)@[3], 24, 8, value as u32, 16, 8);
        }
        self.0.0[3] = bits::set_bits_u32(self.0.0[3], 24, 8, value as u32);
        self
    }
}

impl Default for ResetDevice {
    fn default() -> (r: Self)
        ensures
            r@ == seq![0u32, 0u32, 0u32, bits::with_field32(0, 10, 6, 17)],
    {
        Self::new()
    }
}

/// A Force Event Command TRB.
#[derive(Clone, Copy, Debug, PartialEq, Eq, Hash)]
pub struct ForceEvent(TRB);

impl View for ForceEvent {
    type V = Seq<u32>;

    closed spec fn view(&self) -> Seq<u32> {
        self.0@
    }
}

impl ForceEvent {
    /// Whether `raw` is a Force Event Command TRB: its TRB Type is 18 and its RsvdZ fields are 0.
    pub open spec fn valid(raw: Seq<u32>) -> bool {
        &&& bits::field32(raw[3], 10, 6) == 18
        &&& bits::field32(raw[0], 0, 4) == 0
        &&& bits::field32(raw[2], 0, 22) == 0
        &&& bits::field32(raw[3], 1, 9) == 0
        &&& bits::field32(raw[3], 24, 8) == 0
    }

    /// Every Force Event Command TRB passes its own check: `valid` holds of its Dwords.
    #[verifier::type_invariant]
    spec fn is_accepted(&self) -> bool {
        Self::valid(self@)
    }

    /// Creates a new Force Event Command TRB.
    ///
    /// This method sets the value of the TRB Type field properly. All the other fields are set
    /// to 0.
    pub fn new() -> (r: Self)
        ensures
            r@ == seq![0u32, 0u32, 0u32, bits::with_field32(0, 10, 6, 18)],
            Self::valid(r@),
    {
        proof {
            bits::lemma_mask32_values();
            bits::lemma_field32_with_field32_same(0, 10, 6, 18);
            bits::lemma_field32_of_zero(0, 4);
            bits::lemma_field32_of_zero(0, 22);
            bits::lemma_field32_with_field32_other(0, 10, 6, 18, 1, 9);
            bits::lemma_field32_of_zero(1, 9);
            bits::lemma_field32_with_field32_other(0, 10, 6, 18, 24, 8);
            bits::lemma_field32_of_zero(24, 8);
        }
        Self(TRB::new(AllowedType::ForceEvent))
    }

    /// Converts a TRB into a Force Event Command TRB.
    ///
    /// # Errors
    ///
    /// This method returns the given TRB if its TRB Type is not that of a Force Event Command TRB,
    /// or if one of its RsvdZ fields is not 0.
    pub fn try_from(block: TRB) -> (r: Result<Self, TRB>)
        ensures
            r is Ok <==> Self::valid(block@),
            r matches Ok(t) ==> t@ == block@,
            r matches Err(b) ==> b == block,
    {
        proof {
            bits::lemma_mask32_values();
        }
        match block.trb_type() {
            Some(AllowedType::ForceEvent) => {},
            _ => {
                return Err(block);
            },
        }
        if bits::get_bits_u32(block.0[0], 0, 4) != 0
            || bits::get_bits_u32(block.0[2], 0, 22) != 0
            || bits::get_bits_u32(block.0[3], 1, 9) != 0
            || bits::get_bits_u32(block.0[3], 24, 8) != 0
        {
            return Err(block);
        }
        Ok(Self(block))
    }

    /// Converts the Force Event Command TRB into a raw TRB.
    pub fn into_trb(self) -> (r: TRB)
        ensures
            r@ == self@,
            Self::valid(r@),
    {
        proof {
            use_type_invariant(&self);
        }
        self.0
    }

    /// Returns the value of the Event TRB Pointer field.
    pub fn event_trb_pointer(&self) -> (r: u64)
        ensures
            r == bits::join64(bits::clear_low32(self@[0], 4), self@[1]),
    {
        let lo = self.0.0[0] >> 4 << 4;
        let hi = self.0.0[1];

        bits::join_halves(lo, hi)
    }

    /// Sets the value of the Event TRB Pointer field.
    ///
    /// The value must be 16-byte aligned.
    pub fn set_event_trb_pointer(&mut self, value: u64) -> (r: &mut Self)
        requires
            value % 16 == 0,
        ensures
            (*r)@ == old(self)@.update(0, bits::with_high32(old(self)@[0], 4, bits::low32(value))).update(
                1,
                bits::high32(value),
            ),
            *final(self) == *final(r),
    {
        proof {
            use_type_invariant(&*self);
            bits::lemma_mask32_values();
            bits::lemma_low32_aligned(value);
            bits::lemma_aligned32(bits::low32(value));
            bits::lemma_clear_low32_with_high32(old(self)@[0], 4, bits::low32(value));
        }
        let lo = bits::low_half(value);
        let hi = bits::high_half(value);

        self.0.0[0] = bits::set_high_bits_u32(self.0.0[0], 4, lo);
        self.0.0[1] = hi;
        self
    }

    /// Returns the value of the VF Interrupter Target field.
    pub fn vf_interrupter_target(&self) -> (r: u16)
        ensures
            r == bits::field32(self@[2], 22, 10),
    {
        proof {
            bits::lemma_mask32_values();
        }
        bits::get_bits_u32(self.0.0[2], 22, 10) as u16
    }

    /// Sets the value of the VF Interrupter Target field.
    ///
    /// The value must fit in the 10 bits of the field.
    pub fn set_vf_interrupter_target(&mut self, value: u16) -> (r: &mut Self)
        requires
            value < 1024,
        ensures
            (*r)@ == old(self)@.update(2, bits::with_field32(old(self)@[2], 22, 10, value as u32)),
            *final(self) == *final(r),
    {
        proof {
            use_type_invariant(&*self);
            bits::lemma_mask32_values();
            bits::lemma_field32_with_field32_other(old(self)@[2], 22, 10, value as u32, 0, 22);
        }
        self.0.0[2] = bits::set_bits_u32(self.0.0[2], 22, 10, value as u32);
        self
    }

    /// Returns the value of the VF ID field.
    pub fn vf_id(&self) -> (r: u8)
        ensures
            r == bits::field32(self@[3], 16, 8),
    {
        proof {
            bits::lemma_mask32_values();
        }
        bits::get_bits_u32(self.0.0[3], 16, 8) as u8
    }

    /// Sets the value of the VF ID field.
    pub fn set_vf_id(&mut self, value: u8) -> (r: &mut Self)
        ensures
            (*r)@ == old(self)@.update(3, bits::with_field32(old(self)@[3], 16, 8, value as u32)),
            *final(self) == *final(r),
    {
        proof {
            use_type_invariant(&*self);
            bits::lemma_mask32_values();
            bits::lemma_field32_with_field32_other(old(self)@[3], 16, 8, value as u32, 10, 6);
            bits::lemma_field32_with_field32_other(old(self)@[3], 16, 8, value as u32, 1, 9);
            bits::lemma_field32_with_field32_other(old(self)@[3], 16, 8, value as u32, 24, 8);
        }
        self.0.0[3] = bits::set_bits_u32(self.0.0[3], 16, 8, value as u32);
        self
    }
}

impl Default for ForceEvent {
    fn default() -> (r: Self)
        ensures
            r@ == seq![0u32, 0u32, 0u32, bits::with_field32(0, 10, 6, 18)],
    {
        Self::new()
    }
}

/// A Negotiate Bandwidth Command TRB.
#[derive(Clone, Copy, Debug, PartialEq, Eq, Hash)]
pub struct NegotiateBandwidth(TRB);

impl View for NegotiateBandwidth {
    type V = Seq<u32>;

    closed spec fn view(&self) -> Seq<u32> {
        self.0@
    }
}

impl NegotiateBandwidth {
    /// Whether `raw` is a Negotiate Bandwidth Command TRB: its TRB Type is 19 and its RsvdZ fields
    /// are 0.
    pub open spec fn valid(raw: Seq<u32>) -> bool {
        &&& bits::field32(raw[3], 10, 6) == 19
        &&& raw[0] == 0
        &&& raw[1] == 0
        &&& raw[2] == 0
        &&& bits::field32(raw[3], 1, 9) == 0
        &&& bits::field32(raw[3], 16, 8) == 0
    }

    /// Every Negotiate Bandwidth Command TRB passes its own check: `valid` holds of its Dwords.
    #[verifier::type_invariant]
    spec fn is_accepted(&self) -> bool {
        Self::valid(self@)
    }

    /// Creates a new Negotiate Bandwidth Command TRB.
    ///
    /// This method sets the value of the TRB Type field properly. All the other fields are set
    /// to 0.
    pub fn new() -> (r: Self)
        ensures
            r@ == seq![0u32, 0u32, 0u32, bits::with_field32(0, 10, 6, 19)],
            Self::valid(r@),
    {
        proof {
            bits::lemma_mask32_values();
            bits::lemma_field32_with_field32_same(0, 10, 6, 19);
            bits::lemma_field32_with_field32_other(0, 10, 6, 19, 1, 9);
            bits::lemma_field32_of_zero(1, 9);
            bits::lemma_field32_with_field32_other(0, 10, 6, 19, 16, 8);
            bits::lemma_field32_of_zero(16, 8);
        }
        Self(TRB::new(AllowedType::NegotiateBandwidth))
    }

    /// Converts a TRB into a Negotiate Bandwidth Command TRB.
    ///
    /// # Errors
    ///
    /// This method returns the given TRB if its TRB Type is not that of a Negotiate Bandwidth
    /// Command TRB, or if one of its RsvdZ fields is not 0.
    pub fn try_from(block: TRB) -> (r: Result<Self, TRB>)
        ensures
            r is Ok <==> Self::valid(block@),
            r matches Ok(t) ==> t@ == block@,
            r matches Err(b) ==> b == block,
    {
        proof {
            bits::lemma_mask32_values();
        }
        match block.trb_type() {
            Some(AllowedType::NegotiateBandwidth) => {},
            _ => {
                return Err(block);
            },
        }
        if block.0[0] != 0
            || block.0[1] != 0
            || block.0[2] != 0
            || bits::get_bits_u32(block.0[3], 1, 9) != 0
            || bits::get_bits_u32(block.0[3], 16, 8) != 0
        {
            return Err(block);
        }
        Ok(Self(block))
    }

    /// Converts the Negotiate Bandwidth Command TRB into a raw TRB.
    pub fn into_trb(self) -> (r: TRB)
        ensures
            r@ == self@,
            Self::valid(r@),
    {
        proof {
            use_type_invariant(&self);
        }
        self.0
    }

    /// Returns the value of the Slot ID field.
    pub fn slot_id(&self) -> (r: u8)
        ensures
            r == bits::field32(self@[3], 24, 8),
    {
        proof {
            bits::lemma_mask32_values();
        }
        bits::get_bits_u32(self.0.0[3], 24, 8) as u8
    }

    /// Sets the value of the Slot ID field.
    pub fn set_slot_id(&mut self, value: u8) -> (r: &mut Self)
        ensures
            (*r)@ == old(self)@.update(3, bits::with_field32(old(self)@[3], 24, 8, value as u32)),
            *final(self) == *final(r),
    {
        proof {
            use_type_invariant(&*self);
            bits::lemma_mask32_values();
            bits::lemma_field32_with_field32_other(old(self)@[3], 24, 8, value as u32, 10, 6);
            bits::lemma_field32_with_field32_other(old(self)@[3], 24, 8, value as u32, 1, 9);
            bits::lemma_field32_with_field32_other(old(self)@[3], 24, 8, value as u32, 16, 8);
        }
        self.0.0[3] = bits::set_bits_u32(self.0.0[3], 24, 8, value as u32);
        self
    }
}

impl Default for NegotiateBandwidth {
    fn default() -> (r: Self)
        ensures
            r@ == seq![0u32, 0u32, 0u32, bits::with_field32(0, 10, 6, 19)],
    {
        Self::new()
    }
}

/// A Set Latency Tolerance Value Command TRB.
#[derive(Clone, Copy, Debug, PartialEq, Eq, Hash)]
pub struct SetLatencyToleranceValue(TRB);

impl View for SetLatencyToleranceValue {
    type V = Seq<u32>;

    closed spec fn view(&self) -> Seq<u32> {
        self.0@
    }
}

impl SetLatencyToleranceValue {
    /// Whether `raw` is a Set Latency Tolerance Value Command TRB: its TRB Type is 20 and its RsvdZ
    /// fields are 0.
    pub open spec fn valid(raw: Seq<u32>) -> bool {
        &&& bits::field32(raw[3], 10, 6) == 20
        &&& raw[0] == 0
        &&& raw[1] == 0
        &&& raw[2] == 0
        &&& bits::field32(raw[3], 1, 9) == 0
        &&& bits::field32(raw[3], 28, 4) == 0
    }

    /// Every Set Latency Tolerance Value Command TRB passes its own check: `valid` holds of its
    /// Dwords.
    #[verifier::type_invariant]
    spec fn is_accepted(&self) -> bool {
        Self::valid(self@)
    }

    /// Creates a new Set Latency Tolerance Value Command TRB.
    ///
    /// This method sets the value of the TRB Type field properly. All the other fields are set
    /// to 0.
    pub fn new() -> (r: Self)
        ensures
            r@ == seq![0u32, 0u32, 0u32, bits::with_field32(0, 10, 6, 20)],
            Self::valid(r@),
    {
        proof {
            bits::lemma_mask32_values();
            bits::lemma_field32_with_field32_same(0, 10, 6, 20);
            bits::lemma_field32_with_field32_other(0, 10, 6, 20, 1, 9);
            bits::lemma_field32_of_zero(1, 9);
            bits::lemma_field32_with_field32_other(0, 10, 6, 20, 28, 4);
            bits::lemma_field32_of_zero(28, 4);
        }
        Self(TRB::new(AllowedType::SetLatencyToleranceValue))
    }

    /// Converts a TRB into a Set Latency Tolerance Value Command TRB.
    ///
    /// # Errors
    ///
    /// This method returns the given TRB if its TRB Type is not that of a Set Latency Tolerance
    /// Value Command TRB, or if one of its RsvdZ fields is not 0.
    pub fn try_from(block: TRB) -> (r: Result<Self, TRB>)
        ensures
            r is Ok <==> Self::valid(block@),
            r matches Ok(t) ==> t@ == block@,
            r matches Err(b) ==> b == block,
    {
        proof {
            bits::lemma_mask32_values();
        }
        match block.trb_type() {
            Some(AllowedType::SetLatencyToleranceValue) => {},
            _ => {
                return Err(block);
            },
        }
        if block.0[0] != 0
            || block.0[1] != 0
            || block.0[2] != 0
            || bits::get_bits_u32(block.0[3], 1, 9) != 0
            || bits::get_bits_u32(block.0[3], 28, 4) != 0
        {
            return Err(block);
        }
        Ok(Self(block))
    }

    /// Converts the Set Latency Tolerance Value Command TRB into a raw TRB.
    pub fn into_trb(self) -> (r: TRB)
        ensures
            r@ == self@,
            Self::valid(r@),
    {
        proof {
            use_type_invariant(&self);
        }
        self.0
    }

    /// Returns the value of the Best Effort Latency Tolerance Value field.
    pub fn best_effort_latency_tolerance_value(&self) -> (r: u16)
        ensures
            r == bits::field32(self@[3], 16, 12),
    {
        proof {
            bits::lemma_mask32_values();
        }
        bits::get_bits_u32(self.0.0[3], 16, 12) as u16
    }

    /// Sets the value of the Best Effort Latency Tolerance Value field.
    ///
    /// The value must fit in the 12 bits of the field.
    pub fn set_best_effort_latency_tolerance_value(&mut self, value: u16) -> (r: &mut Self)
        requires
            value < 4096,
        ensures
            (*r)@ == old(self)@.update(3, bits::with_field32(old(self)@[3], 16, 12, value as u32)),
            *final(self) == *final(r),
    {
        proof {
            use_type_invariant(&*self);
            bits::lemma_mask32_values();
            bits::lemma_field32_with_field32_other(old(self)@[3], 16, 12, value as u32, 10, 6);
            bits::lemma_field32_with_field32_other(old(self)@[3], 16, 12, value as u32, 1, 9);
            bits::lemma_field32_with_field32_other(old(self)@[3], 16, 12, value as u32, 28, 4);
        }
        self.0.0[3] = bits::set_bits_u32(self.0.0[3], 16, 12, value as u32);
        self
    }
}

impl Default for SetLatencyToleranceValue {
    fn default() -> (r: Self)
        ensures
            r@ == seq![0u32, 0u32, 0u32, bits::with_field32(0, 10, 6, 20)],
    {
        Self::new()
    }
}

/// A Get Port Bandwidth Command TRB.
#[derive(Clone, Copy, Debug, PartialEq, Eq, Hash)]
pub struct GetPortBandwidth(TRB);

impl View for GetPortBandwidth {
    type V = Seq<u32>;

    closed spec fn view(&self) -> Seq<u32> {
        self.0@
    }
}

impl GetPortBandwidth {
    /// Whether `raw` is a Get Port Bandwidth Command TRB: its TRB Type is 21 and its RsvdZ fields
    /// are 0.
    pub open spec fn valid(raw: Seq<u32>) -> bool {
        &&& bits::field32(raw[3], 10, 6) == 21
        &&& bits::field32(raw[0], 0, 4) == 0
        &&& raw[2] == 0
        &&& bits::field32(raw[3], 1, 9) == 0
        &&& bits::field32(raw[3], 20, 4) == 0
    }

    /// Every Get Port Bandwidth Command TRB passes its own check: `valid` holds of its Dwords.
    #[verifier::type_invariant]
    spec fn is_accepted(&self) -> bool {
        Self::valid(self@)
    }

    /// Creates a new Get Port Bandwidth Command TRB.
    ///
    /// This method sets the value of the TRB Type field properly. All the other fields are set
    /// to 0.
    pub fn new() -> (r: Self)
        ensures
            r@ == seq![0u32, 0u32, 0u32, bits::with_field32(0, 10, 6, 21)],
            Self::valid(r@),
    {
        proof {
            bits::lemma_mask32_values();
            bits::lemma_field32_with_field32_same(0, 10, 6, 21);
            bits::lemma_field32_of_zero(0, 4);
            bits::lemma_field32_with_field32_other(0, 10, 6, 21, 1, 9);
            bits::lemma_field32_of_zero(1, 9);
            bits::lemma_field32_with_field32_other(0, 10, 6, 21, 20, 4);
            bits::lemma_field32_of_zero(20, 4);
        }
        Self(TRB::new(AllowedType::GetPortBandwidth))
    }

    /// Converts a TRB into a Get Port Bandwidth Command TRB.
    ///
    /// # Errors
    ///
    /// This method returns the given TRB if its TRB Type is not that of a Get Port Bandwidth
    /// Command TRB, or if one of its RsvdZ fields is not 0.
    pub fn try_from(block: TRB) -> (r: Result<Self, TRB>)
        ensures
            r is Ok <==> Self::valid(block@),
            r matches Ok(t) ==> t@ == block@,
            r matches Err(b) ==> b == block,
    {
        proof {
            bits::lemma_mask32_values();
        }
        match block.trb_type() {
            Some(AllowedType::GetPortBandwidth) => {},
            _ => {
                return Err(block);
            },
        }
        if bits::get_bits_u32(block.0[0], 0, 4) != 0
            || block.0[2] != 0
            || bits::get_bits_u32(block.0[3], 1, 9) != 0
            || bits::get_bits_u32(block.0[3], 20, 4) != 0
        {
            return Err(block);
        }
        Ok(Self(block))
    }

    /// Converts the Get Port Bandwidth Command TRB into a raw TRB.
    pub fn into_trb(self) -> (r: TRB)
        ensures
            r@ == self@,
            Self::valid(r@),
    {
        proof {
            use_type_invariant(&self);
        }
        self.0
    }

    /// Returns the value of the Port Bandwidth Context Pointer field.
    pub fn port_bandwidth_context_pointer(&self) -> (r: u64)
        ensures
            r == bits::join64(bits::clear_low32(self@[0], 4), self@[1]),
    {
        let lo = self.0.0[0] >> 4 << 4;
        let hi = self.0.0[1];

        bits::join_halves(lo, hi)
    }

    /// Sets the value of the Port Bandwidth Context Pointer field.
    ///
    /// The value must be 16-byte aligned.
    pub fn set_port_bandwidth_context_pointer(&mut self, value: u64) -> (r: &mut Self)
        requires
            value % 16 == 0,
        ensures
            (*r)@ == old(self)@.update(0, bits::with_high32(old(self)@[0], 4, bits::low32(value))).update(
                1,
                bits::high32(value),
            ),
            *final(self) == *final(r),
    {
        proof {
            use_type_invariant(&*self);
            bits::lemma_mask32_values();
            bits::lemma_low32_aligned(value);
            bits::lemma_aligned32(bits::low32(value));
            bits::lemma_clear_low32_with_high32(old(self)@[0], 4, bits::low32(value));
        }
        let lo = bits::low_half(value);
        let hi = bits::high_half(value);

        self.0.0[0] = bits::set_high_bits_u32(self.0.0[0], 4, lo);
        self.0.0[1] = hi;
        self
    }

    /// Returns the value of the Dev Speed field.
    pub fn dev_speed(&self) -> (r: u8)
        ensures
            r == bits::field32(self@[3], 16, 4),
    {
        proof {
            bits::lemma_mask32_values();
        }
        bits::get_bits_u32(self.0.0[3], 16, 4) as u8
    }

    /// Sets the value of the Dev Speed field.
    ///
    /// The value must fit in the 4 bits of the field.
    pub fn set_dev_speed(&mut self, value: u8) -> (r: &mut Self)
        requires
            value < 16,
        ensures
            (*r)@ == old(self)@.update(3, bits::with_field32(old(self)@[3], 16, 4, value as u32)),
            *final(self) == *final(r),
    {
        proof {
            use_type_invariant(&*self);
            bits::lemma_mask32_values();
            bits::lemma_field32_with_field32_other(old(self)@[3], 16, 4, value as u32, 10, 6);
            bits::lemma_field32_with_field32_other(old(self)@[3], 16, 4, value as u32, 1, 9);
            bits::lemma_field32_with_field32_other(old(self)@[3], 16, 4, value as u32, 20, 4);
        }
        self.0.0[3] = bits::set_bits_u32(self.0.0[3], 16, 4, value as u32);
        self
    }

    /// Returns the value of the Hub Slot ID field.
    pub fn hub_slot_id(&self) -> (r: u8)
        ensures
            r == bits::field32(self@[3], 24, 8),
    {
        proof {
            bits::lemma_mask32_values();
        }
        bits::get_bits_u32(self.0.0[3], 24, 8) as u8
    }

    /// Sets the value of the Hub Slot ID field.
    pub fn set_hub_slot_id(&mut self, value: u8) -> (r: &mut Self)
        ensures
            (*r)@ == old(self)@.update(3, bits::with_field32(old(self)@[3], 24, 8, value as u32)),
            *final(self) == *final(r),
    {
        proof {
            use_type_invariant(&*self);
            bits::lemma_mask32_values();
            bits::lemma_field32_with_field32_other(old(self)@[3], 24, 8, value as u32, 10, 6);
            bits::lemma_field32_with_field32_other(old(self)@[3], 24, 8, value as u32, 1, 9);
            bits::lemma_field32_with_field32_other(old(self)@[3], 24, 8, value as u32, 20, 4);
        }
        self.0.0[3] = bits::set_bits_u32(self.0.0[3], 24, 8, value as u32);
        self
    }
}

impl Default for GetPortBandwidth {
    fn default() -> (r: Self)
        ensures
            r@ == seq![0u32, 0u32, 0u32, bits::with_field32(0, 10, 6, 21)],
    {
        Self::new()
    }
}

/// A Force Header Command TRB.
#[derive(Clone, Copy, Debug, PartialEq, Eq, Hash)]
pub struct ForceHeader(TRB);

impl View for ForceHeader {
    type V = Seq<u32>;

    closed spec fn view(&self) -> Seq<u32> {
        self.0@
    }
}

impl ForceHeader {
    /// Whether `raw` is a Force Header Command TRB: its TRB Type is 22 and its RsvdZ fields are 0.
    pub open spec fn valid(raw: Seq<u32>) -> bool {
        &&& bits::field32(raw[3], 10, 6) == 22
        &&& bits::field32(raw[3], 1, 9) == 0
        &&& bits::field32(raw[3], 16, 8) == 0
    }

    /// Every Force Header Command TRB passes its own check: `valid` holds of its Dwords.
    #[verifier::type_invariant]
    spec fn is_accepted(&self) -> bool {
        Self::valid(self@)
    }

    /// Creates a new Force Header Command TRB.
    ///
    /// This method sets the value of the TRB Type field properly. All the other fields are set
    /// to 0.
    pub fn new() -> (r: Self)
        ensures
            r@ == seq![0u32, 0u32, 0u32, bits::with_field32(0, 10, 6, 22)],
            Self::valid(r@),
    {
        proof {
            bits::lemma_mask32_values();
            bits::lemma_field32_with_field32_same(0, 10, 6, 22);
            bits::lemma_field32_with_field32_other(0, 10, 6, 22, 1, 9);
            bits::lemma_field32_of_zero(1, 9);
            bits::lemma_field32_with_field32_other(0, 10, 6, 22, 16, 8);
            bits::lemma_field32_of_zero(16, 8);
        }
        Self(TRB::new(AllowedType::ForceHeader))
    }

    /// Converts a TRB into a Force Header Command TRB.
    ///
    /// # Errors
    ///
    /// This method returns the given TRB if its TRB Type is not that of a Force Header Command TRB,
    /// or if one of its RsvdZ fields is not 0.
    pub fn try_from(block: TRB) -> (r: Result<Self, TRB>)
        ensures
            r is Ok <==> Self::valid(block@),
            r matches Ok(t) ==> t@ == block@,
            r matches Err(b) ==> b == block,
    {
        proof {
            bits::lemma_mask32_values();
        }
        match block.trb_type() {
            Some(AllowedType::ForceHeader) => {},
            _ => {
                return Err(block);
            },
        }
        if bits::get_bits_u32(block.0[3], 1, 9) != 0
            || bits::get_bits_u32(block.0[3], 16, 8) != 0
        {
            return Err(block);
        }
        Ok(Self(block))
    }

    /// Converts the Force Header Command TRB into a raw TRB.
    pub fn into_trb(self) -> (r: TRB)
        ensures
            r@ == self@,
            Self::valid(r@),
    {
        proof {
            use_type_invariant(&self);
        }
        self.0
    }

    /// Returns the value of the Packet Type field.
    pub fn packet_type(&self) -> (r: u8)
        ensures
            r == bits::field32(self@[0], 0, 5),
    {
        proof {
            bits::lemma_mask32_values();
        }
        bits::get_bits_u32(self.0.0[0], 0, 5) as u8
    }

    /// Sets the value of the Packet Type field.
    ///
    /// The value must fit in the 5 bits of the field.
    pub fn set_packet_type(&mut self, value: u8) -> (r: &mut Self)
        requires
            value < 32,
        ensures
            (*r)@ == old(self)@.update(0, bits::with_field32(old(self)@[0], 0, 5, value as u32)),
            *final(self) == *final(r),
    {
        proof {
            use_type_invariant(&*self);
            bits::lemma_mask32_values();
        }
        self.0.0[0] = bits::set_bits_u32(self.0.0[0], 0, 5, value as u32);
        self
    }

    /// Sets the value of the Header Info field.
    ///
    /// The lowest 5 bits of `info[0]` must be 0.
    pub fn set_header_info(&mut self, info: [u32; 3]) -> (r: &mut Self)
        requires
            info@[0] % 32 == 0,
        ensures
            (*r)@ == old(self)@.update(0, bits::with_high32(old(self)@[0], 5, info@[0])).update(
                1,
                info@[1],
            ).update(2, info@[2]),
            seq![bits::clear_low32((*r)@[0], 5), (*r)@[1], (*r)@[2]] == info@,
            bits::field32((*r)@[0], 0, 5) == bits::field32(old(self)@[0], 0, 5),
            (*r)@[3] == old(self)@[3],
            *final(self) == *final(r),
    {
        proof {
            use_type_invariant(&*self);
            bits::lemma_mask32_values();
            bits::lemma_aligned32(info@[0]);
            bits::lemma_clear_low32_with_high32(old(self)@[0], 5, info@[0]);
        }
        self.0.0[0] = bits::set_high_bits_u32(self.0.0[0], 5, info[0]);
        self.0.0[1] = info[1];
        self.0.0[2] = info[2];
        self
    }

    /// Returns the value of the Header Info field.
    pub fn header_info(&self) -> (r: [u32; 3])
        ensures
            r@ == seq![bits::clear_low32(self@[0], 5), self@[1], self@[2]],
    {
        let r = [self.0.0[0] >> 5 << 5, self.0.0[1], self.0.0[2]];
        assert(r@ =~= seq![bits::clear_low32(self@[0], 5), self@[1], self@[2]]);
        r
    }

    /// Returns the value of the Root Hub Port Number field.
    pub fn root_hub_port_number(&self) -> (r: u8)
        ensures
            r == bits::field32(self@[3], 24, 8),
    {
        proof {
            bits::lemma_mask32_values();
        }
        bits::get_bits_u32(self.0.0[3], 24, 8) as u8
    }

    /// Sets the value of the Root Hub Port Number field.
    pub fn set_root_hub_port_number(&mut self, value: u8) -> (r: &mut Self)
        ensures
            (*r)@ == old(self)@.update(3, bits::with_field32(old(self)@[3], 24, 8, value as u32)),
            *final(self) == *final(r),
    {
        proof {
            use_type_invariant(&*self);
            bits::lemma_mask32_values();
            bits::lemma_field32_with_field32_other(old(self)@[3], 24, 8, value as u32, 10, 6);
            bits::lemma_field32_with_field32_other(old(self)@[3], 24, 8, value as u32, 1, 9);
            bits::lemma_field32_with_field32_other(old(self)@[3], 24, 8, value as u32, 16, 8);
        }
        self.0.0[3] = bits::set_bits_u32(self.0.0[3], 24, 8, value as u32);
        self
    }
}

impl Default for ForceHeader {
    fn default() -> (r: Self)
        ensures
            r@ == seq![0u32, 0u32, 0u32, bits::with_field32(0, 10, 6, 22)],
    {
        Self::new()
    }
}

/// A NoOp Command TRB.
#[derive(Clone, Copy, Debug, PartialEq, Eq, Hash)]
pub struct NoOp(TRB);

impl View for NoOp {
    type V = Seq<u32>;

    closed spec fn view(&self) -> Seq<u32> {
        self.0@
    }
}

impl NoOp {
    /// Whether `raw` is a NoOp Command TRB: its TRB Type is 23 and its RsvdZ fields are 0.
    pub open spec fn valid(raw: Seq<u32>) -> bool {
        &&& bits::field32(raw[3], 10, 6) == 23
        &&& raw[0] == 0
        &&& raw[1] == 0
        &&& raw[2] == 0
        &&& bits::field32(raw[3], 1, 9) == 0
        &&& bits::field32(raw[3], 16, 16) == 0
    }

    /// Every NoOp Command TRB passes its own check: `valid` holds of its Dwords.
    #[verifier::type_invariant]
    spec fn is_accepted(&self) -> bool {
        Self::valid(self@)
    }

    /// Creates a new NoOp Command TRB.
    ///
    /// This method sets the value of the TRB Type field properly. All the other fields are set
    /// to 0.
    pub fn new() -> (r: Self)
        ensures
            r@ == seq![0u32, 0u32, 0u32, bits::with_field32(0, 10, 6, 23)],
            Self::valid(r@),
    {
        proof {
            bits::lemma_mask32_values();
            bits::lemma_field32_with_field32_same(0, 10, 6, 23);
            bits::lemma_field32_with_field32_other(0, 10, 6, 23, 1, 9);
            bits::lemma_field32_of_zero(1, 9);
            bits::lemma_field32_with_field32_other(0, 10, 6, 23, 16, 16);
            bits::lemma_field32_of_zero(16, 16);
        }
        Self(TRB::new(AllowedType::NoOp))
    }

    /// Converts a TRB into a NoOp Command TRB.
    ///
    /// # Errors
    ///
    /// This method returns the given TRB if its TRB Type is not that of a NoOp Command TRB, or if
    /// one of its RsvdZ fields is not 0.
    pub fn try_from(block: TRB) -> (r: Result<Self, TRB>)
        ensures
            r is Ok <==> Self::valid(block@),
            r matches Ok(t) ==> t@ == block@,
            r matches Err(b) ==> b == block,
    {
        proof {
            bits::lemma_mask32_values();
        }
        match block.trb_type() {
            Some(AllowedType::NoOp) => {},
            _ => {
                return Err(block);
            },
        }
        if block.0[0] != 0
            || block.0[1] != 0
            || block.0[2] != 0
            || bits::get_bits_u32(block.0[3], 1, 9) != 0
            || bits::get_bits_u32(block.0[3], 16, 16) != 0
        {
            return Err(block);
        }
        Ok(Self(block))
    }

    /// Converts the NoOp Command TRB into a raw TRB.
    pub fn into_trb(self) -> (r: TRB)
        ensures
            r@ == self@,
            Self::valid(r@),
    {
        proof {
            use_type_invariant(&self);
        }
        self.0
    }

}

impl Default for NoOp {
    fn default() -> (r: Self)
        ensures
            r@ == seq![0u32, 0u32, 0u32, bits::with_field32(0, 10, 6, 23)],
    {
        Self::new()
    }
}

/// A Get Extended Property Command TRB.
#[derive(Clone, Copy, Debug, PartialEq, Eq, Hash)]
pub struct GetExtendedProperty(TRB);

impl View for GetExtendedProperty {
    type V = Seq<u32>;

    closed spec fn view(&self) -> Seq<u32> {
        self.0@
    }
}

impl GetExtendedProperty {
    /// Whether `raw` is a Get Extended Property Command TRB: its TRB Type is 24 and its RsvdZ
    /// fields are 0.
    pub open spec fn valid(raw: Seq<u32>) -> bool {
        &&& bits::field32(raw[3], 10, 6) == 24
        &&& bits::field32(raw[0], 0, 4) == 0
        &&& bits::field32(raw[2], 16, 16) == 0
        &&& bits::field32(raw[3], 1, 9) == 0
    }

    /// Every Get Extended Property Command TRB passes its own check: `valid` holds of its Dwords.
    #[verifier::type_invariant]
    spec fn is_accepted(&self) -> bool {
        Self::valid(self@)
    }

    /// Creates a new Get Extended Property Command TRB.
    ///
    /// This method sets the value of the TRB Type field properly. All the other fields are set
    /// to 0.
    pub fn new() -> (r: Self)
        ensures
            r@ == seq![0u32, 0u32, 0u32, bits::with_field32(0, 10, 6, 24)],
            Self::valid(r@),
    {
        proof {
            bits::lemma_mask32_values();
            bits::lemma_field32_with_field32_same(0, 10, 6, 24);
            bits::lemma_field32_of_zero(0, 4);
            bits::lemma_field32_of_zero(16, 16);
            bits::lemma_field32_with_field32_other(0, 10, 6, 24, 1, 9);
            bits::lemma_field32_of_zero(1, 9);
        }
        Self(TRB::new(AllowedType::GetExtendedProperty))
    }

    /// Converts a TRB into a Get Extended Property Command TRB.
    ///
    /// # Errors
    ///
    /// This method returns the given TRB if its TRB Type is not that of a Get Extended Property
    /// Command TRB, or if one of its RsvdZ fields is not 0.
    pub fn try_from(block: TRB) -> (r: Result<Self, TRB>)
        ensures
            r is Ok <==> Self::valid(block@),
            r matches Ok(t) ==> t@ == block@,
            r matches Err(b) ==> b == block,
    {
        proof {
            bits::lemma_mask32_values();
        }
        match block.trb_type() {
            Some(AllowedType::GetExtendedProperty) => {},
            _ => {
                return Err(block);
            },
        }
        if bits::get_bits_u32(block.0[0], 0, 4) != 0
            || bits::get_bits_u32(block.0[2], 16, 16) != 0
            || bits::get_bits_u32(block.0[3], 1, 9) != 0
        {
            return Err(block);
        }
        Ok(Self(block))
    }

    /// Converts the Get Extended Property Command TRB into a raw TRB.
    pub fn into_trb(self) -> (r: TRB)
        ensures
            r@ == self@,
            Self::valid(r@),
    {
        proof {
            use_type_invariant(&self);
        }
        self.0
    }

    /// Returns the value of the Extended Property Context Pointer field.
    pub fn extended_property_context_pointer(&self) -> (r: u64)
        ensures
            r == bits::join64(bits::clear_low32(self@[0], 4), self@[1]),
    {
        let lo = self.0.0[0] >> 4 << 4;
        let hi = self.0.0[1];

        bits::join_halves(lo, hi)
    }

    /// Sets the value of the Extended Property Context Pointer field.
    ///
    /// The value must be 16-byte aligned.
    pub fn set_extended_property_context_pointer(&mut self, value: u64) -> (r: &mut Self)
        requires
            value % 16 == 0,
        ensures
            (*r)@ == old(self)@.update(0, bits::with_high32(old(self)@[0], 4, bits::low32(value))).update(
                1,
                bits::high32(value),
            ),
            *final(self) == *final(r),
    {
        proof {
            use_type_invariant(&*self);
            bits::lemma_mask32_values();
            bits::lemma_low32_aligned(value);
            bits::lemma_aligned32(bits::low32(value));
            bits::lemma_clear_low32_with_high32(old(self)@[0], 4, bits::low32(value));
        }
        let lo = bits::low_half(value);
        let hi = bits::high_half(value);

        self.0.0[0] = bits::set_high_bits_u32(self.0.0[0], 4, lo);
        self.0.0[1] = hi;
        self
    }

    /// Returns the value of the Extended Capability Identifier field.
    pub fn extended_capability_identifier(&self) -> (r: u16)
        ensures
            r == bits::field32(self@[2], 0, 16),
    {
        proof {
            bits::lemma_mask32_values();
        }
        bits::get_bits_u32(self.0.0[2], 0, 16) as u16
    }

    /// Sets the value of the Extended Capability Identifier field.
    pub fn set_extended_capability_identifier(&mut self, value: u16) -> (r: &mut Self)
        ensures
            (*r)@ == old(self)@.update(2, bits::with_field32(old(self)@[2], 0, 16, value as u32)),
            *final(self) == *final(r),
    {
        proof {
            use_type_invariant(&*self);
            bits::lemma_mask32_values();
            bits::lemma_field32_with_field32_other(old(self)@[2], 0, 16, value as u32, 16, 16);
        }
        self.0.0[2] = bits::set_bits_u32(self.0.0[2], 0, 16, value as u32);
        self
    }

    /// Returns the value of the Command Sub Type field.
    pub fn command_sub_type(&self) -> (r: u8)
        ensures
            r == bits::field32(self@[3], 16, 3),
    {
        proof {
            bits::lemma_mask32_values();
        }
        bits::get_bits_u32(self.0.0[3], 16, 3) as u8
    }

    /// Sets the value of the Command Sub Type field.
    ///
    /// The value must fit in the 3 bits of the field.
    pub fn set_command_sub_type(&mut self, value: u8) -> (r: &mut Self)
        requires
            value < 8,
        ensures
            (*r)@ == old(self)@.update(3, bits::with_field32(old(self)@[3], 16, 3, value as u32)),
            *final(self) == *final(r),
    {
        proof {
            use_type_invariant(&*self);
            bits::lemma_mask32_values();
            bits::lemma_field32_with_field32_other(old(self)@[3], 16, 3, value as u32, 10, 6);
            bits::lemma_field32_with_field32_other(old(self)@[3], 16, 3, value as u32, 1, 9);
        }
        self.0.0[3] = bits::set_bits_u32(self.0.0[3], 16, 3, value as u32);
        self
    }

    /// Returns the value of the Endpoint ID field.
    pub fn endpoint_id(&self) -> (r: u8)
        ensures
            r == bits::field32(self@[3], 16, 5),
    {
        proof {
            bits::lemma_mask32_values();
        }
        bits::get_bits_u32(self.0.0[3], 16, 5) as u8
    }

    /// Sets the value of the Endpoint ID field.
    ///
    /// The value must fit in the 5 bits of the field.
    pub fn set_endpoint_id(&mut self, value: u8) -> (r: &mut Self)
        requires
            value < 32,
        ensures
            (*r)@ == old(self)@.update(3, bits::with_field32(old(self)@[3], 16, 5, value as u32)),
            *final(self) == *final(r),
    {
        proof {
            use_type_invariant(&*self);
            bits::lemma_mask32_values();
            bits::lemma_field32_with_field32_other(old(self)@[3], 16, 5, value as u32, 10, 6);
            bits::lemma_field32_with_field32_other(old(self)@[3], 16, 5, value as u32, 1, 9);
        }
        self.0.0[3] = bits::set_bits_u32(self.0.0[3], 16, 5, value as u32);
        self
    }

    /// Returns the value of the Slot ID field.
    pub fn slot_id(&self) -> (r: u8)
        ensures
            r == bits::field32(self@[3], 24, 8),
    {
        proof {
            bits::lemma_mask32_values();
        }
        bits::get_bits_u32(self.0.0[3], 24, 8) as u8
    }

    /// Sets the value of the Slot ID field.
    pub fn set_slot_id(&mut self, value: u8) -> (r: &mut Self)
        ensures
            (*r)@ == old(self)@.update(3, bits::with_field32(old(self)@[3], 24, 8, value as u32)),
            *final(self) == *final(r),
    {
        proof {
            use_type_invariant(&*self);
            bits::lemma_mask32_values();
            bits::lemma_field32_with_field32_other(old(self)@[3], 24, 8, value as u32, 10, 6);
            bits::lemma_field32_with_field32_other(old(self)@[3], 24, 8, value as u32, 1, 9);
        }
        self.0.0[3] = bits::set_bits_u32(self.0.0[3], 24, 8, value as u32);
        self
    }
}

impl Default for GetExtendedProperty {
    fn default() -> (r: Self)
        ensures
            r@ == seq![0u32, 0u32, 0u32, bits::with_field32(0, 10, 6, 24)],
    {
        Self::new()
    }
}

/// A Set Extended Property Command TRB.
#[derive(Clone, Copy, Debug, PartialEq, Eq, Hash)]
pub struct SetExtendedProperty(TRB);

impl View for SetExtendedProperty {
    type V = Seq<u32>;

    closed spec fn view(&self) -> Seq<u32> {
        self.0@
    }
}

impl SetExtendedProperty {
    /// Whether `raw` is a Set Extended Property Command TRB: its TRB Type is 25 and its RsvdZ
    /// fields are 0.
    pub open spec fn valid(raw: Seq<u32>) -> bool {
        &&& bits::field32(raw[3], 10, 6) == 25
        &&& bits::field32(raw[0], 0, 4) == 0
        &&& bits::field32(raw[2], 16, 16) == 0
        &&& bits::field32(raw[3], 1, 9) == 0
    }

    /// Creates a new Set Extended Property Command TRB.
    ///
    /// This method sets the value of the TRB Type field properly. All the other fields are set
    /// to 0.
    pub fn new() -> (r: Self)
        ensures
            r@ == seq![0u32, 0u32, 0u32, bits::with_field32(0, 10, 6, 25)],
            Self::valid(r@),
    {
        proof {
            bits::lemma_mask32_values();
            bits::lemma_field32_with_field32_same(0, 10, 6, 25);
            bits::lemma_field32_of_zero(0, 4);
            bits::lemma_field32_of_zero(16, 16);
            bits::lemma_field32_with_field32_other(0, 10, 6, 25, 1, 9);
            bits::lemma_field32_of_zero(1, 9);
        }
        Self(TRB::new(AllowedType::SetExtendedProperty))
    }

    /// Converts a TRB into a Set Extended Property Command TRB.
    ///
    /// # Errors
    ///
    /// This method returns the given TRB if its TRB Type is not that of a Set Extended Property
    /// Command TRB, or if one of its RsvdZ fields is not 0.
    pub fn try_from(block: TRB) -> (r: Result<Self, TRB>)
        ensures
            r is Ok <==> Self::valid(block@),
            r matches Ok(t) ==> t@ == block@,
            r matches Err(b) ==> b == block,
    {
        proof {
            bits::lemma_mask32_values();
        }
        match block.trb_type() {
            Some(AllowedType::SetExtendedProperty) => {},
            _ => {
                return Err(block);
            },
        }
        if bits::get_bits_u32(block.0[0], 0, 4) != 0
            || bits::get_bits_u32(block.0[2], 16, 16) != 0
            || bits::get_bits_u32(block.0[3], 1, 9) != 0
        {
            return Err(block);
        }
        Ok(Self(block))
    }

    /// Converts the Set Extended Property Command TRB into a raw TRB.
    pub fn into_trb(self) -> (r: TRB)
        ensures
            r@ == self@,
    {
        self.0
    }

    /// Returns the value of the Extended Capability Identifier field.
    pub fn extended_capability_identifier(&self) -> (r: u16)
        ensures
            r == bits::field32(self@[2], 0, 16),
    {
        proof {
            bits::lemma_mask32_values();
        }
        bits::get_bits_u32(self.0.0[2], 0, 16) as u16
    }

    /// Sets the value of the Extended Capability Identifier field.
    pub fn set_extended_capability_identifier(&mut self, value: u16) -> (r: &mut Self)
        ensures
            (*r)@ == old(self)@.update(2, bits::with_field32(old(self)@[2], 0, 16, value as u32)),
            *final(self) == *final(r),
    {
        proof {
            bits::lemma_mask32_values();
        }
        self.0.0[2] = bits::set_bits_u32(self.0.0[2], 0, 16, value as u32);
        self
    }

    /// Returns the value of the Capability Parameter field.
    pub fn capability_parameter(&self) -> (r: u8)
        ensures
            r == bits::field32(self@[2], 16, 8),
    {
        proof {
            bits::lemma_mask32_values();
        }
        bits::get_bits_u32(self.0.0[2], 16, 8) as u8
    }

    /// Sets the value of the Capability Parameter field.
    pub fn set_capability_parameter(&mut self, value: u8) -> (r: &mut Self)
        ensures
            (*r)@ == old(self)@.update(2, bits::with_field32(old(self)@[2], 16, 8, value as u32)),
            *final(self) == *final(r),
    {
        proof {
            bits::lemma_mask32_values();
        }
        self.0.0[2] = bits::set_bits_u32(self.0.0[2], 16, 8, value as u32);
        self
    }

    /// Returns the value of the Command Sub Type field.
    pub fn command_sub_type(&self) -> (r: u8)
        ensures
            r == bits::field32(self@[3], 16, 3),
    {
        proof {
            bits::lemma_mask32_values();
        }
        bits::get_bits_u32(self.0.0[3], 16, 3) as u8
    }

    /// Sets the value of the Command Sub Type field.
    ///
    /// The value must fit in the 3 bits of the field.
    pub fn set_command_sub_type(&mut self, value: u8) -> (r: &mut Self)
        requires
            value < 8,
        ensures
            (*r)@ == old(self)@.update(3, bits::with_field32(old(self)@[3], 16, 3, value as u32)),
            *final(self) == *final(r),
    {
        proof {
            bits::lemma_mask32_values();
        }
        self.0.0[3] = bits::set_bits_u32(self.0.0[3], 16, 3, value as u32);
        self
    }

    /// Returns the value of the Endpoint ID field.
    pub fn endpoint_id(&self) -> (r: u8)
        ensures
            r == bits::field32(self@[3], 16, 5),
    {
        proof {
            bits::lemma_mask32_values();
        }
        bits::get_bits_u32(self.0.0[3], 16, 5) as u8
    }

    /// Sets the value of the Endpoint ID field.
    ///
    /// The value must fit in the 5 bits of the field.
    pub fn set_endpoint_id(&mut self, value: u8) -> (r: &mut Self)
        requires
            value < 32,
        ensures
            (*r)@ == old(self)@.update(3, bits::with_field32(old(self)@[3], 16, 5, value as u32)),
            *final(self) == *final(r),
    {
        proof {
            bits::lemma_mask32_values();
        }
        self.0.0[3] = bits::set_bits_u32(self.0.0[3], 16, 5, value as u32);
        self
    }

    /// Returns the value of the Slot ID field.
    pub fn slot_id(&self) -> (r: u8)
        ensures
            r == bits::field32(self@[3], 24, 8),
    {
        proof {
            bits::lemma_mask32_values();
        }
        bits::get_bits_u32(self.0.0[3], 24, 8) as u8
    }

    /// Sets the value of the Slot ID field.
    pub fn set_slot_id(&mut self, value: u8) -> (r: &mut Self)
        ensures
            (*r)@ == old(self)@.update(3, bits::with_field32(old(self)@[3], 24, 8, value as u32)),
            *final(self) == *final(r),
    {
        proof {
            bits::lemma_mask32_values();
        }
        self.0.0[3] = bits::set_bits_u32(self.0.0[3], 24, 8, value as u32);
        self
    }
}

impl Default for SetExtendedProperty {
    fn default() -> (r: Self)
        ensures
            r@ == seq![0u32, 0u32, 0u32, bits::with_field32(0, 10, 6, 25)],
    {
        Self::new()
    }
}

} // verus!
