//! The xHC Contexts.
//!
//! A context is 32 or 64 bytes long, as the Context Size bit of the Capability Parameters 1
//! register says; the const parameter `N` of each type is its length in Dwords, 8 or 16. Only
//! the first 8 Dwords hold fields.
use crate::bits;
use vstd::prelude::*;

pub mod any_size;
pub mod endpoint;
pub mod slot;

verus! {

/// The number of Endpoint Contexts in a Device Context.
pub const NUM_OF_ENDPOINT_CONTEXTS: usize = 31;

/// 32 byte Input Context.
pub type Input32Byte = Input<8>;

/// 64 byte Input Context.
pub type Input64Byte = Input<16>;

/// 32 byte Input Control Context.
pub type InputControl32Byte = InputControl<8>;

/// 64 byte Input Control Context.
pub type InputControl64Byte = InputControl<16>;

/// 32 byte Device Context.
pub type Device32Byte = Device<8>;

/// 64 byte Device Context.
pub type Device64Byte = Device<16>;

/// 32 byte Slot Context.
pub type Slot32Byte = Slot<8>;

/// 64 byte Slot Context.
pub type Slot64Byte = Slot<16>;

/// 32 byte Endpoint Context.
pub type Endpoint32Byte = Endpoint<8>;

/// 64 byte Endpoint Context.
pub type Endpoint64Byte = Endpoint<16>;

/// Slot State.
#[derive(Copy, Clone, PartialEq, Eq, Structural, PartialOrd, Ord, Hash, Debug)]
pub enum SlotState {
    /// Disabled/Enabled.
    DisabledEnabled,
    /// Default.
    Default,
    /// Addressed.
    Addressed,
    /// Configured.
    Configured,
}

impl SlotState {
    /// The values of the Slot State field are those of the Slot Context in the xHCI specification:
    /// each variant is encoded as its number, each number decodes to its variant, and no other
    /// number decodes to a variant.
    pub proof fn lemma_numbers()
        ensures
            SlotState::DisabledEnabled.encoding() == 0,
            SlotState::Default.encoding() == 1,
            SlotState::Addressed.encoding() == 2,
            SlotState::Configured.encoding() == 3,
            SlotState::decode(0) == Some(SlotState::DisabledEnabled),
            SlotState::decode(1) == Some(SlotState::Default),
            SlotState::decode(2) == Some(SlotState::Addressed),
            SlotState::decode(3) == Some(SlotState::Configured),
            forall|v: u32|
                #[trigger] SlotState::decode(v) is Some ==> (
                    v == 0 || v == 1 || v == 2 || v == 3
                ),
    {
    }

    /// The number that encodes this value in its field.
    pub open spec fn encoding(self) -> u32 {
        match self {
            SlotState::DisabledEnabled => 0,
            SlotState::Default => 1,
            SlotState::Addressed => 2,
            SlotState::Configured => 3,
        }
    }

    /// The value that the number `v` encodes, if it encodes one.
    pub open spec fn decode(v: u32) -> Option<SlotState> {
        if v == 0 {
            Some(SlotState::DisabledEnabled)
        } else if v == 1 {
            Some(SlotState::Default)
        } else if v == 2 {
            Some(SlotState::Addressed)
        } else if v == 3 {
            Some(SlotState::Configured)
        } else {
            None
        }
    }

    /// Returns the number that encodes this value.
    pub fn to_u32(self) -> (r: u32)
        ensures
            r == self.encoding(),
    {
        match self {
            SlotState::DisabledEnabled => 0,
            SlotState::Default => 1,
            SlotState::Addressed => 2,
            SlotState::Configured => 3,
        }
    }

    /// Returns the value that `v` encodes, or `None` if `v` is a reserved number.
    pub fn from_u32(v: u32) -> (r: Option<Self>)
        ensures
            r == Self::decode(v),
    {
        if v == 0 {
            Some(SlotState::DisabledEnabled)
        } else if v == 1 {
            Some(SlotState::Default)
        } else if v == 2 {
            Some(SlotState::Addressed)
        } else if v == 3 {
            Some(SlotState::Configured)
        } else {
            None
        }
    }

    /// Decoding the number that encodes a value gives that value back.
    pub proof fn lemma_decode_encoding(self)
        ensures
            Self::decode(self.encoding()) == Some(self),
    {
    }
}

/// Endpoint State.
///
/// The descriptions of each variant are taken from Table 6-8 of eXtensible Host Controller Interface for
/// Universal Serial Bus(xHCI) Requirements Specification May2019 Revision 1.2.
#[derive(Copy, Clone, PartialEq, Eq, Structural, PartialOrd, Ord, Hash, Debug)]
pub enum EndpointState {
    /// The endpoint is not operational.
    Disabled,
    /// The endpoint is operational, either waiting for a doorbell ring or processing TDs.
    Running,
    /// The endpoint is halted due to a Halt condition detected on the USB.
    Halted,
    /// The endpoint is not running due to a Stop Endpoint Command or recovering from a Halt
    /// condition.
    Stopped,
    /// The endpoint is not running due to a TRB Erorr.
    Error,
}

impl EndpointState {
    /// The values of the Endpoint State field are those of the Endpoint Context in the xHCI
    /// specification: each variant is encoded as its number, each number decodes to its variant,
    /// and no other number decodes to a variant.
    pub proof fn lemma_numbers()
        ensures
            EndpointState::Disabled.encoding() == 0,
            EndpointState::Running.encoding() == 1,
            EndpointState::Halted.encoding() == 2,
            EndpointState::Stopped.encoding() == 3,
            EndpointState::Error.encoding() == 4,
            EndpointState::decode(0) == Some(EndpointState::Disabled),
            EndpointState::decode(1) == Some(EndpointState::Running),
            EndpointState::decode(2) == Some(EndpointState::Halted),
            EndpointState::decode(3) == Some(EndpointState::Stopped),
            EndpointState::decode(4) == Some(EndpointState::Error),
            forall|v: u32|
                #[trigger] EndpointState::decode(v) is Some ==> (
                    v == 0 || v == 1 || v == 2 || v == 3 || v == 4
                ),
    {
    }

    /// The number that encodes this value in its field.
    pub open spec fn encoding(self) -> u32 {
        match self {
            EndpointState::Disabled => 0,
            EndpointState::Running => 1,
            EndpointState::Halted => 2,
            EndpointState::Stopped => 3,
            EndpointState::Error => 4,
        }
    }

    /// The value that the number `v` encodes, if it encodes one.
    pub open spec fn decode(v: u32) -> Option<EndpointState> {
        if v == 0 {
            Some(EndpointState::Disabled)
        } else if v == 1 {
            Some(EndpointState::Running)
        } else if v == 2 {
            Some(EndpointState::Halted)
        } else if v == 3 {
            Some(EndpointState::Stopped)
        } else if v == 4 {
            Some(EndpointState::Error)
        } else {
            None
        }
    }

    /// Returns the number that encodes this value.
    pub fn to_u32(self) -> (r: u32)
        ensures
            r == self.encoding(),
    {
        match self {
            EndpointState::Disabled => 0,
            EndpointState::Running => 1,
            EndpointState::Halted => 2,
            EndpointState::Stopped => 3,
            EndpointState::Error => 4,
        }
    }

    /// Returns the value that `v` encodes, or `None` if `v` is a reserved number.
    pub fn from_u32(v: u32) -> (r: Option<Self>)
        ensures
            r == Self::decode(v),
    {
        if v == 0 {
            Some(EndpointState::Disabled)
        } else if v == 1 {
            Some(EndpointState::Running)
        } else if v == 2 {
            Some(EndpointState::Halted)
        } else if v == 3 {
            Some(EndpointState::Stopped)
        } else if v == 4 {
            Some(EndpointState::Error)
        } else {
            None
        }
    }

    /// Decoding the number that encodes a value gives that value back.
    pub proof fn lemma_decode_encoding(self)
        ensures
            Self::decode(self.encoding()) == Some(self),
    {
    }
}

/// Endpoint Type.
#[derive(Copy, Clone, PartialEq, Eq, Structural, PartialOrd, Ord, Hash, Debug)]
pub enum EndpointType {
    /// Not Valid.
    NotValid,
    /// Isoch Out.
    IsochOut,
    /// Bulk Out.
    BulkOut,
    /// Interrupt Out.
    InterruptOut,
    /// Control Bidirectional.
    Control,
    /// Isoch In.
    IsochIn,
    /// Bulk In.
    BulkIn,
    /// Interrupt In.
    InterruptIn,
}

impl EndpointType {
    /// The values of the Endpoint Type (EP Type) field are those of the Endpoint Context in the
    /// xHCI specification: each variant is encoded as its number, each number decodes to its
    /// variant, and no other number decodes to a variant.
    pub proof fn lemma_numbers()
        ensures
            EndpointType::NotValid.encoding() == 0,
            EndpointType::IsochOut.encoding() == 1,
            EndpointType::BulkOut.encoding() == 2,
            EndpointType::InterruptOut.encoding() == 3,
            EndpointType::Control.encoding() == 4,
            EndpointType::IsochIn.encoding() == 5,
            EndpointType::BulkIn.encoding() == 6,
            EndpointType::InterruptIn.encoding() == 7,
            EndpointType::decode(0) == Some(EndpointType::NotValid),
            EndpointType::decode(1) == Some(EndpointType::IsochOut),
            EndpointType::decode(2) == Some(EndpointType::BulkOut),
            EndpointType::decode(3) == Some(EndpointType::InterruptOut),
            EndpointType::decode(4) == Some(EndpointType::Control),
            EndpointType::decode(5) == Some(EndpointType::IsochIn),
            EndpointType::decode(6) == Some(EndpointType::BulkIn),
            EndpointType::decode(7) == Some(EndpointType::InterruptIn),
            forall|v: u32|
                #[trigger] EndpointType::decode(v) is Some ==> (
                    v == 0 || v == 1 || v == 2 || v == 3 || v == 4 || v == 5 || v == 6 || v == 7
                ),
    {
    }

    /// The number that encodes this value in its field.
    pub open spec fn encoding(self) -> u32 {
        match self {
            EndpointType::NotValid => 0,
            EndpointType::IsochOut => 1,
            EndpointType::BulkOut => 2,
            EndpointType::InterruptOut => 3,
            EndpointType::Control => 4,
            EndpointType::IsochIn => 5,
            EndpointType::BulkIn => 6,
            EndpointType::InterruptIn => 7,
        }
    }

    /// The value that the number `v` encodes, if it encodes one.
    pub open spec fn decode(v: u32) -> Option<EndpointType> {
        if v == 0 {
            Some(EndpointType::NotValid)
        } else if v == 1 {
            Some(EndpointType::IsochOut)
        } else if v == 2 {
            Some(EndpointType::BulkOut)
        } else if v == 3 {
            Some(EndpointType::InterruptOut)
        } else if v == 4 {
            Some(EndpointType::Control)
        } else if v == 5 {
            Some(EndpointType::IsochIn)
        } else if v == 6 {
            Some(EndpointType::BulkIn)
        } else if v == 7 {
            Some(EndpointType::InterruptIn)
        } else {
            None
        }
    }

    /// Returns the number that encodes this value.
    pub fn to_u32(self) -> (r: u32)
        ensures
            r == self.encoding(),
    {
        match self {
            EndpointType::NotValid => 0,
            EndpointType::IsochOut => 1,
            EndpointType::BulkOut => 2,
            EndpointType::InterruptOut => 3,
            EndpointType::Control => 4,
            EndpointType::IsochIn => 5,
            EndpointType::BulkIn => 6,
            EndpointType::InterruptIn => 7,
        }
    }

    /// Returns the value that `v` encodes, or `None` if `v` is a reserved number.
    pub fn from_u32(v: u32) -> (r: Option<Self>)
        ensures
            r == Self::decode(v),
    {
        if v == 0 {
            Some(EndpointType::NotValid)
        } else if v == 1 {
            Some(EndpointType::IsochOut)
        } else if v == 2 {
            Some(EndpointType::BulkOut)
        } else if v == 3 {
            Some(EndpointType::InterruptOut)
        } else if v == 4 {
            Some(EndpointType::Control)
        } else if v == 5 {
            Some(EndpointType::IsochIn)
        } else if v == 6 {
            Some(EndpointType::BulkIn)
        } else if v == 7 {
            Some(EndpointType::InterruptIn)
        } else {
            None
        }
    }

    /// Decoding the number that encodes a value gives that value back.
    pub proof fn lemma_decode_encoding(self)
        ensures
            Self::decode(self.encoding()) == Some(self),
    {
    }
}

/// Input Context.
#[derive(Copy, Clone, Debug, Ord, PartialOrd, Eq, PartialEq, Hash)]
pub struct Input<const N: usize> {
    /// Input Control Context.
    pub control: InputControl<N>,
    /// Device Context.
    pub device: Device<N>,
}

impl<const N: usize> Input<N> {
    fn new() -> (r: Self)
        requires
            N >= 8,
        ensures
            r.control@ == Seq::new(N as nat, |i: int| 0u32),
            r.device.slot@ == Seq::new(N as nat, |i: int| 0u32),
            forall|i: int|
                0 <= i < NUM_OF_ENDPOINT_CONTEXTS ==> #[trigger] r.device.endpoints@[i]@ == Seq::new(
                    N as nat,
                    |j: int| 0u32,
                ),
    {
        Self { control: InputControl::new(), device: Device::new() }
    }

    /// Returns the Input Control Context.
    pub fn control(&self) -> (r: &InputControl<N>)
        ensures
            *r == self.control,
    {
        &self.control
    }

    /// Returns the Input Control Context, to change it.
    pub fn control_mut(&mut self) -> (r: &mut InputControl<N>)
        ensures
            *r == old(self).control,
            final(self).control == *final(r),
            final(self).device == old(self).device,
    {
        &mut self.control
    }

    /// Returns the Device Context.
    pub fn device(&self) -> (r: &Device<N>)
        ensures
            *r == self.device,
    {
        &self.device
    }

    /// Returns the Device Context, to change it.
    pub fn device_mut(&mut self) -> (r: &mut Device<N>)
        ensures
            *r == old(self).device,
            final(self).device == *final(r),
            final(self).control == old(self).control,
    {
        &mut self.device
    }
}

impl Input<8> {
    /// Creates an empty 32 byte Input Context.
    pub fn new_32byte() -> (r: Self)
        ensures
            r.control@ == Seq::new(8, |i: int| 0u32),
            r.device.slot@ == Seq::new(8, |i: int| 0u32),
            forall|i: int|
                0 <= i < NUM_OF_ENDPOINT_CONTEXTS ==> #[trigger] r.device.endpoints@[i]@ == Seq::new(
                    8,
                    |j: int| 0u32,
                ),
    {
        Self::new()
    }
}

impl Default for Input<8> {
    fn default() -> (r: Self)
        ensures
            r.control@ == Seq::new(8, |i: int| 0u32),
            r.device.slot@ == Seq::new(8, |i: int| 0u32),
            forall|i: int|
                0 <= i < NUM_OF_ENDPOINT_CONTEXTS ==> #[trigger] r.device.endpoints@[i]@ == Seq::new(
                    8,
                    |j: int| 0u32,
                ),
    {
        Self::new()
    }
}

impl Input<16> {
    /// Creates an empty 64 byte Input Context.
    pub fn new_64byte() -> (r: Self)
        ensures
            r.control@ == Seq::new(16, |i: int| 0u32),
            r.device.slot@ == Seq::new(16, |i: int| 0u32),
            forall|i: int|
                0 <= i < NUM_OF_ENDPOINT_CONTEXTS ==> #[trigger] r.device.endpoints@[i]@ == Seq::new(
                    16,
                    |j: int| 0u32,
                ),
    {
        Self::new()
    }
}

impl Default for Input<16> {
    fn default() -> (r: Self)
        ensures
            r.control@ == Seq::new(16, |i: int| 0u32),
            r.device.slot@ == Seq::new(16, |i: int| 0u32),
            forall|i: int|
                0 <= i < NUM_OF_ENDPOINT_CONTEXTS ==> #[trigger] r.device.endpoints@[i]@ == Seq::new(
                    16,
                    |j: int| 0u32,
                ),
    {
        Self::new()
    }
}

/// Input Control Context.
#[derive(Copy, Clone, Debug, Ord, PartialOrd, Eq, PartialEq, Hash)]
pub struct InputControl<const N: usize>([u32; N]);

impl<const N: usize> View for InputControl<N> {
    type V = Seq<u32>;

    closed spec fn view(&self) -> Seq<u32> {
        self.0@
    }
}

impl<const N: usize> InputControl<N> {
    /// A Input Control Context holds at least 8 Dwords.
    #[verifier::type_invariant]
    spec fn holds_eight_dwords(&self) -> bool {
        N >= 8
    }

    fn new() -> (r: Self)
        requires
            N >= 8,
        ensures
            r@ == Seq::new(N as nat, |i: int| 0u32),
    {
        let r = Self([0; N]);
        assert(r@ =~= Seq::new(N as nat, |i: int| 0u32));
        r
    }

    /// The number of Dwords of the context.
    pub open spec fn len() -> nat {
        N as nat
    }

    /// Returns the number of Dwords of the context: `N`, which is at least 8.
    pub fn dword_count(&self) -> (r: usize)
        ensures
            r == N,
            self@.len() == N,
            N >= 8,
    {
        proof {
            use_type_invariant(self);
        }
        N
    }

    /// Wraps the raw Dwords of a Input Control Context. The context holds 8 Dwords if it is 32 bytes
    /// long, and 16 if it is 64 bytes long.
    pub fn from_raw(raw: [u32; N]) -> (r: Self)
        requires
            N >= 8,
        ensures
            r@ == raw@,
    {
        Self(raw)
    }

    /// Returns the raw Dwords of the context.
    pub fn into_raw(self) -> (r: [u32; N])
        ensures
            r@ == self@,
    {
        self.0
    }
}

impl InputControl<8> {
    /// Creates an empty 32 byte Input Control Context.
    pub fn new_32byte() -> (r: Self)
        ensures
            r@ == Seq::new(8, |i: int| 0u32),
    {
        Self::new()
    }
}

impl Default for InputControl<8> {
    fn default() -> (r: Self)
        ensures
            r@ == Seq::new(8, |i: int| 0u32),
    {
        Self::new()
    }
}

impl InputControl<16> {
    /// Creates an empty 64 byte Input Control Context.
    pub fn new_64byte() -> (r: Self)
        ensures
            r@ == Seq::new(16, |i: int| 0u32),
    {
        Self::new()
    }
}

impl Default for InputControl<16> {
    fn default() -> (r: Self)
        ensures
            r@ == Seq::new(16, |i: int| 0u32),
    {
        Self::new()
    }
}

impl<const N: usize> InputControl<N> {
    /// Returns the `i`th Drop Context flag. `i` starts from 0.
    ///
    /// `i` must be within `2..=31`.
    pub fn drop_context_flag(self, i: usize) -> (r: bool)
        requires
            2 <= i <= 31,
        ensures
            r == bits::bit32(self@[0], i as u32),
    {
        proof {
            use_type_invariant(&self);
        }
        bits::get_bit_u32(self.0[0], i as u32)
    }

    /// Sets the `i`th Drop Context flag. `i` starts from 0.
    ///
    /// `i` must be within `2..=31`.
    pub fn set_drop_context_flag(&mut self, i: usize) -> (r: &mut Self)
        requires
            2 <= i <= 31,
        ensures
            (*r)@ == old(self)@.update(0, bits::with_bit32(old(self)@[0], i as u32, true)),
            *final(self) == *final(r),
    {
        proof {
            use_type_invariant(&*self);
        }
        self.0[0] = bits::set_bit_u32(self.0[0], i as u32, true);
        self
    }

    /// Clears the `i`th Drop Context flag. `i` starts from 0.
    ///
    /// `i` must be within `2..=31`.
    pub fn clear_drop_context_flag(&mut self, i: usize) -> (r: &mut Self)
        requires
            2 <= i <= 31,
        ensures
            (*r)@ == old(self)@.update(0, bits::with_bit32(old(self)@[0], i as u32, false)),
            *final(self) == *final(r),
    {
        proof {
            use_type_invariant(&*self);
        }
        self.0[0] = bits::set_bit_u32(self.0[0], i as u32, false);
        self
    }

    /// Returns the `i`th Add Context flag. `i` starts from 0.
    ///
    /// `i` must be at most 31.
    pub fn add_context_flag(self, i: usize) -> (r: bool)
        requires
            i <= 31,
        ensures
            r == bits::bit32(self@[1], i as u32),
    {
        proof {
            use_type_invariant(&self);
        }
        bits::get_bit_u32(self.0[1], i as u32)
    }

    /// Sets the `i`th Add Context flag. `i` starts from 0.
    ///
    /// `i` must be at most 31.
    pub fn set_add_context_flag(&mut self, i: usize) -> (r: &mut Self)
        requires
            i <= 31,
        ensures
            (*r)@ == old(self)@.update(1, bits::with_bit32(old(self)@[1], i as u32, true)),
            *final(self) == *final(r),
    {
        proof {
            use_type_invariant(&*self);
        }
        self.0[1] = bits::set_bit_u32(self.0[1], i as u32, true);
        self
    }

    /// Clears the `i`th Add Context flag. `i` starts from 0.
    ///
    /// `i` must be at most 31.
    pub fn clear_add_context_flag(&mut self, i: usize) -> (r: &mut Self)
        requires
            i <= 31,
        ensures
            (*r)@ == old(self)@.update(1, bits::with_bit32(old(self)@[1], i as u32, false)),
            *final(self) == *final(r),
    {
        proof {
            use_type_invariant(&*self);
        }
        self.0[1] = bits::set_bit_u32(self.0[1], i as u32, false);
        self
    }

    /// Returns the value of the Configuration Value field.
    pub fn configuration_value(self) -> (r: u8)
        ensures
            r == bits::field32(self@[7], 0, 8),
    {
        proof {
            use_type_invariant(&self);
            bits::lemma_mask32_values();
        }
        bits::get_bits_u32(self.0[7], 0, 8) as u8
    }

    /// Sets the value of the Configuration Value field.
    pub fn set_configuration_value(&mut self, value: u8) -> (r: &mut Self)
        ensures
            (*r)@ == old(self)@.update(7, bits::with_field32(old(self)@[7], 0, 8, value as u32)),
            *final(self) == *final(r),
    {
        proof {
            use_type_invariant(&*self);
            bits::lemma_mask32_values();
        }
        self.0[7] = bits::set_bits_u32(self.0[7], 0, 8, value as u32);
        self
    }

    /// Returns the value of the Interface Number field.
    pub fn interface_number(self) -> (r: u8)
        ensures
            r == bits::field32(self@[7], 8, 8),
    {
        proof {
            use_type_invariant(&self);
            bits::lemma_mask32_values();
        }
        bits::get_bits_u32(self.0[7], 8, 8) as u8
    }

    /// Sets the value of the Interface Number field.
    pub fn set_interface_number(&mut self, value: u8) -> (r: &mut Self)
        ensures
            (*r)@ == old(self)@.update(7, bits::with_field32(old(self)@[7], 8, 8, value as u32)),
            *final(self) == *final(r),
    {
        proof {
            use_type_invariant(&*self);
            bits::lemma_mask32_values();
        }
        self.0[7] = bits::set_bits_u32(self.0[7], 8, 8, value as u32);
        self
    }

    /// Returns the value of the Alternate Setting field.
    pub fn alternate_setting(self) -> (r: u8)
        ensures
            r == bits::field32(self@[7], 16, 8),
    {
        proof {
            use_type_invariant(&self);
            bits::lemma_mask32_values();
        }
        bits::get_bits_u32(self.0[7], 16, 8) as u8
    }

    /// Sets the value of the Alternate Setting field.
    pub fn set_alternate_setting(&mut self, value: u8) -> (r: &mut Self)
        ensures
            (*r)@ == old(self)@.update(7, bits::with_field32(old(self)@[7], 16, 8, value as u32)),
            *final(self) == *final(r),
    {
        proof {
            use_type_invariant(&*self);
            bits::lemma_mask32_values();
        }
        self.0[7] = bits::set_bits_u32(self.0[7], 16, 8, value as u32);
        self
    }
}

/// Device Context.
#[derive(Copy, Clone, Debug, Ord, PartialOrd, Eq, PartialEq, Hash)]
pub struct Device<const N: usize> {
    /// Slot Context.
    pub slot: Slot<N>,
    /// Endpoint Contexts.
    pub endpoints: [Endpoint<N>; NUM_OF_ENDPOINT_CONTEXTS],
}

impl<const N: usize> Device<N> {
    fn new() -> (r: Self)
        requires
            N >= 8,
        ensures
            r.slot@ == Seq::new(N as nat, |i: int| 0u32),
            forall|i: int|
                0 <= i < NUM_OF_ENDPOINT_CONTEXTS ==> #[trigger] r.endpoints@[i]@ == Seq::new(
                    N as nat,
                    |j: int| 0u32,
                ),
    {
        let e = Endpoint::new();
        let endpoints: [Endpoint<N>; NUM_OF_ENDPOINT_CONTEXTS] = [
            e, e, e, e, e, e, e, e, e, e, e, e, e, e, e, e, e, e, e, e, e, e, e, e, e, e, e, e, e, e, e,
        ];
        assert(endpoints@ =~= Seq::new(31, |i: int| e));
        Self { slot: Slot::new(), endpoints }
    }

    /// Returns the Endpoint Context of the Device Context Index `dci`.
    ///
    /// `dci` must be within `1..=31`; the Slot Context is the field `slot`.
    pub fn endpoint(&self, dci: usize) -> (r: &Endpoint<N>)
        requires
            1 <= dci <= 31,
        ensures
            *r == self.endpoints@[dci - 1],
    {
        &self.endpoints[dci - 1]
    }

    /// Returns the Endpoint Context of the Device Context Index `dci`, to change it.
    ///
    /// `dci` must be within `1..=31`; the Slot Context is the field `slot`.
    pub fn endpoint_mut(&mut self, dci: usize) -> (r: &mut Endpoint<N>)
        requires
            1 <= dci <= 31,
        ensures
            *r == old(self).endpoints@[dci - 1],
            final(self).endpoints@ == old(self).endpoints@.update(dci - 1, *final(r)),
            final(self).slot == old(self).slot,
    {
        &mut self.endpoints[dci - 1]
    }

    /// Returns the Slot Context.
    pub fn slot(&self) -> (r: &Slot<N>)
        ensures
            *r == self.slot,
    {
        &self.slot
    }

    /// Returns the Slot Context, to change it.
    pub fn slot_mut(&mut self) -> (r: &mut Slot<N>)
        ensures
            *r == old(self).slot,
            final(self).slot == *final(r),
            final(self).endpoints == old(self).endpoints,
    {
        &mut self.slot
    }
}

impl Device<8> {
    /// Creates an empty 32 byte Device Context.
    pub fn new_32byte() -> (r: Self)
        ensures
            r.slot@ == Seq::new(8, |i: int| 0u32),
            forall|i: int|
                0 <= i < NUM_OF_ENDPOINT_CONTEXTS ==> #[trigger] r.endpoints@[i]@ == Seq::new(
                    8,
                    |j: int| 0u32,
                ),
    {
        Self::new()
    }
}

impl Default for Device<8> {
    fn default() -> (r: Self)
        ensures
            r.slot@ == Seq::new(8, |i: int| 0u32),
            forall|i: int|
                0 <= i < NUM_OF_ENDPOINT_CONTEXTS ==> #[trigger] r.endpoints@[i]@ == Seq::new(
                    8,
                    |j: int| 0u32,
                ),
    {
        Self::new()
    }
}

impl Device<16> {
    /// Creates an empty 64 byte Device Context.
    pub fn new_64byte() -> (r: Self)
        ensures
            r.slot@ == Seq::new(16, |i: int| 0u32),
            forall|i: int|
                0 <= i < NUM_OF_ENDPOINT_CONTEXTS ==> #[trigger] r.endpoints@[i]@ == Seq::new(
                    16,
                    |j: int| 0u32,
                ),
    {
        Self::new()
    }
}

impl Default for Device<16> {
    fn default() -> (r: Self)
        ensures
            r.slot@ == Seq::new(16, |i: int| 0u32),
            forall|i: int|
                0 <= i < NUM_OF_ENDPOINT_CONTEXTS ==> #[trigger] r.endpoints@[i]@ == Seq::new(
                    16,
                    |j: int| 0u32,
                ),
    {
        Self::new()
    }
}

/// Slot Context.
#[derive(Copy, Clone, Debug, Ord, PartialOrd, Eq, PartialEq, Hash)]
pub struct Slot<const N: usize>([u32; N]);

impl<const N: usize> View for Slot<N> {
    type V = Seq<u32>;

    closed spec fn view(&self) -> Seq<u32> {
        self.0@
    }
}

impl<const N: usize> Slot<N> {
    /// A Slot Context holds at least 8 Dwords.
    #[verifier::type_invariant]
    spec fn holds_eight_dwords(&self) -> bool {
        N >= 8
    }

    fn new() -> (r: Self)
        requires
            N >= 8,
        ensures
            r@ == Seq::new(N as nat, |i: int| 0u32),
    {
        let r = Self([0; N]);
        assert(r@ =~= Seq::new(N as nat, |i: int| 0u32));
        r
    }

    /// The number of Dwords of the context.
    pub open spec fn len() -> nat {
        N as nat
    }

    /// Returns the number of Dwords of the context: `N`, which is at least 8.
    pub fn dword_count(&self) -> (r: usize)
        ensures
            r == N,
            self@.len() == N,
            N >= 8,
    {
        proof {
            use_type_invariant(self);
        }
        N
    }

    /// Wraps the raw Dwords of a Slot Context. The context holds 8 Dwords if it is 32 bytes
    /// long, and 16 if it is 64 bytes long.
    pub fn from_raw(raw: [u32; N]) -> (r: Self)
        requires
            N >= 8,
        ensures
            r@ == raw@,
    {
        Self(raw)
    }

    /// Returns the raw Dwords of the context.
    pub fn into_raw(self) -> (r: [u32; N])
        ensures
            r@ == self@,
    {
        self.0
    }
}

impl Slot<8> {
    /// Creates an empty 32 byte Slot Context.
    pub fn new_32byte() -> (r: Self)
        ensures
            r@ == Seq::new(8, |i: int| 0u32),
    {
        Self::new()
    }
}

impl Default for Slot<8> {
    fn default() -> (r: Self)
        ensures
            r@ == Seq::new(8, |i: int| 0u32),
    {
        Self::new()
    }
}

impl Slot<16> {
    /// Creates an empty 64 byte Slot Context.
    pub fn new_64byte() -> (r: Self)
        ensures
            r@ == Seq::new(16, |i: int| 0u32),
    {
        Self::new()
    }
}

impl Default for Slot<16> {
    fn default() -> (r: Self)
        ensures
            r@ == Seq::new(16, |i: int| 0u32),
    {
        Self::new()
    }
}

impl<const N: usize> Slot<N> {
    /// Returns the value of the Route String field.
    pub fn route_string(self) -> (r: u32)
        ensures
            r == bits::field32(self@[0], 0, 20),
    {
        proof {
            use_type_invariant(&self);
        }
        bits::get_bits_u32(self.0[0], 0, 20)
    }

    /// Sets the value of the Route String field.
    ///
    /// The value must fit in the 20 bits of the field.
    pub fn set_route_string(&mut self, value: u32) -> (r: &mut Self)
        requires
            value < 1048576,
        ensures
            (*r)@ == old(self)@.update(0, bits::with_field32(old(self)@[0], 0, 20, value)),
            *final(self) == *final(r),
    {
        proof {
            use_type_invariant(&*self);
            bits::lemma_mask32_values();
        }
        self.0[0] = bits::set_bits_u32(self.0[0], 0, 20, value);
        self
    }

    /// Returns the value of the Speed field.
    pub fn speed(self) -> (r: u8)
        ensures
            r == bits::field32(self@[0], 20, 4),
    {
        proof {
            use_type_invariant(&self);
            bits::lemma_mask32_values();
        }
        bits::get_bits_u32(self.0[0], 20, 4) as u8
    }

    /// Sets the value of the Speed field.
    ///
    /// The value must fit in the 4 bits of the field.
    pub fn set_speed(&mut self, value: u8) -> (r: &mut Self)
        requires
            value < 16,
        ensures
            (*r)@ == old(self)@.update(0, bits::with_field32(old(self)@[0], 20, 4, value as u32)),
            *final(self) == *final(r),
    {
        proof {
            use_type_invariant(&*self);
            bits::lemma_mask32_values();
        }
        self.0[0] = bits::set_bits_u32(self.0[0], 20, 4, value as u32);
        self
    }

    /// Returns the Multi-TT bit.
    pub fn multi_tt(self) -> (r: bool)
        ensures
            r == bits::bit32(self@[0], 25),
    {
        proof {
            use_type_invariant(&self);
        }
        bits::get_bit_u32(self.0[0], 25)
    }

    /// Sets the Multi-TT bit.
    pub fn set_multi_tt(&mut self) -> (r: &mut Self)
        ensures
            (*r)@ == old(self)@.update(0, bits::with_bit32(old(self)@[0], 25, true)),
            *final(self) == *final(r),
    {
        proof {
            use_type_invariant(&*self);
        }
        self.0[0] = bits::set_bit_u32(self.0[0], 25, true);
        self
    }

    /// Clears the Multi-TT bit.
    pub fn clear_multi_tt(&mut self) -> (r: &mut Self)
        ensures
            (*r)@ == old(self)@.update(0, bits::with_bit32(old(self)@[0], 25, false)),
            *final(self) == *final(r),
    {
        proof {
            use_type_invariant(&*self);
        }
        self.0[0] = bits::set_bit_u32(self.0[0], 25, false);
        self
    }

    /// Returns the Hub bit.
    pub fn hub(self) -> (r: bool)
        ensures
            r == bits::bit32(self@[0], 26),
    {
        proof {
            use_type_invariant(&self);
        }
        bits::get_bit_u32(self.0[0], 26)
    }

    /// Sets the Hub bit.
    pub fn set_hub(&mut self) -> (r: &mut Self)
        ensures
            (*r)@ == old(self)@.update(0, bits::with_bit32(old(self)@[0], 26, true)),
            *final(self) == *final(r),
    {
        proof {
            use_type_invariant(&*self);
        }
        self.0[0] = bits::set_bit_u32(self.0[0], 26, true);
        self
    }

    /// Clears the Hub bit.
    pub fn clear_hub(&mut self) -> (r: &mut Self)
        ensures
            (*r)@ == old(self)@.update(0, bits::with_bit32(old(self)@[0], 26, false)),
            *final(self) == *final(r),
    {
        proof {
            use_type_invariant(&*self);
        }
        self.0[0] = bits::set_bit_u32(self.0[0], 26, false);
        self
    }

    /// Returns the value of the Context Entries field.
    pub fn context_entries(self) -> (r: u8)
        ensures
            r == bits::field32(self@[0], 27, 5),
    {
        proof {
            use_type_invariant(&self);
            bits::lemma_mask32_values();
        }
        bits::get_bits_u32(self.0[0], 27, 5) as u8
    }

    /// Sets the value of the Context Entries field.
    ///
    /// The value must fit in the 5 bits of the field.
    pub fn set_context_entries(&mut self, value: u8) -> (r: &mut Self)
        requires
            value < 32,
        ensures
            (*r)@ == old(self)@.update(0, bits::with_field32(old(self)@[0], 27, 5, value as u32)),
            *final(self) == *final(r),
    {
        proof {
            use_type_invariant(&*self);
            bits::lemma_mask32_values();
        }
        self.0[0] = bits::set_bits_u32(self.0[0], 27, 5, value as u32);
        self
    }

    /// Returns the value of the Max Exit Latency field.
    pub fn max_exit_latency(self) -> (r: u16)
        ensures
            r == bits::field32(self@[1], 0, 16),
    {
        proof {
            use_type_invariant(&self);
            bits::lemma_mask32_values();
        }
        bits::get_bits_u32(self.0[1], 0, 16) as u16
    }

    /// Sets the value of the Max Exit Latency field.
    pub fn set_max_exit_latency(&mut self, value: u16) -> (r: &mut Self)
        ensures
            (*r)@ == old(self)@.update(1, bits::with_field32(old(self)@[1], 0, 16, value as u32)),
            *final(self) == *final(r),
    {
        proof {
            use_type_invariant(&*self);
            bits::lemma_mask32_values();
        }
        self.0[1] = bits::set_bits_u32(self.0[1], 0, 16, value as u32);
        self
    }

    /// Returns the value of the Root Hub Port Number field.
    pub fn root_hub_port_number(self) -> (r: u8)
        ensures
            r == bits::field32(self@[1], 16, 8),
    {
        proof {
            use_type_invariant(&self);
            bits::lemma_mask32_values();
        }
        bits::get_bits_u32(self.0[1], 16, 8) as u8
    }

    /// Sets the value of the Root Hub Port Number field.
    pub fn set_root_hub_port_number(&mut self, value: u8) -> (r: &mut Self)
        ensures
            (*r)@ == old(self)@.update(1, bits::with_field32(old(self)@[1], 16, 8, value as u32)),
            *final(self) == *final(r),
    {
        proof {
            use_type_invariant(&*self);
            bits::lemma_mask32_values();
        }
        self.0[1] = bits::set_bits_u32(self.0[1], 16, 8, value as u32);
        self
    }

    /// Returns the value of the Number of Ports field.
    pub fn number_of_ports(self) -> (r: u8)
        ensures
            r == bits::field32(self@[1], 24, 8),
    {
        proof {
            use_type_invariant(&self);
            bits::lemma_mask32_values();
        }
        bits::get_bits_u32(self.0[1], 24, 8) as u8
    }

    /// Sets the value of the Number of Ports field.
    pub fn set_number_of_ports(&mut self, value: u8) -> (r: &mut Self)
        ensures
            (*r)@ == old(self)@.update(1, bits::with_field32(old(self)@[1], 24, 8, value as u32)),
            *final(self) == *final(r),
    {
        proof {
            use_type_invariant(&*self);
            bits::lemma_mask32_values();
        }
        self.0[1] = bits::set_bits_u32(self.0[1], 24, 8, value as u32);
        self
    }

    /// Returns the value of the Parent Hub Slot ID field.
    pub fn parent_hub_slot_id(self) -> (r: u8)
        ensures
            r == bits::field32(self@[2], 0, 8),
    {
        proof {
            use_type_invariant(&self);
            bits::lemma_mask32_values();
        }
        bits::get_bits_u32(self.0[2], 0, 8) as u8
    }

    /// Sets the value of the Parent Hub Slot ID field.
    pub fn set_parent_hub_slot_id(&mut self, value: u8) -> (r: &mut Self)
        ensures
            (*r)@ == old(self)@.update(2, bits::with_field32(old(self)@[2], 0, 8, value as u32)),
            *final(self) == *final(r),
    {
        proof {
            use_type_invariant(&*self);
            bits::lemma_mask32_values();
        }
        self.0[2] = bits::set_bits_u32(self.0[2], 0, 8, value as u32);
        self
    }

    /// Returns the value of the Parent Port Number field.
    pub fn parent_port_number(self) -> (r: u8)
        ensures
            r == bits::field32(self@[2], 8, 8),
    {
        proof {
            use_type_invariant(&self);
            bits::lemma_mask32_values();
        }
        bits::get_bits_u32(self.0[2], 8, 8) as u8
    }

    /// Sets the value of the Parent Port Number field.
    pub fn set_parent_port_number(&mut self, value: u8) -> (r: &mut Self)
        ensures
            (*r)@ == old(self)@.update(2, bits::with_field32(old(self)@[2], 8, 8, value as u32)),
            *final(self) == *final(r),
    {
        proof {
            use_type_invariant(&*self);
            bits::lemma_mask32_values();
        }
        self.0[2] = bits::set_bits_u32(self.0[2], 8, 8, value as u32);
        self
    }

    /// Returns the value of the TT Think Time field.
    pub fn tt_think_time(self) -> (r: u8)
        ensures
            r == bits::field32(self@[2], 16, 2),
    {
        proof {
            use_type_invariant(&self);
            bits::lemma_mask32_values();
        }
        bits::get_bits_u32(self.0[2], 16, 2) as u8
    }

    /// Sets the value of the TT Think Time field.
    ///
    /// The value must fit in the 2 bits of the field.
    pub fn set_tt_think_time(&mut self, value: u8) -> (r: &mut Self)
        requires
            value < 4,
        ensures
            (*r)@ == old(self)@.update(2, bits::with_field32(old(self)@[2], 16, 2, value as u32)),
            *final(self) == *final(r),
    {
        proof {
            use_type_invariant(&*self);
            bits::lemma_mask32_values();
        }
        self.0[2] = bits::set_bits_u32(self.0[2], 16, 2, value as u32);
        self
    }

    /// Returns the value of the Interrupter Target field.
    pub fn interrupter_target(self) -> (r: u16)
        ensures
            r == bits::field32(self@[2], 22, 10),
    {
        proof {
            use_type_invariant(&self);
            bits::lemma_mask32_values();
        }
        bits::get_bits_u32(self.0[2], 22, 10) as u16
    }

    /// Sets the value of the Interrupter Target field.
    ///
    /// The value must fit in the 10 bits of the field.
    pub fn set_interrupter_target(&mut self, value: u16) -> (r: &mut Self)
        requires
            value < 1024,
        ensures
            (*r)@ == old(self)@.update(2, bits::with_field32(old(self)@[2], 22, 10, value as u32)),
            *final(self) == *final(r),
    {
        proof {
            use_type_invariant(&*self);
            bits::lemma_mask32_values();
        }
        self.0[2] = bits::set_bits_u32(self.0[2], 22, 10, value as u32);
        self
    }

    /// Returns the value of the USB Device Address field.
    pub fn usb_device_address(self) -> (r: u8)
        ensures
            r == bits::field32(self@[3], 0, 8),
    {
        proof {
            use_type_invariant(&self);
            bits::lemma_mask32_values();
        }
        bits::get_bits_u32(self.0[3], 0, 8) as u8
    }

    /// Sets the value of the USB Device Address field.
    pub fn set_usb_device_address(&mut self, value: u8) -> (r: &mut Self)
        ensures
            (*r)@ == old(self)@.update(3, bits::with_field32(old(self)@[3], 0, 8, value as u32)),
            *final(self) == *final(r),
    {
        proof {
            use_type_invariant(&*self);
            bits::lemma_mask32_values();
        }
        self.0[3] = bits::set_bits_u32(self.0[3], 0, 8, value as u32);
        self
    }

    /// Returns Slot State.
    ///
    /// The field must not hold a reserved value.
    pub fn slot_state(self) -> (r: SlotState)
        requires
            SlotState::decode(bits::field32(self@[3], 27, 5) as u32) is Some,
        ensures
            SlotState::decode(bits::field32(self@[3], 27, 5) as u32) == Some(r),
    {
        proof {
            use_type_invariant(&self);
            bits::lemma_mask32_values();
        }
        let v = SlotState::from_u32(bits::get_bits_u32(self.0[3], 27, 5));
        v.unwrap()
    }

    /// Sets Slot State.
    pub fn set_slot_state(&mut self, state: SlotState) -> (r: &mut Self)
        ensures
            (*r)@ == old(self)@.update(3, bits::with_field32(old(self)@[3], 27, 5, state.encoding())),
            *final(self) == *final(r),
    {
        proof {
            use_type_invariant(&*self);
            bits::lemma_mask32_values();
        }
        self.0[3] = bits::set_bits_u32(self.0[3], 27, 5, state.to_u32());
        self
    }
}

/// Endpoint Context.
#[derive(Copy, Clone, Debug, Ord, PartialOrd, Eq, PartialEq, Hash)]
pub struct Endpoint<const N: usize>([u32; N]);

impl<const N: usize> View for Endpoint<N> {
    type V = Seq<u32>;

    closed spec fn view(&self) -> Seq<u32> {
        self.0@
    }
}

impl<const N: usize> Endpoint<N> {
    /// A Endpoint Context holds at least 8 Dwords.
    #[verifier::type_invariant]
    spec fn holds_eight_dwords(&self) -> bool {
        N >= 8
    }

    fn new() -> (r: Self)
        requires
            N >= 8,
        ensures
            r@ == Seq::new(N as nat, |i: int| 0u32),
    {
        let r = Self([0; N]);
        assert(r@ =~= Seq::new(N as nat, |i: int| 0u32));
        r
    }

    /// The number of Dwords of the context.
    pub open spec fn len() -> nat {
        N as nat
    }

    /// Returns the number of Dwords of the context: `N`, which is at least 8.
    pub fn dword_count(&self) -> (r: usize)
        ensures
            r == N,
            self@.len() == N,
            N >= 8,
    {
        proof {
            use_type_invariant(self);
        }
        N
    }

    /// Wraps the raw Dwords of a Endpoint Context. The context holds 8 Dwords if it is 32 bytes
    /// long, and 16 if it is 64 bytes long.
    pub fn from_raw(raw: [u32; N]) -> (r: Self)
        requires
            N >= 8,
        ensures
            r@ == raw@,
    {
        Self(raw)
    }

    /// Returns the raw Dwords of the context.
    pub fn into_raw(self) -> (r: [u32; N])
        ensures
            r@ == self@,
    {
        self.0
    }
}

impl Endpoint<8> {
    /// Creates an empty 32 byte Endpoint Context.
    pub fn new_32byte() -> (r: Self)
        ensures
            r@ == Seq::new(8, |i: int| 0u32),
    {
        Self::new()
    }
}

impl Default for Endpoint<8> {
    fn default() -> (r: Self)
        ensures
            r@ == Seq::new(8, |i: int| 0u32),
    {
        Self::new()
    }
}

impl Endpoint<16> {
    /// Creates an empty 64 byte Endpoint Context.
    pub fn new_64byte() -> (r: Self)
        ensures
            r@ == Seq::new(16, |i: int| 0u32),
    {
        Self::new()
    }
}

impl Default for Endpoint<16> {
    fn default() -> (r: Self)
        ensures
            r@ == Seq::new(16, |i: int| 0u32),
    {
        Self::new()
    }
}

impl<const N: usize> Endpoint<N> {
    /// Returns Endpoint State.
    ///
    /// The field must not hold a reserved value.
    pub fn endpoint_state(self) -> (r: EndpointState)
        requires
            EndpointState::decode(bits::field32(self@[0], 0, 3) as u32) is Some,
        ensures
            EndpointState::decode(bits::field32(self@[0], 0, 3) as u32) == Some(r),
    {
        proof {
            use_type_invariant(&self);
            bits::lemma_mask32_values();
        }
        let v = EndpointState::from_u32(bits::get_bits_u32(self.0[0], 0, 3));
        v.unwrap()
    }

    /// Sets Endpoint State.
    pub fn set_endpoint_state(&mut self, s: EndpointState) -> (r: &mut Self)
        ensures
            (*r)@ == old(self)@.update(0, bits::with_field32(old(self)@[0], 0, 3, s.encoding())),
            *final(self) == *final(r),
    {
        proof {
            use_type_invariant(&*self);
            bits::lemma_mask32_values();
        }
        self.0[0] = bits::set_bits_u32(self.0[0], 0, 3, s.to_u32());
        self
    }

    /// Returns the value of the Mult field.
    pub fn mult(self) -> (r: u8)
        ensures
            r == bits::field32(self@[0], 8, 2),
    {
        proof {
            use_type_invariant(&self);
            bits::lemma_mask32_values();
        }
        bits::get_bits_u32(self.0[0], 8, 2) as u8
    }

    /// Sets the value of the Mult field.
    ///
    /// The value must fit in the 2 bits of the field.
    pub fn set_mult(&mut self, value: u8) -> (r: &mut Self)
        requires
            value < 4,
        ensures
            (*r)@ == old(self)@.update(0, bits::with_field32(old(self)@[0], 8, 2, value as u32)),
            *final(self) == *final(r),
    {
        proof {
            use_type_invariant(&*self);
            bits::lemma_mask32_values();
        }
        self.0[0] = bits::set_bits_u32(self.0[0], 8, 2, value as u32);
        self
    }

    /// Returns the value of the Max Primary Streams field.
    pub fn max_primary_streams(self) -> (r: u8)
        ensures
            r == bits::field32(self@[0], 10, 5),
    {
        proof {
            use_type_invariant(&self);
            bits::lemma_mask32_values();
        }
        bits::get_bits_u32(self.0[0], 10, 5) as u8
    }

    /// Sets the value of the Max Primary Streams field.
    ///
    /// The value must fit in the 5 bits of the field.
    pub fn set_max_primary_streams(&mut self, value: u8) -> (r: &mut Self)
        requires
            value < 32,
        ensures
            (*r)@ == old(self)@.update(0, bits::with_field32(old(self)@[0], 10, 5, value as u32)),
            *final(self) == *final(r),
    {
        proof {
            use_type_invariant(&*self);
            bits::lemma_mask32_values();
        }
        self.0[0] = bits::set_bits_u32(self.0[0], 10, 5, value as u32);
        self
    }

    /// Returns the Linear Stream Array bit.
    pub fn linear_stream_array(self) -> (r: bool)
        ensures
            r == bits::bit32(self@[0], 15),
    {
        proof {
            use_type_invariant(&self);
        }
        bits::get_bit_u32(self.0[0], 15)
    }

    /// Sets the Linear Stream Array bit.
    pub fn set_linear_stream_array(&mut self) -> (r: &mut Self)
        ensures
            (*r)@ == old(self)@.update(0, bits::with_bit32(old(self)@[0], 15, true)),
            *final(self) == *final(r),
    {
        proof {
            use_type_invariant(&*self);
        }
        self.0[0] = bits::set_bit_u32(self.0[0], 15, true);
        self
    }

    /// Clears the Linear Stream Array bit.
    pub fn clear_linear_stream_array(&mut self) -> (r: &mut Self)
        ensures
            (*r)@ == old(self)@.update(0, bits::with_bit32(old(self)@[0], 15, false)),
            *final(self) == *final(r),
    {
        proof {
            use_type_invariant(&*self);
        }
        self.0[0] = bits::set_bit_u32(self.0[0], 15, false);
        self
    }

    /// Returns the value of the Interval field.
    pub fn interval(self) -> (r: u8)
        ensures
            r == bits::field32(self@[0], 16, 8),
    {
        proof {
            use_type_invariant(&self);
            bits::lemma_mask32_values();
        }
        bits::get_bits_u32(self.0[0], 16, 8) as u8
    }

    /// Sets the value of the Interval field.
    pub fn set_interval(&mut self, value: u8) -> (r: &mut Self)
        ensures
            (*r)@ == old(self)@.update(0, bits::with_field32(old(self)@[0], 16, 8, value as u32)),
            *final(self) == *final(r),
    {
        proof {
            use_type_invariant(&*self);
            bits::lemma_mask32_values();
        }
        self.0[0] = bits::set_bits_u32(self.0[0], 16, 8, value as u32);
        self
    }

    /// Returns the value of the Max Endpoint Service Time Interval Payload High field.
    pub fn max_endpoint_service_time_interval_payload_high(self) -> (r: u8)
        ensures
            r == bits::field32(self@[0], 24, 8),
    {
        proof {
            use_type_invariant(&self);
            bits::lemma_mask32_values();
        }
        bits::get_bits_u32(self.0[0], 24, 8) as u8
    }

    /// Sets the value of the Max Endpoint Service Time Interval Payload High field.
    pub fn set_max_endpoint_service_time_interval_payload_high(&mut self, value: u8) -> (r: &mut Self)
        ensures
            (*r)@ == old(self)@.update(0, bits::with_field32(old(self)@[0], 24, 8, value as u32)),
            *final(self) == *final(r),
    {
        proof {
            use_type_invariant(&*self);
            bits::lemma_mask32_values();
        }
        self.0[0] = bits::set_bits_u32(self.0[0], 24, 8, value as u32);
        self
    }

    /// Returns the value of the Error Count field.
    pub fn error_count(self) -> (r: u8)
        ensures
            r == bits::field32(self@[1], 1, 2),
    {
        proof {
            use_type_invariant(&self);
            bits::lemma_mask32_values();
        }
        bits::get_bits_u32(self.0[1], 1, 2) as u8
    }

    /// Sets the value of the Error Count field.
    ///
    /// The value must fit in the 2 bits of the field.
    pub fn set_error_count(&mut self, value: u8) -> (r: &mut Self)
        requires
            value < 4,
        ensures
            (*r)@ == old(self)@.update(1, bits::with_field32(old(self)@[1], 1, 2, value as u32)),
            *final(self) == *final(r),
    {
        proof {
            use_type_invariant(&*self);
            bits::lemma_mask32_values();
        }
        self.0[1] = bits::set_bits_u32(self.0[1], 1, 2, value as u32);
        self
    }

    /// Returns Endpoint Type.
    pub fn endpoint_type(self) -> (r: EndpointType)
        ensures
            EndpointType::decode(bits::field32(self@[1], 3, 3) as u32) == Some(r),
    {
        proof {
            use_type_invariant(&self);
            bits::lemma_mask32_values();
        }
        let v = EndpointType::from_u32(bits::get_bits_u32(self.0[1], 3, 3));
        v.unwrap()
    }

    /// Sets Endpoint Type.
    pub fn set_endpoint_type(&mut self, t: EndpointType) -> (r: &mut Self)
        ensures
            (*r)@ == old(self)@.update(1, bits::with_field32(old(self)@[1], 3, 3, t.encoding())),
            *final(self) == *final(r),
    {
        proof {
            use_type_invariant(&*self);
            bits::lemma_mask32_values();
        }
        self.0[1] = bits::set_bits_u32(self.0[1], 3, 3, t.to_u32());
        self
    }

    /// Returns the Host Initiate Disable bit.
    pub fn host_initiate_disable(self) -> (r: bool)
        ensures
            r == bits::bit32(self@[1], 7),
    {
        proof {
            use_type_invariant(&self);
        }
        bits::get_bit_u32(self.0[1], 7)
    }

    /// Sets the Host Initiate Disable bit.
    pub fn set_host_initiate_disable(&mut self) -> (r: &mut Self)
        ensures
            (*r)@ == old(self)@.update(1, bits::with_bit32(old(self)@[1], 7, true)),
            *final(self) == *final(r),
    {
        proof {
            use_type_invariant(&*self);
        }
        self.0[1] = bits::set_bit_u32(self.0[1], 7, true);
        self
    }

    /// Clears the Host Initiate Disable bit.
    pub fn clear_host_initiate_disable(&mut self) -> (r: &mut Self)
        ensures
            (*r)@ == old(self)@.update(1, bits::with_bit32(old(self)@[1], 7, false)),
            *final(self) == *final(r),
    {
        proof {
            use_type_invariant(&*self);
        }
        self.0[1] = bits::set_bit_u32(self.0[1], 7, false);
        self
    }

    /// Returns the value of the Max Burst Size field.
    pub fn max_burst_size(self) -> (r: u8)
        ensures
            r == bits::field32(self@[1], 8, 8),
    {
        proof {
            use_type_invariant(&self);
            bits::lemma_mask32_values();
        }
        bits::get_bits_u32(self.0[1], 8, 8) as u8
    }

    /// Sets the value of the Max Burst Size field.
    pub fn set_max_burst_size(&mut self, value: u8) -> (r: &mut Self)
        ensures
            (*r)@ == old(self)@.update(1, bits::with_field32(old(self)@[1], 8, 8, value as u32)),
            *final(self) == *final(r),
    {
        proof {
            use_type_invariant(&*self);
            bits::lemma_mask32_values();
        }
        self.0[1] = bits::set_bits_u32(self.0[1], 8, 8, value as u32);
        self
    }

    /// Returns the value of the Max Packet Size field.
    pub fn max_packet_size(self) -> (r: u16)
        ensures
            r == bits::field32(self@[1], 16, 16),
    {
        proof {
            use_type_invariant(&self);
            bits::lemma_mask32_values();
        }
        bits::get_bits_u32(self.0[1], 16, 16) as u16
    }

    /// Sets the value of the Max Packet Size field.
    pub fn set_max_packet_size(&mut self, value: u16) -> (r: &mut Self)
        ensures
            (*r)@ == old(self)@.update(1, bits::with_field32(old(self)@[1], 16, 16, value as u32)),
            *final(self) == *final(r),
    {
        proof {
            use_type_invariant(&*self);
            bits::lemma_mask32_values();
        }
        self.0[1] = bits::set_bits_u32(self.0[1], 16, 16, value as u32);
        self
    }

    /// Returns the Dequeue Cycle State bit.
    pub fn dequeue_cycle_state(self) -> (r: bool)
        ensures
            r == bits::bit32(self@[2], 0),
    {
        proof {
            use_type_invariant(&self);
        }
        bits::get_bit_u32(self.0[2], 0)
    }

    /// Sets the Dequeue Cycle State bit.
    pub fn set_dequeue_cycle_state(&mut self) -> (r: &mut Self)
        ensures
            (*r)@ == old(self)@.update(2, bits::with_bit32(old(self)@[2], 0, true)),
            *final(self) == *final(r),
    {
        proof {
            use_type_invariant(&*self);
        }
        self.0[2] = bits::set_bit_u32(self.0[2], 0, true);
        self
    }

    /// Clears the Dequeue Cycle State bit.
    pub fn clear_dequeue_cycle_state(&mut self) -> (r: &mut Self)
        ensures
            (*r)@ == old(self)@.update(2, bits::with_bit32(old(self)@[2], 0, false)),
            *final(self) == *final(r),
    {
        proof {
            use_type_invariant(&*self);
        }
        self.0[2] = bits::set_bit_u32(self.0[2], 0, false);
        self
    }

    /// Returns the TR Dequeue Pointer.
    pub fn tr_dequeue_pointer(self) -> (r: u64)
        ensures
            r == bits::join64(self@[2], self@[3]),
    {
        proof {
            use_type_invariant(&self);
        }
        bits::join_halves(self.0[2], self.0[3])
    }

    /// Sets the TR Dequeue Pointer.
    ///
    /// The pointer must be 64-byte aligned. The low 4 bits of the third Dword, among them the
    /// Dequeue Cycle State bit, keep their value.
    pub fn set_tr_dequeue_pointer(&mut self, a: u64) -> (r: &mut Self)
        requires
            a % 64 == 0,
        ensures
            (*r)@ == old(self)@.update(2, bits::with_high32(old(self)@[2], 4, bits::low32(a))).update(
                3,
                bits::high32(a),
            ),
            *final(self) == *final(r),
    {
        proof {
            use_type_invariant(&*self);
            bits::lemma_low32_aligned(a);
            bits::lemma_aligned32(bits::low32(a));
        }
        let l: u32 = bits::low_half(a);
        let u: u32 = bits::high_half(a);

        self.0[2] = bits::set_high_bits_u32(self.0[2], 4, l);
        self.0[3] = u;
        self
    }

    /// Returns the value of the Average TRB Length field.
    pub fn average_trb_length(self) -> (r: u16)
        ensures
            r == bits::field32(self@[4], 0, 16),
    {
        proof {
            use_type_invariant(&self);
            bits::lemma_mask32_values();
        }
        bits::get_bits_u32(self.0[4], 0, 16) as u16
    }

    /// Sets the value of the Average TRB Length field.
    pub fn set_average_trb_length(&mut self, value: u16) -> (r: &mut Self)
        ensures
            (*r)@ == old(self)@.update(4, bits::with_field32(old(self)@[4], 0, 16, value as u32)),
            *final(self) == *final(r),
    {
        proof {
            use_type_invariant(&*self);
            bits::lemma_mask32_values();
        }
        self.0[4] = bits::set_bits_u32(self.0[4], 0, 16, value as u32);
        self
    }

    /// Returns the value of the Max Endpoint Service Time Interval Payload Low field.
    pub fn max_endpoint_service_time_interval_payload_low(self) -> (r: u16)
        ensures
            r == bits::field32(self@[4], 16, 16),
    {
        proof {
            use_type_invariant(&self);
            bits::lemma_mask32_values();
        }
        bits::get_bits_u32(self.0[4], 16, 16) as u16
    }

    /// Sets the value of the Max Endpoint Service Time Interval Payload Low field.
    pub fn set_max_endpoint_service_time_interval_payload_low(&mut self, value: u16) -> (r: &mut Self)
        ensures
            (*r)@ == old(self)@.update(4, bits::with_field32(old(self)@[4], 16, 16, value as u32)),
            *final(self) == *final(r),
    {
        proof {
            use_type_invariant(&*self);
            bits::lemma_mask32_values();
        }
        self.0[4] = bits::set_bits_u32(self.0[4], 16, 16, value as u32);
        self
    }
}

} // verus!
