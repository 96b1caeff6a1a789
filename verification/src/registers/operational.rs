//! Host Controller Operational Registers
//!
//! The values of the registers of this module are read from and written to the MMIO space; the
//! methods decode and encode their fields.
use super::capability::{CapabilityRegistersLength, StructuralParameters1};
use crate::bits;
use vstd::prelude::*;

verus! {

/// The offset of the USB Command Register from the base of the Host Controller Operational
/// Registers, in bytes.
pub const USBCMD_OFFSET: usize = 0x00;

/// The offset of the USB Status Register from the base of the Host Controller Operational
/// Registers, in bytes.
pub const USBSTS_OFFSET: usize = 0x04;

/// The offset of the Page Size Register from the base of the Host Controller Operational Registers,
/// in bytes.
pub const PAGESIZE_OFFSET: usize = 0x08;

/// The offset of the Device Notification Control from the base of the Host Controller Operational
/// Registers, in bytes.
pub const DNCTRL_OFFSET: usize = 0x14;

/// The offset of the Command Ring Control Register from the base of the Host Controller Operational
/// Registers, in bytes.
pub const CRCR_OFFSET: usize = 0x18;

/// The offset of the Device Context Base Address Array Pointer Register from the base of the Host
/// Controller Operational Registers, in bytes.
pub const DCBAAP_OFFSET: usize = 0x30;

/// The offset of the Configure Register from the base of the Host Controller Operational Registers,
/// in bytes.
pub const CONFIG_OFFSET: usize = 0x38;

/// The offset of the first Port Register Set from the base of the Host Controller Operational
/// Registers, in bytes.
pub const PORT_REGISTER_SETS_OFFSET: usize = 0x400;

/// Each Host Controller Operational Register is aligned to its size, they lie one after another
/// without overlapping, and all of them lie before the Port Register Sets.
pub proof fn lemma_operational_layout()
    ensures
        USBCMD_OFFSET % 4 == 0,
        USBSTS_OFFSET % 4 == 0,
        PAGESIZE_OFFSET % 4 == 0,
        DNCTRL_OFFSET % 4 == 0,
        CRCR_OFFSET % 8 == 0,
        DCBAAP_OFFSET % 8 == 0,
        CONFIG_OFFSET % 4 == 0,
        USBCMD_OFFSET + 4 <= USBSTS_OFFSET,
        USBSTS_OFFSET + 4 <= PAGESIZE_OFFSET,
        PAGESIZE_OFFSET + 4 <= DNCTRL_OFFSET,
        DNCTRL_OFFSET + 4 <= CRCR_OFFSET,
        CRCR_OFFSET + 8 <= DCBAAP_OFFSET,
        DCBAAP_OFFSET + 8 <= CONFIG_OFFSET,
        CONFIG_OFFSET + 4 <= PORT_REGISTER_SETS_OFFSET,
{
}

/// Returns the base address of the Host Controller Operational Registers: the MMIO base plus
/// the Capability Registers Length.
///
/// The USB Command Register is at this address, the USB Status Register 0x04 bytes after it,
/// the Page Size Register 0x08, the Device Notification Control 0x14, the Command Ring Control
/// Register 0x18, the Device Context Base Address Array Pointer Register 0x30 and the Configure
/// Register 0x38 bytes after it.
pub fn operational_base(mmio_base: usize, caplength: CapabilityRegistersLength) -> (r: usize)
    requires
        mmio_base + caplength@ <= usize::MAX,
    ensures
        r == mmio_base + caplength@,
{
    mmio_base + caplength.get() as usize
}

/// A type returned by [`PortStatusAndControlRegister::port_indicator_control`].
#[derive(Copy, Clone, PartialEq, Eq, Structural, PartialOrd, Ord, Hash, Debug)]
pub enum PortIndicator {
    /// Port Indicators are off.
    Off,
    /// Amber.
    Amber,
    /// Green.
    Green,
    /// Undefined.
    Undefined,
}

impl PortIndicator {
    /// The values of the Port Indicator Control field are those of the PORTSC register in the xHCI
    /// specification: each variant is encoded as its number, each number decodes to its variant,
    /// and no other number decodes to a variant.
    pub proof fn lemma_numbers()
        ensures
            PortIndicator::Off.encoding() == 0,
            PortIndicator::Amber.encoding() == 1,
            PortIndicator::Green.encoding() == 2,
            PortIndicator::Undefined.encoding() == 3,
            PortIndicator::decode(0) == Some(PortIndicator::Off),
            PortIndicator::decode(1) == Some(PortIndicator::Amber),
            PortIndicator::decode(2) == Some(PortIndicator::Green),
            PortIndicator::decode(3) == Some(PortIndicator::Undefined),
            forall|v: u32|
                #[trigger] PortIndicator::decode(v) is Some ==> (
                    v == 0 || v == 1 || v == 2 || v == 3
                ),
    {
    }

    /// The number that encodes this value in its field.
    pub open spec fn encoding(self) -> u32 {
        match self {
            PortIndicator::Off => 0,
            PortIndicator::Amber => 1,
            PortIndicator::Green => 2,
            PortIndicator::Undefined => 3,
        }
    }

    /// The value that the number `v` encodes, if it encodes one.
    pub open spec fn decode(v: u32) -> Option<PortIndicator> {
        if v == 0 {
            Some(PortIndicator::Off)
        } else if v == 1 {
            Some(PortIndicator::Amber)
        } else if v == 2 {
            Some(PortIndicator::Green)
        } else if v == 3 {
            Some(PortIndicator::Undefined)
        } else {
            None
        }
    }

    /// Returns the number that encodes this value.
    pub fn to_u32(self) -> (r: u32)
        ensures
            r == self.encoding(),
    {
        match self {
            PortIndicator::Off => 0,
            PortIndicator::Amber => 1,
            PortIndicator::Green => 2,
            PortIndicator::Undefined => 3,
        }
    }

    /// Returns the value that `v` encodes, or `None` if `v` is a reserved number.
    pub fn from_u32(v: u32) -> (r: Option<Self>)
        ensures
            r == Self::decode(v),
    {
        if v == 0 {
            Some(PortIndicator::Off)
        } else if v == 1 {
            Some(PortIndicator::Amber)
        } else if v == 2 {
            Some(PortIndicator::Green)
        } else if v == 3 {
            Some(PortIndicator::Undefined)
        } else {
            None
        }
    }

    /// Decoding the number that encodes a value gives that value back.
    pub proof fn lemma_decode_encoding(self)
        ensures
            Self::decode(self.encoding()) == Some(self),
    {
    }
}

impl PortIndicator {
    /// Converts the value of the Port Indicator Control field into a [`PortIndicator`].
    ///
    /// # Errors
    ///
    /// This method returns the given number if it encodes no indicator.
    pub fn try_from(x: u32) -> (r: Result<Self, u32>)
        ensures
            r == (match Self::decode(x) {
                Some(i) => Ok(i),
                None => Err(x),
            }),
    {
        match Self::from_u32(x) {
            Some(i) => Ok(i),
            None => Err(x),
        }
    }
}

/// L1 Status.
#[derive(Copy, Clone, PartialEq, Eq, Structural, PartialOrd, Ord, Hash, Debug)]
pub enum L1Status {
    /// The L1 Status field shall be ignored by software.
    Invalid,
    /// Port successfully transitioned to L1 (ACK).
    Success,
    /// Device is unable to enter L1 at this time (NYET).
    NotYet,
    /// Device does not support L1 transitions (STALL).
    NotSupported,
    /// Device failed to respond to the LPM Transaction or an error occurred.
    TimeOutOrError,
}

impl L1Status {
    /// The values of the L1 Status (L1S) field are those of the PORTPMSC register in the xHCI
    /// specification: each variant is encoded as its number, each number decodes to its variant,
    /// and no other number decodes to a variant.
    pub proof fn lemma_numbers()
        ensures
            L1Status::Invalid.encoding() == 0,
            L1Status::Success.encoding() == 1,
            L1Status::NotYet.encoding() == 2,
            L1Status::NotSupported.encoding() == 3,
            L1Status::TimeOutOrError.encoding() == 4,
            L1Status::decode(0) == Some(L1Status::Invalid),
            L1Status::decode(1) == Some(L1Status::Success),
            L1Status::decode(2) == Some(L1Status::NotYet),
            L1Status::decode(3) == Some(L1Status::NotSupported),
            L1Status::decode(4) == Some(L1Status::TimeOutOrError),
            forall|v: u32|
                #[trigger] L1Status::decode(v) is Some ==> (
                    v == 0 || v == 1 || v == 2 || v == 3 || v == 4
                ),
    {
    }

    /// The number that encodes this value in its field.
    pub open spec fn encoding(self) -> u32 {
        match self {
            L1Status::Invalid => 0,
            L1Status::Success => 1,
            L1Status::NotYet => 2,
            L1Status::NotSupported => 3,
            L1Status::TimeOutOrError => 4,
        }
    }

    /// The value that the number `v` encodes, if it encodes one.
    pub open spec fn decode(v: u32) -> Option<L1Status> {
        if v == 0 {
            Some(L1Status::Invalid)
        } else if v == 1 {
            Some(L1Status::Success)
        } else if v == 2 {
            Some(L1Status::NotYet)
        } else if v == 3 {
            Some(L1Status::NotSupported)
        } else if v == 4 {
            Some(L1Status::TimeOutOrError)
        } else {
            None
        }
    }

    /// Returns the number that encodes this value.
    pub fn to_u32(self) -> (r: u32)
        ensures
            r == self.encoding(),
    {
        match self {
            L1Status::Invalid => 0,
            L1Status::Success => 1,
            L1Status::NotYet => 2,
            L1Status::NotSupported => 3,
            L1Status::TimeOutOrError => 4,
        }
    }

    /// Returns the value that `v` encodes, or `None` if `v` is a reserved number.
    pub fn from_u32(v: u32) -> (r: Option<Self>)
        ensures
            r == Self::decode(v),
    {
        if v == 0 {
            Some(L1Status::Invalid)
        } else if v == 1 {
            Some(L1Status::Success)
        } else if v == 2 {
            Some(L1Status::NotYet)
        } else if v == 3 {
            Some(L1Status::NotSupported)
        } else if v == 4 {
            Some(L1Status::TimeOutOrError)
        } else {
            None
        }
    }

    /// Decoding the number that encodes a value gives that value back.
    pub proof fn lemma_decode_encoding(self)
        ensures
            Self::decode(self.encoding()) == Some(self),
    {
    }
}

/// Test Mode.
#[derive(Copy, Clone, PartialEq, Eq, Structural, PartialOrd, Ord, Hash, Debug)]
pub enum TestMode {
    /// Test mode not enabled.
    NotEnabled,
    /// Test J_STATE.
    JState,
    /// Test K_STATE.
    KState,
    /// Test SE0_NAK.
    Se0Nak,
    /// Test Packet.
    Pakcet,
    /// Test FORCE_ENABLE.
    ForceEnable,
    /// Port Test Control Error.
    PortTestControlError,
}

impl TestMode {
    /// The values of the Port Test Control field are those of the PORTPMSC register in the xHCI
    /// specification: each variant is encoded as its number, each number decodes to its variant,
    /// and no other number decodes to a variant.
    pub proof fn lemma_numbers()
        ensures
            TestMode::NotEnabled.encoding() == 0,
            TestMode::JState.encoding() == 1,
            TestMode::KState.encoding() == 2,
            TestMode::Se0Nak.encoding() == 3,
            TestMode::Pakcet.encoding() == 4,
            TestMode::ForceEnable.encoding() == 5,
            TestMode::PortTestControlError.encoding() == 15,
            TestMode::decode(0) == Some(TestMode::NotEnabled),
            TestMode::decode(1) == Some(TestMode::JState),
            TestMode::decode(2) == Some(TestMode::KState),
            TestMode::decode(3) == Some(TestMode::Se0Nak),
            TestMode::decode(4) == Some(TestMode::Pakcet),
            TestMode::decode(5) == Some(TestMode::ForceEnable),
            TestMode::decode(15) == Some(TestMode::PortTestControlError),
            forall|v: u32|
                #[trigger] TestMode::decode(v) is Some ==> (
                    v == 0 || v == 1 || v == 2 || v == 3 || v == 4 || v == 5 || v == 15
                ),
    {
    }

    /// The number that encodes this value in its field.
    pub open spec fn encoding(self) -> u32 {
        match self {
            TestMode::NotEnabled => 0,
            TestMode::JState => 1,
            TestMode::KState => 2,
            TestMode::Se0Nak => 3,
            TestMode::Pakcet => 4,
            TestMode::ForceEnable => 5,
            TestMode::PortTestControlError => 15,
        }
    }

    /// The value that the number `v` encodes, if it encodes one.
    pub open spec fn decode(v: u32) -> Option<TestMode> {
        if v == 0 {
            Some(TestMode::NotEnabled)
        } else if v == 1 {
            Some(TestMode::JState)
        } else if v == 2 {
            Some(TestMode::KState)
        } else if v == 3 {
            Some(TestMode::Se0Nak)
        } else if v == 4 {
            Some(TestMode::Pakcet)
        } else if v == 5 {
            Some(TestMode::ForceEnable)
        } else if v == 15 {
            Some(TestMode::PortTestControlError)
        } else {
            None
        }
    }

    /// Returns the number that encodes this value.
    pub fn to_u32(self) -> (r: u32)
        ensures
            r == self.encoding(),
    {
        match self {
            TestMode::NotEnabled => 0,
            TestMode::JState => 1,
            TestMode::KState => 2,
            TestMode::Se0Nak => 3,
            TestMode::Pakcet => 4,
            TestMode::ForceEnable => 5,
            TestMode::PortTestControlError => 15,
        }
    }

    /// Returns the value that `v` encodes, or `None` if `v` is a reserved number.
    pub fn from_u32(v: u32) -> (r: Option<Self>)
        ensures
            r == Self::decode(v),
    {
        if v == 0 {
            Some(TestMode::NotEnabled)
        } else if v == 1 {
            Some(TestMode::JState)
        } else if v == 2 {
            Some(TestMode::KState)
        } else if v == 3 {
            Some(TestMode::Se0Nak)
        } else if v == 4 {
            Some(TestMode::Pakcet)
        } else if v == 5 {
            Some(TestMode::ForceEnable)
        } else if v == 15 {
            Some(TestMode::PortTestControlError)
        } else {
            None
        }
    }

    /// Decoding the number that encodes a value gives that value back.
    pub proof fn lemma_decode_encoding(self)
        ensures
            Self::decode(self.encoding()) == Some(self),
    {
    }
}

/// USB Command Register
#[derive(Copy, Clone, Debug)]
pub struct UsbCommandRegister(u32);

impl View for UsbCommandRegister {
    type V = u32;

    closed spec fn view(&self) -> u32 {
        self.0
    }
}

impl UsbCommandRegister {
    /// Wraps a raw value of the register.
    pub fn from_raw(raw: u32) -> (r: Self)
        ensures
            r@ == raw,
    {
        Self(raw)
    }

    /// Returns the raw value of the register.
    pub fn into_raw(self) -> (r: u32)
        ensures
            r == self@,
    {
        self.0
    }

    /// Returns the Run/Stop bit.
    pub fn run_stop(self) -> (r: bool)
        ensures
            r == bits::bit32(self@, 0),
    {
        bits::get_bit_u32(self.0, 0)
    }

    /// Sets the Run/Stop bit.
    pub fn set_run_stop(&mut self) -> (r: &mut Self)
        ensures
            (*r)@ == bits::with_bit32(old(self)@, 0, true),
            *final(self) == *final(r),
    {
        self.0 = bits::set_bit_u32(self.0, 0, true);
        self
    }

    /// Clears the Run/Stop bit.
    pub fn clear_run_stop(&mut self) -> (r: &mut Self)
        ensures
            (*r)@ == bits::with_bit32(old(self)@, 0, false),
            *final(self) == *final(r),
    {
        self.0 = bits::set_bit_u32(self.0, 0, false);
        self
    }

    /// Returns the Host Controller Reset bit.
    pub fn host_controller_reset(self) -> (r: bool)
        ensures
            r == bits::bit32(self@, 1),
    {
        bits::get_bit_u32(self.0, 1)
    }

    /// Sets the Host Controller Reset bit.
    pub fn set_host_controller_reset(&mut self) -> (r: &mut Self)
        ensures
            (*r)@ == bits::with_bit32(old(self)@, 1, true),
            *final(self) == *final(r),
    {
        self.0 = bits::set_bit_u32(self.0, 1, true);
        self
    }

    /// Clears the Host Controller Reset bit.
    pub fn clear_host_controller_reset(&mut self) -> (r: &mut Self)
        ensures
            (*r)@ == bits::with_bit32(old(self)@, 1, false),
            *final(self) == *final(r),
    {
        self.0 = bits::set_bit_u32(self.0, 1, false);
        self
    }

    /// Returns the Interrupter Enable bit.
    pub fn interrupter_enable(self) -> (r: bool)
        ensures
            r == bits::bit32(self@, 2),
    {
        bits::get_bit_u32(self.0, 2)
    }

    /// Sets the Interrupter Enable bit.
    pub fn set_interrupter_enable(&mut self) -> (r: &mut Self)
        ensures
            (*r)@ == bits::with_bit32(old(self)@, 2, true),
            *final(self) == *final(r),
    {
        self.0 = bits::set_bit_u32(self.0, 2, true);
        self
    }

    /// Clears the Interrupter Enable bit.
    pub fn clear_interrupter_enable(&mut self) -> (r: &mut Self)
        ensures
            (*r)@ == bits::with_bit32(old(self)@, 2, false),
            *final(self) == *final(r),
    {
        self.0 = bits::set_bit_u32(self.0, 2, false);
        self
    }

    /// Returns the Host System Error Enable bit.
    pub fn host_system_error_enable(self) -> (r: bool)
        ensures
            r == bits::bit32(self@, 3),
    {
        bits::get_bit_u32(self.0, 3)
    }

    /// Sets the Host System Error Enable bit.
    pub fn set_host_system_error_enable(&mut self) -> (r: &mut Self)
        ensures
            (*r)@ == bits::with_bit32(old(self)@, 3, true),
            *final(self) == *final(r),
    {
        self.0 = bits::set_bit_u32(self.0, 3, true);
        self
    }

    /// Clears the Host System Error Enable bit.
    pub fn clear_host_system_error_enable(&mut self) -> (r: &mut Self)
        ensures
            (*r)@ == bits::with_bit32(old(self)@, 3, false),
            *final(self) == *final(r),
    {
        self.0 = bits::set_bit_u32(self.0, 3, false);
        self
    }

    /// Returns the Light Host Controller Reset bit.
    pub fn light_host_controller_reset(self) -> (r: bool)
        ensures
            r == bits::bit32(self@, 7),
    {
        bits::get_bit_u32(self.0, 7)
    }

    /// Sets the Light Host Controller Reset bit.
    pub fn set_light_host_controller_reset(&mut self) -> (r: &mut Self)
        ensures
            (*r)@ == bits::with_bit32(old(self)@, 7, true),
            *final(self) == *final(r),
    {
        self.0 = bits::set_bit_u32(self.0, 7, true);
        self
    }

    /// Clears the Light Host Controller Reset bit.
    pub fn clear_light_host_controller_reset(&mut self) -> (r: &mut Self)
        ensures
            (*r)@ == bits::with_bit32(old(self)@, 7, false),
            *final(self) == *final(r),
    {
        self.0 = bits::set_bit_u32(self.0, 7, false);
        self
    }

    /// Returns the Controller Save State bit.
    pub fn controller_save_state(self) -> (r: bool)
        ensures
            r == bits::bit32(self@, 8),
    {
        bits::get_bit_u32(self.0, 8)
    }

    /// Sets the Controller Save State bit.
    pub fn set_controller_save_state(&mut self) -> (r: &mut Self)
        ensures
            (*r)@ == bits::with_bit32(old(self)@, 8, true),
            *final(self) == *final(r),
    {
        self.0 = bits::set_bit_u32(self.0, 8, true);
        self
    }

    /// Clears the Controller Save State bit.
    pub fn clear_controller_save_state(&mut self) -> (r: &mut Self)
        ensures
            (*r)@ == bits::with_bit32(old(self)@, 8, false),
            *final(self) == *final(r),
    {
        self.0 = bits::set_bit_u32(self.0, 8, false);
        self
    }

    /// Returns the Controller Restore State bit.
    pub fn controller_restore_state(self) -> (r: bool)
        ensures
            r == bits::bit32(self@, 9),
    {
        bits::get_bit_u32(self.0, 9)
    }

    /// Sets the Controller Restore State bit.
    pub fn set_controller_restore_state(&mut self) -> (r: &mut Self)
        ensures
            (*r)@ == bits::with_bit32(old(self)@, 9, true),
            *final(self) == *final(r),
    {
        self.0 = bits::set_bit_u32(self.0, 9, true);
        self
    }

    /// Clears the Controller Restore State bit.
    pub fn clear_controller_restore_state(&mut self) -> (r: &mut Self)
        ensures
            (*r)@ == bits::with_bit32(old(self)@, 9, false),
            *final(self) == *final(r),
    {
        self.0 = bits::set_bit_u32(self.0, 9, false);
        self
    }

    /// Returns the Enable Wrap Event bit.
    pub fn enable_wrap_event(self) -> (r: bool)
        ensures
            r == bits::bit32(self@, 10),
    {
        bits::get_bit_u32(self.0, 10)
    }

    /// Sets the Enable Wrap Event bit.
    pub fn set_enable_wrap_event(&mut self) -> (r: &mut Self)
        ensures
            (*r)@ == bits::with_bit32(old(self)@, 10, true),
            *final(self) == *final(r),
    {
        self.0 = bits::set_bit_u32(self.0, 10, true);
        self
    }

    /// Clears the Enable Wrap Event bit.
    pub fn clear_enable_wrap_event(&mut self) -> (r: &mut Self)
        ensures
            (*r)@ == bits::with_bit32(old(self)@, 10, false),
            *final(self) == *final(r),
    {
        self.0 = bits::set_bit_u32(self.0, 10, false);
        self
    }

    /// Returns the Enable U3 MFINDEX Stop bit.
    pub fn enable_u3_mfindex_stop(self) -> (r: bool)
        ensures
            r == bits::bit32(self@, 11),
    {
        bits::get_bit_u32(self.0, 11)
    }

    /// Sets the Enable U3 MFINDEX Stop bit.
    pub fn set_enable_u3_mfindex_stop(&mut self) -> (r: &mut Self)
        ensures
            (*r)@ == bits::with_bit32(old(self)@, 11, true),
            *final(self) == *final(r),
    {
        self.0 = bits::set_bit_u32(self.0, 11, true);
        self
    }

    /// Clears the Enable U3 MFINDEX Stop bit.
    pub fn clear_enable_u3_mfindex_stop(&mut self) -> (r: &mut Self)
        ensures
            (*r)@ == bits::with_bit32(old(self)@, 11, false),
            *final(self) == *final(r),
    {
        self.0 = bits::set_bit_u32(self.0, 11, false);
        self
    }

    /// Returns the CEM Enable bit.
    pub fn cem_enable(self) -> (r: bool)
        ensures
            r == bits::bit32(self@, 13),
    {
        bits::get_bit_u32(self.0, 13)
    }

    /// Sets the CEM Enable bit.
    pub fn set_cem_enable(&mut self) -> (r: &mut Self)
        ensures
            (*r)@ == bits::with_bit32(old(self)@, 13, true),
            *final(self) == *final(r),
    {
        self.0 = bits::set_bit_u32(self.0, 13, true);
        self
    }

    /// Clears the CEM Enable bit.
    pub fn clear_cem_enable(&mut self) -> (r: &mut Self)
        ensures
            (*r)@ == bits::with_bit32(old(self)@, 13, false),
            *final(self) == *final(r),
    {
        self.0 = bits::set_bit_u32(self.0, 13, false);
        self
    }

    /// Returns the Extended TBC Enable bit.
    pub fn extended_tbc_enable(self) -> (r: bool)
        ensures
            r == bits::bit32(self@, 14),
    {
        bits::get_bit_u32(self.0, 14)
    }

    /// Returns the Extended TBC Status Enable bit.
    pub fn extended_tbc_status_enable(self) -> (r: bool)
        ensures
            r == bits::bit32(self@, 15),
    {
        bits::get_bit_u32(self.0, 15)
    }

    /// Returns the Extended TBC TRB Status Enable bit.
    pub fn extended_tbc_trb_status_enable(self) -> (r: bool)
        ensures
            r == bits::bit32(self@, 15),
    {
        bits::get_bit_u32(self.0, 15)
    }

    /// Returns the VTIO Enable bit.
    pub fn vtio_enable(self) -> (r: bool)
        ensures
            r == bits::bit32(self@, 16),
    {
        bits::get_bit_u32(self.0, 16)
    }

    /// Sets the VTIO Enable bit.
    pub fn set_vtio_enable(&mut self) -> (r: &mut Self)
        ensures
            (*r)@ == bits::with_bit32(old(self)@, 16, true),
            *final(self) == *final(r),
    {
        self.0 = bits::set_bit_u32(self.0, 16, true);
        self
    }

    /// Clears the VTIO Enable bit.
    pub fn clear_vtio_enable(&mut self) -> (r: &mut Self)
        ensures
            (*r)@ == bits::with_bit32(old(self)@, 16, false),
            *final(self) == *final(r),
    {
        self.0 = bits::set_bit_u32(self.0, 16, false);
        self
    }
}

/// USB Status Register
#[derive(Copy, Clone, Debug)]
pub struct UsbStatusRegister(u32);

impl View for UsbStatusRegister {
    type V = u32;

    closed spec fn view(&self) -> u32 {
        self.0
    }
}

impl UsbStatusRegister {
    /// Wraps a raw value of the register.
    pub fn from_raw(raw: u32) -> (r: Self)
        ensures
            r@ == raw,
    {
        Self(raw)
    }

    /// Returns the raw value of the register.
    pub fn into_raw(self) -> (r: u32)
        ensures
            r == self@,
    {
        self.0
    }

    /// Returns the HC Halted bit.
    pub fn hc_halted(self) -> (r: bool)
        ensures
            r == bits::bit32(self@, 0),
    {
        bits::get_bit_u32(self.0, 0)
    }

    /// Returns the Host System Error bit.
    pub fn host_system_error(self) -> (r: bool)
        ensures
            r == bits::bit32(self@, 2),
    {
        bits::get_bit_u32(self.0, 2)
    }

    /// Assigns 1 to the Host System Error bit. On register write, this results in clearing the bit.
    pub fn clear_host_system_error(&mut self) -> (r: &mut Self)
        ensures
            (*r)@ == bits::with_bit32(old(self)@, 2, true),
            *final(self) == *final(r),
    {
        self.0 = bits::set_bit_u32(self.0, 2, true);
        self
    }

    /// Assigns 0 to the Host System Error bit, preventing the bit from being cleared on write.
    pub fn set_0_host_system_error(&mut self) -> (r: &mut Self)
        ensures
            (*r)@ == bits::with_bit32(old(self)@, 2, false),
            *final(self) == *final(r),
    {
        self.0 = bits::set_bit_u32(self.0, 2, false);
        self
    }

    /// Returns the Event Interrupt bit.
    pub fn event_interrupt(self) -> (r: bool)
        ensures
            r == bits::bit32(self@, 3),
    {
        bits::get_bit_u32(self.0, 3)
    }

    /// Assigns 1 to the Event Interrupt bit. On register write, this results in clearing the bit.
    pub fn clear_event_interrupt(&mut self) -> (r: &mut Self)
        ensures
            (*r)@ == bits::with_bit32(old(self)@, 3, true),
            *final(self) == *final(r),
    {
        self.0 = bits::set_bit_u32(self.0, 3, true);
        self
    }

    /// Assigns 0 to the Event Interrupt bit, preventing the bit from being cleared on write.
    pub fn set_0_event_interrupt(&mut self) -> (r: &mut Self)
        ensures
            (*r)@ == bits::with_bit32(old(self)@, 3, false),
            *final(self) == *final(r),
    {
        self.0 = bits::set_bit_u32(self.0, 3, false);
        self
    }

    /// Returns the Port Change Detect bit.
    pub fn port_change_detect(self) -> (r: bool)
        ensures
            r == bits::bit32(self@, 4),
    {
        bits::get_bit_u32(self.0, 4)
    }

    /// Assigns 1 to the Port Change Detect bit. On register write, this results in clearing the bit.
    pub fn clear_port_change_detect(&mut self) -> (r: &mut Self)
        ensures
            (*r)@ == bits::with_bit32(old(self)@, 4, true),
            *final(self) == *final(r),
    {
        self.0 = bits::set_bit_u32(self.0, 4, true);
        self
    }

    /// Assigns 0 to the Port Change Detect bit, preventing the bit from being cleared on write.
    pub fn set_0_port_change_detect(&mut self) -> (r: &mut Self)
        ensures
            (*r)@ == bits::with_bit32(old(self)@, 4, false),
            *final(self) == *final(r),
    {
        self.0 = bits::set_bit_u32(self.0, 4, false);
        self
    }

    /// Returns the Save State Status bit.
    pub fn save_state_status(self) -> (r: bool)
        ensures
            r == bits::bit32(self@, 8),
    {
        bits::get_bit_u32(self.0, 8)
    }

    /// Returns the Restore State Status bit.
    pub fn restore_state_status(self) -> (r: bool)
        ensures
            r == bits::bit32(self@, 9),
    {
        bits::get_bit_u32(self.0, 9)
    }

    /// Returns the Save/Restore Error bit.
    pub fn save_restore_error(self) -> (r: bool)
        ensures
            r == bits::bit32(self@, 10),
    {
        bits::get_bit_u32(self.0, 10)
    }

    /// Assigns 1 to the Save/Restore Error bit. On register write, this results in clearing the bit.
    pub fn clear_save_restore_error(&mut self) -> (r: &mut Self)
        ensures
            (*r)@ == bits::with_bit32(old(self)@, 10, true),
            *final(self) == *final(r),
    {
        self.0 = bits::set_bit_u32(self.0, 10, true);
        self
    }

    /// Assigns 0 to the Save/Restore Error bit, preventing the bit from being cleared on write.
    pub fn set_0_save_restore_error(&mut self) -> (r: &mut Self)
        ensures
            (*r)@ == bits::with_bit32(old(self)@, 10, false),
            *final(self) == *final(r),
    {
        self.0 = bits::set_bit_u32(self.0, 10, false);
        self
    }

    /// Returns the Controller Not Ready bit.
    pub fn controller_not_ready(self) -> (r: bool)
        ensures
            r == bits::bit32(self@, 11),
    {
        bits::get_bit_u32(self.0, 11)
    }

    /// Returns the Host Controller Error bit.
    pub fn host_controller_error(self) -> (r: bool)
        ensures
            r == bits::bit32(self@, 12),
    {
        bits::get_bit_u32(self.0, 12)
    }
}

/// Page Size Register
#[derive(Copy, Clone, Debug)]
pub struct PageSizeRegister(u32);

impl View for PageSizeRegister {
    type V = u32;

    closed spec fn view(&self) -> u32 {
        self.0
    }
}

impl PageSizeRegister {
    /// Wraps a raw value of the register.
    pub fn from_raw(raw: u32) -> (r: Self)
        ensures
            r@ == raw,
    {
        Self(raw)
    }

    /// Returns the raw value of the register.
    pub fn into_raw(self) -> (r: u32)
        ensures
            r == self@,
    {
        self.0
    }

    /// Returns the value of the page size supported by xHC.
    ///
    /// The register must hold a value that fits in 16 bits.
    pub fn get(self) -> (r: u16)
        requires
            self@ <= 0xffff,
        ensures
            r == self@,
    {
        self.0 as u16
    }
}

/// Device Notification Control
#[derive(Copy, Clone, Debug)]
pub struct DeviceNotificationControl(u32);

impl View for DeviceNotificationControl {
    type V = u32;

    closed spec fn view(&self) -> u32 {
        self.0
    }
}

impl DeviceNotificationControl {
    /// Wraps a raw value of the register.
    pub fn from_raw(raw: u32) -> (r: Self)
        ensures
            r@ == raw,
    {
        Self(raw)
    }

    /// Returns the raw value of the register.
    pub fn into_raw(self) -> (r: u32)
        ensures
            r == self@,
    {
        self.0
    }

    /// Returns the value of the `i`th bit of the Notification Enable field. `i` starts from 0.
    ///
    /// The index must be less than 16.
    pub fn get(self, i: usize) -> (r: bool)
        requires
            i < 16,
        ensures
            r == bits::bit32(self@, i as u32),
    {
        bits::get_bit_u32(self.0, i as u32)
    }

    /// Sets the value of the `i`th bit of the Notification Enable field. `i` starts from 0.
    ///
    /// The index must be less than 16.
    pub fn set(&mut self, i: usize, ne: bool) -> (r: &mut Self)
        requires
            i < 16,
        ensures
            (*r)@ == bits::with_bit32(old(self)@, i as u32, ne),
            *final(self) == *final(r),
    {
        self.0 = bits::set_bit_u32(self.0, i as u32, ne);
        self
    }

    /// Clears the `i`th bit of the Notification Enable field. `i` starts from 0.
    ///
    /// The index must be less than 16.
    pub fn clear(&mut self, i: usize) -> (r: &mut Self)
        requires
            i < 16,
        ensures
            (*r)@ == bits::with_bit32(old(self)@, i as u32, false),
            *final(self) == *final(r),
    {
        self.0 = bits::set_bit_u32(self.0, i as u32, false);
        self
    }
}

/// Command Ring Control Register
#[derive(Copy, Clone, Debug)]
pub struct CommandRingControlRegister(u64);

impl View for CommandRingControlRegister {
    type V = u64;

    closed spec fn view(&self) -> u64 {
        self.0
    }
}

impl CommandRingControlRegister {
    /// Wraps a raw value of the register.
    pub fn from_raw(raw: u64) -> (r: Self)
        ensures
            r@ == raw,
    {
        Self(raw)
    }

    /// Returns the raw value of the register.
    pub fn into_raw(self) -> (r: u64)
        ensures
            r == self@,
    {
        self.0
    }

    /// Sets the Ring Cycle State bit.
    pub fn set_ring_cycle_state(&mut self) -> (r: &mut Self)
        ensures
            (*r)@ == bits::with_bit64(old(self)@, 0u64, true),
            *final(self) == *final(r),
    {
        self.0 = bits::set_bit_u64(self.0, 0, true);
        self
    }

    /// Clears the Ring Cycle State bit.
    pub fn clear_ring_cycle_state(&mut self) -> (r: &mut Self)
        ensures
            (*r)@ == bits::with_bit64(old(self)@, 0u64, false),
            *final(self) == *final(r),
    {
        self.0 = bits::set_bit_u64(self.0, 0, false);
        self
    }

    /// Sets the Command Stop bit.
    pub fn set_command_stop(&mut self) -> (r: &mut Self)
        ensures
            (*r)@ == bits::with_bit64(old(self)@, 1u64, true),
            *final(self) == *final(r),
    {
        self.0 = bits::set_bit_u64(self.0, 1, true);
        self
    }

    /// Sets the Command Abort bit.
    pub fn set_command_abort(&mut self) -> (r: &mut Self)
        ensures
            (*r)@ == bits::with_bit64(old(self)@, 2u64, true),
            *final(self) == *final(r),
    {
        self.0 = bits::set_bit_u64(self.0, 2, true);
        self
    }

    /// Returns the Command Ring Running bit.
    pub fn command_ring_running(self) -> (r: bool)
        ensures
            r == bits::bit64(self@, 3u64),
    {
        bits::get_bit_u64(self.0, 3)
    }

    /// Sets the value of the Command Ring Pointer field. It must be 64 byte aligned.
    pub fn set_command_ring_pointer(&mut self, p: u64)
        requires
            p % 64 == 0,
        ensures
            final(self)@ == bits::with_field64(old(self)@, 6u64, 58u64, p >> 6u64),
    {
        proof {
            bits::lemma_mask64_values();
            assert(p >> 6u64 <= 0x3ff_ffff_ffff_ffffu64) by (bit_vector);
        }
        let p = p >> 6;
        self.0 = bits::set_bits_u64(self.0, 6, 58, p);
    }
}

/// Device Context Base Address Array Pointer Register
#[derive(Copy, Clone, Debug)]
pub struct DeviceContextBaseAddressArrayPointerRegister(u64);

impl View for DeviceContextBaseAddressArrayPointerRegister {
    type V = u64;

    closed spec fn view(&self) -> u64 {
        self.0
    }
}

impl DeviceContextBaseAddressArrayPointerRegister {
    /// Wraps a raw value of the register.
    pub fn from_raw(raw: u64) -> (r: Self)
        ensures
            r@ == raw,
    {
        Self(raw)
    }

    /// Returns the raw value of the register.
    pub fn into_raw(self) -> (r: u64)
        ensures
            r == self@,
    {
        self.0
    }

    /// Returns the value of the Device Context Base Address Array Pointer.
    pub fn get(self) -> (r: u64)
        ensures
            r == self@,
    {
        self.0
    }

    /// Sets the value of the Device Context Base Address Array Pointer. It must be 64 byte
    /// aligned.
    pub fn set(&mut self, p: u64)
        requires
            p % 64 == 0,
        ensures
            final(self)@ == p,
    {
        self.0 = p;
    }
}

impl Default for DeviceContextBaseAddressArrayPointerRegister {
    fn default() -> (r: Self)
        ensures
            r@ == 0,
    {
        Self(0)
    }
}

/// Configure Register
#[derive(Copy, Clone, Debug)]
pub struct ConfigureRegister(u32);

impl View for ConfigureRegister {
    type V = u32;

    closed spec fn view(&self) -> u32 {
        self.0
    }
}

impl ConfigureRegister {
    /// Wraps a raw value of the register.
    pub fn from_raw(raw: u32) -> (r: Self)
        ensures
            r@ == raw,
    {
        Self(raw)
    }

    /// Returns the raw value of the register.
    pub fn into_raw(self) -> (r: u32)
        ensures
            r == self@,
    {
        self.0
    }

    /// Returns the value of the Max Device Slots Enabled field.
    pub fn max_device_slots_enabled(self) -> (r: u8)
        ensures
            r == bits::field32(self@, 0, 8),
    {
        proof {
            bits::lemma_mask32_values();
        }
        bits::get_bits_u32(self.0, 0, 8) as u8
    }

    /// Sets the value of the Max Device Slots Enabled field.
    pub fn set_max_device_slots_enabled(&mut self, s: u8)
        ensures
            final(self)@ == bits::with_field32(old(self)@, 0, 8, s as u32),
    {
        proof {
            bits::lemma_mask32_values();
        }
        self.0 = bits::set_bits_u32(self.0, 0, 8, s as u32);
    }

    /// Returns the U3 Entry Enable bit.
    pub fn u3_entry_enable(self) -> (r: bool)
        ensures
            r == bits::bit32(self@, 8),
    {
        bits::get_bit_u32(self.0, 8)
    }

    /// Sets the U3 Entry Enable bit.
    pub fn set_u3_entry_enable(&mut self) -> (r: &mut Self)
        ensures
            (*r)@ == bits::with_bit32(old(self)@, 8, true),
            *final(self) == *final(r),
    {
        self.0 = bits::set_bit_u32(self.0, 8, true);
        self
    }

    /// Clears the U3 Entry Enable bit.
    pub fn clear_u3_entry_enable(&mut self) -> (r: &mut Self)
        ensures
            (*r)@ == bits::with_bit32(old(self)@, 8, false),
            *final(self) == *final(r),
    {
        self.0 = bits::set_bit_u32(self.0, 8, false);
        self
    }

    /// Returns the Configuration Information Enable bit.
    pub fn configuration_information_enable(self) -> (r: bool)
        ensures
            r == bits::bit32(self@, 9),
    {
        bits::get_bit_u32(self.0, 9)
    }

    /// Sets the Configuration Information Enable bit.
    pub fn set_configuration_information_enable(&mut self) -> (r: &mut Self)
        ensures
            (*r)@ == bits::with_bit32(old(self)@, 9, true),
            *final(self) == *final(r),
    {
        self.0 = bits::set_bit_u32(self.0, 9, true);
        self
    }

    /// Clears the Configuration Information Enable bit.
    pub fn clear_configuration_information_enable(&mut self) -> (r: &mut Self)
        ensures
            (*r)@ == bits::with_bit32(old(self)@, 9, false),
            *final(self) == *final(r),
    {
        self.0 = bits::set_bit_u32(self.0, 9, false);
        self
    }
}

/// Port Register Set
#[derive(Copy, Clone, Debug)]
pub struct PortRegisterSet {
    /// Port Status and Control Register
    pub portsc: PortStatusAndControlRegister,
    /// Port PM Status and Control Register
    pub portpmsc: PortPowerManagementStatusAndControlRegister,
    /// Port Link Info Register
    pub portli: PortLinkInfoRegister,
    /// Port Hardware LPM Control Register
    pub porthlpmc: PortHardwareLpmControlRegister,
}

impl PortRegisterSet {
    /// Returns the base address of the array of the Port Register Sets and the number of its
    /// elements: 0x400 bytes after the base of the Operational Registers, and the Number of
    /// Ports.
    pub fn array_location(
        mmio_base: usize,
        caplength: CapabilityRegistersLength,
        hcsparams1: StructuralParameters1,
    ) -> (r: (usize, usize))
        requires
            mmio_base + caplength@ + PORT_REGISTER_SETS_OFFSET <= usize::MAX,
        ensures
            r.0 == mmio_base + caplength@ + PORT_REGISTER_SETS_OFFSET,
            r.1 == bits::field32(hcsparams1@, 24, 8),
    {
        let base = mmio_base + caplength.get() as usize + PORT_REGISTER_SETS_OFFSET;
        (base, hcsparams1.number_of_ports() as usize)
    }

    /// Builds a Port Register Set from the values of its four registers.
    pub fn from_raw(raw: [u32; 4]) -> (r: Self)
        ensures
            r.portsc@ == raw@[0],
            r.portpmsc@ == raw@[1],
            r.portli@ == raw@[2],
            r.porthlpmc@ == raw@[3],
    {
        Self {
            portsc: PortStatusAndControlRegister::from_raw(raw[0]),
            portpmsc: PortPowerManagementStatusAndControlRegister::from_raw(raw[1]),
            portli: PortLinkInfoRegister::from_raw(raw[2]),
            porthlpmc: PortHardwareLpmControlRegister::from_raw(raw[3]),
        }
    }
}

/// Port Status and Control Register
#[derive(Copy, Clone, Debug)]
pub struct PortStatusAndControlRegister(u32);

impl View for PortStatusAndControlRegister {
    type V = u32;

    closed spec fn view(&self) -> u32 {
        self.0
    }
}

impl PortStatusAndControlRegister {
    /// Wraps a raw value of the register.
    pub fn from_raw(raw: u32) -> (r: Self)
        ensures
            r@ == raw,
    {
        Self(raw)
    }

    /// Returns the raw value of the register.
    pub fn into_raw(self) -> (r: u32)
        ensures
            r == self@,
    {
        self.0
    }

    /// Returns the Current Connect Status bit.
    pub fn current_connect_status(self) -> (r: bool)
        ensures
            r == bits::bit32(self@, 0),
    {
        bits::get_bit_u32(self.0, 0)
    }

    /// Returns the Port Enabled/Disabled bit.
    pub fn port_enabled_disabled(self) -> (r: bool)
        ensures
            r == bits::bit32(self@, 1),
    {
        bits::get_bit_u32(self.0, 1)
    }

    /// Assigns 1 to the Port Enabled/Disabled bit. On register write, this results in clearing the bit.
    pub fn clear_port_enabled_disabled(&mut self) -> (r: &mut Self)
        ensures
            (*r)@ == bits::with_bit32(old(self)@, 1, true),
            *final(self) == *final(r),
    {
        self.0 = bits::set_bit_u32(self.0, 1, true);
        self
    }

    /// Assigns 0 to the Port Enabled/Disabled bit, preventing the bit from being cleared on write.
    pub fn set_0_port_enabled_disabled(&mut self) -> (r: &mut Self)
        ensures
            (*r)@ == bits::with_bit32(old(self)@, 1, false),
            *final(self) == *final(r),
    {
        self.0 = bits::set_bit_u32(self.0, 1, false);
        self
    }

    /// Returns the Over-current Active bit.
    pub fn over_current_active(self) -> (r: bool)
        ensures
            r == bits::bit32(self@, 3),
    {
        bits::get_bit_u32(self.0, 3)
    }

    /// Returns the Port Reset bit.
    pub fn port_reset(self) -> (r: bool)
        ensures
            r == bits::bit32(self@, 4),
    {
        bits::get_bit_u32(self.0, 4)
    }

    /// Sets the Port Reset bit.
    pub fn set_port_reset(&mut self) -> (r: &mut Self)
        ensures
            (*r)@ == bits::with_bit32(old(self)@, 4, true),
            *final(self) == *final(r),
    {
        self.0 = bits::set_bit_u32(self.0, 4, true);
        self
    }

    /// Returns the value of the Port Link State field.
    pub fn port_link_state(self) -> (r: u8)
        ensures
            r == bits::field32(self@, 5, 4),
    {
        proof {
            bits::lemma_mask32_values();
        }
        bits::get_bits_u32(self.0, 5, 4) as u8
    }

    /// Sets the value of the Port Link State field.
    ///
    /// The value must fit in the 4 bits of the field.
    pub fn set_port_link_state(&mut self, state: u8)
        requires
            state < 16,
        ensures
            final(self)@ == bits::with_field32(old(self)@, 5, 4, state as u32),
    {
        proof {
            bits::lemma_mask32_values();
        }
        self.0 = bits::set_bits_u32(self.0, 5, 4, state as u32);
    }

    /// Returns the Port Power bit.
    pub fn port_power(self) -> (r: bool)
        ensures
            r == bits::bit32(self@, 9),
    {
        bits::get_bit_u32(self.0, 9)
    }

    /// Sets the Port Power bit.
    pub fn set_port_power(&mut self) -> (r: &mut Self)
        ensures
            (*r)@ == bits::with_bit32(old(self)@, 9, true),
            *final(self) == *final(r),
    {
        self.0 = bits::set_bit_u32(self.0, 9, true);
        self
    }

    /// Clears the Port Power bit.
    pub fn clear_port_power(&mut self) -> (r: &mut Self)
        ensures
            (*r)@ == bits::with_bit32(old(self)@, 9, false),
            *final(self) == *final(r),
    {
        self.0 = bits::set_bit_u32(self.0, 9, false);
        self
    }

    /// Returns the value of the Port Speed field.
    pub fn port_speed(self) -> (r: u8)
        ensures
            r == bits::field32(self@, 10, 4),
    {
        proof {
            bits::lemma_mask32_values();
        }
        bits::get_bits_u32(self.0, 10, 4) as u8
    }

    /// Returns the value of the Port Indicator Control field.
    pub fn port_indicator_control(self) -> (r: PortIndicator)
        ensures
            PortIndicator::decode(bits::field32(self@, 14, 2) as u32) == Some(r),
    {
        proof {
            bits::lemma_mask32_values();
        }
        let v = PortIndicator::from_u32(bits::get_bits_u32(self.0, 14, 2));
        v.unwrap()
    }

    /// Sets the value of the Port Indicator Control field.
    pub fn set_port_indicator_control(&mut self, i: PortIndicator)
        ensures
            final(self)@ == bits::with_field32(old(self)@, 14, 2, i.encoding()),
    {
        proof {
            bits::lemma_mask32_values();
        }
        self.0 = bits::set_bits_u32(self.0, 14, 2, i.to_u32());
    }

    /// Returns the Port Link State Write Strobe bit.
    pub fn port_link_state_write_strobe(self) -> (r: bool)
        ensures
            r == bits::bit32(self@, 16),
    {
        bits::get_bit_u32(self.0, 16)
    }

    /// Sets the Port Link State Write Strobe bit.
    pub fn set_port_link_state_write_strobe(&mut self) -> (r: &mut Self)
        ensures
            (*r)@ == bits::with_bit32(old(self)@, 16, true),
            *final(self) == *final(r),
    {
        self.0 = bits::set_bit_u32(self.0, 16, true);
        self
    }

    /// Clears the Port Link State Write Strobe bit.
    pub fn clear_port_link_state_write_strobe(&mut self) -> (r: &mut Self)
        ensures
            (*r)@ == bits::with_bit32(old(self)@, 16, false),
            *final(self) == *final(r),
    {
        self.0 = bits::set_bit_u32(self.0, 16, false);
        self
    }

    /// Returns the Connect Status Change bit.
    pub fn connect_status_change(self) -> (r: bool)
        ensures
            r == bits::bit32(self@, 17),
    {
        bits::get_bit_u32(self.0, 17)
    }

    /// Assigns 1 to the Connect Status Change bit. On register write, this results in clearing the bit.
    pub fn clear_connect_status_change(&mut self) -> (r: &mut Self)
        ensures
            (*r)@ == bits::with_bit32(old(self)@, 17, true),
            *final(self) == *final(r),
    {
        self.0 = bits::set_bit_u32(self.0, 17, true);
        self
    }

    /// Assigns 0 to the Connect Status Change bit, preventing the bit from being cleared on write.
    pub fn set_0_connect_status_change(&mut self) -> (r: &mut Self)
        ensures
            (*r)@ == bits::with_bit32(old(self)@, 17, false),
            *final(self) == *final(r),
    {
        self.0 = bits::set_bit_u32(self.0, 17, false);
        self
    }

    /// Returns the Port Enabled/Disabled Change bit.
    pub fn port_enabled_disabled_change(self) -> (r: bool)
        ensures
            r == bits::bit32(self@, 18),
    {
        bits::get_bit_u32(self.0, 18)
    }

    /// Assigns 1 to the Port Enabled/Disabled Change bit. On register write, this results in clearing the bit.
    pub fn clear_port_enabled_disabled_change(&mut self) -> (r: &mut Self)
        ensures
            (*r)@ == bits::with_bit32(old(self)@, 18, true),
            *final(self) == *final(r),
    {
        self.0 = bits::set_bit_u32(self.0, 18, true);
        self
    }

    /// Assigns 0 to the Port Enabled/Disabled Change bit, preventing the bit from being cleared on write.
    pub fn set_0_port_enabled_disabled_change(&mut self) -> (r: &mut Self)
        ensures
            (*r)@ == bits::with_bit32(old(self)@, 18, false),
            *final(self) == *final(r),
    {
        self.0 = bits::set_bit_u32(self.0, 18, false);
        self
    }

    /// Returns the Warm Port Reset Change bit.
    pub fn warm_port_reset_change(self) -> (r: bool)
        ensures
            r == bits::bit32(self@, 19),
    {
        bits::get_bit_u32(self.0, 19)
    }

    /// Assigns 1 to the Warm Port Reset Change bit. On register write, this results in clearing the bit.
    pub fn clear_warm_port_reset_change(&mut self) -> (r: &mut Self)
        ensures
            (*r)@ == bits::with_bit32(old(self)@, 19, true),
            *final(self) == *final(r),
    {
        self.0 = bits::set_bit_u32(self.0, 19, true);
        self
    }

    /// Assigns 0 to the Warm Port Reset Change bit, preventing the bit from being cleared on write.
    pub fn set_0_warm_port_reset_change(&mut self) -> (r: &mut Self)
        ensures
            (*r)@ == bits::with_bit32(old(self)@, 19, false),
            *final(self) == *final(r),
    {
        self.0 = bits::set_bit_u32(self.0, 19, false);
        self
    }

    /// Returns the Over Current Change bit.
    pub fn over_current_change(self) -> (r: bool)
        ensures
            r == bits::bit32(self@, 20),
    {
        bits::get_bit_u32(self.0, 20)
    }

    /// Assigns 1 to the Over Current Change bit. On register write, this results in clearing the bit.
    pub fn clear_over_current_change(&mut self) -> (r: &mut Self)
        ensures
            (*r)@ == bits::with_bit32(old(self)@, 20, true),
            *final(self) == *final(r),
    {
        self.0 = bits::set_bit_u32(self.0, 20, true);
        self
    }

    /// Assigns 0 to the Over Current Change bit, preventing the bit from being cleared on write.
    pub fn set_0_over_current_change(&mut self) -> (r: &mut Self)
        ensures
            (*r)@ == bits::with_bit32(old(self)@, 20, false),
            *final(self) == *final(r),
    {
        self.0 = bits::set_bit_u32(self.0, 20, false);
        self
    }

    /// Returns the Port Reset Change bit.
    pub fn port_reset_change(self) -> (r: bool)
        ensures
            r == bits::bit32(self@, 21),
    {
        bits::get_bit_u32(self.0, 21)
    }

    /// Assigns 1 to the Port Reset Change bit. On register write, this results in clearing the bit.
    pub fn clear_port_reset_change(&mut self) -> (r: &mut Self)
        ensures
            (*r)@ == bits::with_bit32(old(self)@, 21, true),
            *final(self) == *final(r),
    {
        self.0 = bits::set_bit_u32(self.0, 21, true);
        self
    }

    /// Assigns 0 to the Port Reset Change bit, preventing the bit from being cleared on write.
    pub fn set_0_port_reset_change(&mut self) -> (r: &mut Self)
        ensures
            (*r)@ == bits::with_bit32(old(self)@, 21, false),
            *final(self) == *final(r),
    {
        self.0 = bits::set_bit_u32(self.0, 21, false);
        self
    }

    /// Returns the Port Link State Change bit.
    pub fn port_link_state_change(self) -> (r: bool)
        ensures
            r == bits::bit32(self@, 22),
    {
        bits::get_bit_u32(self.0, 22)
    }

    /// Assigns 1 to the Port Link State Change bit. On register write, this results in clearing the bit.
    pub fn clear_port_link_state_change(&mut self) -> (r: &mut Self)
        ensures
            (*r)@ == bits::with_bit32(old(self)@, 22, true),
            *final(self) == *final(r),
    {
        self.0 = bits::set_bit_u32(self.0, 22, true);
        self
    }

    /// Assigns 0 to the Port Link State Change bit, preventing the bit from being cleared on write.
    pub fn set_0_port_link_state_change(&mut self) -> (r: &mut Self)
        ensures
            (*r)@ == bits::with_bit32(old(self)@, 22, false),
            *final(self) == *final(r),
    {
        self.0 = bits::set_bit_u32(self.0, 22, false);
        self
    }

    /// Returns the Port Config Error Change bit.
    pub fn port_config_error_change(self) -> (r: bool)
        ensures
            r == bits::bit32(self@, 23),
    {
        bits::get_bit_u32(self.0, 23)
    }

    /// Assigns 1 to the Port Config Error Change bit. On register write, this results in clearing the bit.
    pub fn clear_port_config_error_change(&mut self) -> (r: &mut Self)
        ensures
            (*r)@ == bits::with_bit32(old(self)@, 23, true),
            *final(self) == *final(r),
    {
        self.0 = bits::set_bit_u32(self.0, 23, true);
        self
    }

    /// Assigns 0 to the Port Config Error Change bit, preventing the bit from being cleared on write.
    pub fn set_0_port_config_error_change(&mut self) -> (r: &mut Self)
        ensures
            (*r)@ == bits::with_bit32(old(self)@, 23, false),
            *final(self) == *final(r),
    {
        self.0 = bits::set_bit_u32(self.0, 23, false);
        self
    }

    /// Returns the Cold Attach Status bit.
    pub fn cold_attach_status(self) -> (r: bool)
        ensures
            r == bits::bit32(self@, 24),
    {
        bits::get_bit_u32(self.0, 24)
    }

    /// Returns the Wake on Connect Enable bit.
    pub fn wake_on_connect_enable(self) -> (r: bool)
        ensures
            r == bits::bit32(self@, 25),
    {
        bits::get_bit_u32(self.0, 25)
    }

    /// Sets the Wake on Connect Enable bit.
    pub fn set_wake_on_connect_enable(&mut self) -> (r: &mut Self)
        ensures
            (*r)@ == bits::with_bit32(old(self)@, 25, true),
            *final(self) == *final(r),
    {
        self.0 = bits::set_bit_u32(self.0, 25, true);
        self
    }

    /// Clears the Wake on Connect Enable bit.
    pub fn clear_wake_on_connect_enable(&mut self) -> (r: &mut Self)
        ensures
            (*r)@ == bits::with_bit32(old(self)@, 25, false),
            *final(self) == *final(r),
    {
        self.0 = bits::set_bit_u32(self.0, 25, false);
        self
    }

    /// Returns the Wake on Disconnect Enable bit.
    pub fn wake_on_disconnect_enable(self) -> (r: bool)
        ensures
            r == bits::bit32(self@, 26),
    {
        bits::get_bit_u32(self.0, 26)
    }

    /// Sets the Wake on Disconnect Enable bit.
    pub fn set_wake_on_disconnect_enable(&mut self) -> (r: &mut Self)
        ensures
            (*r)@ == bits::with_bit32(old(self)@, 26, true),
            *final(self) == *final(r),
    {
        self.0 = bits::set_bit_u32(self.0, 26, true);
        self
    }

    /// Clears the Wake on Disconnect Enable bit.
    pub fn clear_wake_on_disconnect_enable(&mut self) -> (r: &mut Self)
        ensures
            (*r)@ == bits::with_bit32(old(self)@, 26, false),
            *final(self) == *final(r),
    {
        self.0 = bits::set_bit_u32(self.0, 26, false);
        self
    }

    /// Returns the Wake on Over Current Enable bit.
    pub fn wake_on_over_current_enable(self) -> (r: bool)
        ensures
            r == bits::bit32(self@, 27),
    {
        bits::get_bit_u32(self.0, 27)
    }

    /// Sets the Wake on Over Current Enable bit.
    pub fn set_wake_on_over_current_enable(&mut self) -> (r: &mut Self)
        ensures
            (*r)@ == bits::with_bit32(old(self)@, 27, true),
            *final(self) == *final(r),
    {
        self.0 = bits::set_bit_u32(self.0, 27, true);
        self
    }

    /// Clears the Wake on Over Current Enable bit.
    pub fn clear_wake_on_over_current_enable(&mut self) -> (r: &mut Self)
        ensures
            (*r)@ == bits::with_bit32(old(self)@, 27, false),
            *final(self) == *final(r),
    {
        self.0 = bits::set_bit_u32(self.0, 27, false);
        self
    }

    /// Returns the Device Removable bit.
    pub fn device_removable(self) -> (r: bool)
        ensures
            r == bits::bit32(self@, 30),
    {
        bits::get_bit_u32(self.0, 30)
    }

    /// Returns the Warm Port Reset bit.
    pub fn warm_port_reset(self) -> (r: bool)
        ensures
            r == bits::bit32(self@, 31),
    {
        bits::get_bit_u32(self.0, 31)
    }

    /// Sets the Warm Port Reset bit.
    pub fn set_warm_port_reset(&mut self) -> (r: &mut Self)
        ensures
            (*r)@ == bits::with_bit32(old(self)@, 31, true),
            *final(self) == *final(r),
    {
        self.0 = bits::set_bit_u32(self.0, 31, true);
        self
    }
}

/// Port Power Management Status and Control Register.
#[derive(Copy, Clone, Debug)]
pub struct PortPowerManagementStatusAndControlRegister(u32);

impl View for PortPowerManagementStatusAndControlRegister {
    type V = u32;

    closed spec fn view(&self) -> u32 {
        self.0
    }
}

impl PortPowerManagementStatusAndControlRegister {
    /// Wraps a raw value of the register.
    pub fn from_raw(raw: u32) -> (r: Self)
        ensures
            r@ == raw,
    {
        Self(raw)
    }

    /// Returns the raw value of the register.
    pub fn into_raw(self) -> (r: u32)
        ensures
            r == self@,
    {
        self.0
    }

    /// Returns the value of the U1 Timeout field.
    ///
    /// **This field is USB3 only.**
    pub fn u1_timeout(self) -> (r: u8)
        ensures
            r == bits::field32(self@, 0, 8),
    {
        proof {
            bits::lemma_mask32_values();
        }
        bits::get_bits_u32(self.0, 0, 8) as u8
    }

    /// Sets the value of the U1 Timeout field.
    ///
    /// **This field is USB3 only.**
    pub fn set_u1_timeout(&mut self, timeout: u8)
        ensures
            final(self)@ == bits::with_field32(old(self)@, 0, 8, timeout as u32),
    {
        proof {
            bits::lemma_mask32_values();
        }
        self.0 = bits::set_bits_u32(self.0, 0, 8, timeout as u32);
    }

    /// Returns the value of the U2 Timeout field.
    ///
    /// **This field is USB3 only.**
    pub fn u2_timeout(self) -> (r: u8)
        ensures
            r == bits::field32(self@, 8, 8),
    {
        proof {
            bits::lemma_mask32_values();
        }
        bits::get_bits_u32(self.0, 8, 8) as u8
    }

    /// Sets the value of the U2 Timeout field.
    ///
    /// **This field is USB3 only.**
    pub fn set_u2_timeout(&mut self, timeout: u8)
        ensures
            final(self)@ == bits::with_field32(old(self)@, 8, 8, timeout as u32),
    {
        proof {
            bits::lemma_mask32_values();
        }
        self.0 = bits::set_bits_u32(self.0, 8, 8, timeout as u32);
    }

    /// Returns the Force Link PM Accept bit.
    ///
    /// **This field is USB3 only.**
    pub fn force_link_pm_accept(self) -> (r: bool)
        ensures
            r == bits::bit32(self@, 16),
    {
        bits::get_bit_u32(self.0, 16)
    }

    /// Sets the value of the Force Link PM Accept bit.
    ///
    /// **This field is USB3 only.**
    pub fn set_force_link_pm_accept(&mut self, b: bool)
        ensures
            final(self)@ == bits::with_bit32(old(self)@, 16, b),
    {
        self.0 = bits::set_bit_u32(self.0, 16, b);
    }

    /// Returns the value of the L1 Status field.
    ///
    /// This field returns [`None`] if the value means `Reserved`.
    ///
    /// **This field is USB2 only.**
    pub fn l1_status(self) -> (r: Option<L1Status>)
        ensures
            r == L1Status::decode(bits::field32(self@, 0, 3) as u32),
    {
        L1Status::from_u32(bits::get_bits_u32(self.0, 0, 3))
    }

    /// Returns the Remote Wake Enable bit.
    ///
    /// **This field is USB2 only.**
    pub fn remote_wake_enable(self) -> (r: bool)
        ensures
            r == bits::bit32(self@, 3),
    {
        bits::get_bit_u32(self.0, 3)
    }

    /// Sets the value of the Remote Wake Enable bit.
    ///
    /// **This field is USB2 only.**
    pub fn set_remote_wake_enable(&mut self, b: bool)
        ensures
            final(self)@ == bits::with_bit32(old(self)@, 3, b),
    {
        self.0 = bits::set_bit_u32(self.0, 3, b);
    }

    /// Returns the value of the Best Effort Service Latency field.
    ///
    /// **This field is USB2 only.**
    pub fn best_effort_service_latency(self) -> (r: u8)
        ensures
            r == bits::field32(self@, 4, 4),
    {
        proof {
            bits::lemma_mask32_values();
        }
        bits::get_bits_u32(self.0, 4, 4) as u8
    }

    /// Sets the value of the Best Effort Service Latency field.
    ///
    /// **This field is USB2 only.**
    ///
    /// The value must fit in the 4 bits of the field.
    pub fn set_best_effort_service_latency(&mut self, l: u8)
        requires
            l < 16,
        ensures
            final(self)@ == bits::with_field32(old(self)@, 4, 4, l as u32),
    {
        proof {
            bits::lemma_mask32_values();
        }
        self.0 = bits::set_bits_u32(self.0, 4, 4, l as u32);
    }

    /// Returns the value of the L1 Device Slot field.
    ///
    /// **This field is USB2 only.**
    pub fn l1_device_slot(self) -> (r: u8)
        ensures
            r == bits::field32(self@, 8, 8),
    {
        proof {
            bits::lemma_mask32_values();
        }
        bits::get_bits_u32(self.0, 8, 8) as u8
    }

    /// Sets the value of the L1 Device Slot field.
    ///
    /// **This field is USB2 only.**
    pub fn set_l1_device_slot(&mut self, slot: u8)
        ensures
            final(self)@ == bits::with_field32(old(self)@, 8, 8, slot as u32),
    {
        proof {
            bits::lemma_mask32_values();
        }
        self.0 = bits::set_bits_u32(self.0, 8, 8, slot as u32);
    }

    /// Returns the Hardware LPM Enable bit.
    ///
    /// **This field is USB2 only.**
    pub fn hardware_lpm_enable(self) -> (r: bool)
        ensures
            r == bits::bit32(self@, 16),
    {
        bits::get_bit_u32(self.0, 16)
    }

    /// Sets the value of the Hardware LPM Enable bit.
    ///
    /// **This field is USB2 only.**
    pub fn set_hardware_lpm_enable(&mut self, b: bool)
        ensures
            final(self)@ == bits::with_bit32(old(self)@, 16, b),
    {
        self.0 = bits::set_bit_u32(self.0, 16, b);
    }

    /// Returns the value of the Port Test Control field.
    ///
    /// This field returns [`None`] if the value means `Reserved`.
    ///
    /// **This field is USB2 only.**
    pub fn port_test_control(self) -> (r: Option<TestMode>)
        ensures
            r == TestMode::decode(bits::field32(self@, 28, 4) as u32),
    {
        TestMode::from_u32(bits::get_bits_u32(self.0, 28, 4))
    }

    /// Sets the value of the Port Test Control field.
    ///
    /// **This field is USB2 only.**
    pub fn set_port_test_control(&mut self, m: TestMode)
        ensures
            final(self)@ == bits::with_field32(old(self)@, 28, 4, m.encoding()),
    {
        proof {
            bits::lemma_mask32_values();
        }
        self.0 = bits::set_bits_u32(self.0, 28, 4, m.to_u32());
    }
}

/// Port Link Info Register.
///
/// **This register is only valid for USB3 and is reserved for USB2.**
#[derive(Copy, Clone, Debug)]
pub struct PortLinkInfoRegister(u32);

impl View for PortLinkInfoRegister {
    type V = u32;

    closed spec fn view(&self) -> u32 {
        self.0
    }
}

impl PortLinkInfoRegister {
    /// Wraps a raw value of the register.
    pub fn from_raw(raw: u32) -> (r: Self)
        ensures
            r@ == raw,
    {
        Self(raw)
    }

    /// Returns the raw value of the register.
    pub fn into_raw(self) -> (r: u32)
        ensures
            r == self@,
    {
        self.0
    }

    /// Returns the value of the Link Error Count field.
    pub fn link_error_count(self) -> (r: u16)
        ensures
            r == bits::field32(self@, 0, 16),
    {
        proof {
            bits::lemma_mask32_values();
        }
        bits::get_bits_u32(self.0, 0, 16) as u16
    }

    /// Sets the value of the Link Error Count field.
    pub fn set_link_error_count(&mut self, c: u16)
        ensures
            final(self)@ == bits::with_field32(old(self)@, 0, 16, c as u32),
    {
        proof {
            bits::lemma_mask32_values();
        }
        self.0 = bits::set_bits_u32(self.0, 0, 16, c as u32);
    }

    /// Returns the value of the Rx Lane Count field.
    pub fn rx_lane_count(self) -> (r: u8)
        ensures
            r == bits::field32(self@, 16, 4),
    {
        proof {
            bits::lemma_mask32_values();
        }
        bits::get_bits_u32(self.0, 16, 4) as u8
    }

    /// Returns the value of the Tx Lane Count field.
    pub fn tx_lane_count(self) -> (r: u8)
        ensures
            r == bits::field32(self@, 20, 4),
    {
        proof {
            bits::lemma_mask32_values();
        }
        bits::get_bits_u32(self.0, 20, 4) as u8
    }
}

/// Port Hardware LPM Control Register
///
/// **This register is only valid for USB2 and is reserved for USB3.**
#[derive(Copy, Clone, Debug)]
pub struct PortHardwareLpmControlRegister(u32);

impl View for PortHardwareLpmControlRegister {
    type V = u32;

    closed spec fn view(&self) -> u32 {
        self.0
    }
}

impl PortHardwareLpmControlRegister {
    /// Wraps a raw value of the register.
    pub fn from_raw(raw: u32) -> (r: Self)
        ensures
            r@ == raw,
    {
        Self(raw)
    }

    /// Returns the raw value of the register.
    pub fn into_raw(self) -> (r: u32)
        ensures
            r == self@,
    {
        self.0
    }

    /// Returns the value of the Host Initiated Resume Duration Mode field.
    pub fn host_initiated_resume_duration_mode(self) -> (r: u8)
        ensures
            r == bits::field32(self@, 0, 2),
    {
        proof {
            bits::lemma_mask32_values();
        }
        bits::get_bits_u32(self.0, 0, 2) as u8
    }

    /// Sets the value of the Host Initiated Resume Duration Mode field.
    ///
    /// The value must fit in the 2 bits of the field.
    pub fn set_host_initiated_resume_duration_mode(&mut self, mode: u8)
        requires
            mode < 4,
        ensures
            final(self)@ == bits::with_field32(old(self)@, 0, 2, mode as u32),
    {
        proof {
            bits::lemma_mask32_values();
        }
        self.0 = bits::set_bits_u32(self.0, 0, 2, mode as u32);
    }

    /// Returns the value of the L1 Timeout field.
    pub fn l1_timeout(self) -> (r: u8)
        ensures
            r == bits::field32(self@, 2, 8),
    {
        proof {
            bits::lemma_mask32_values();
        }
        bits::get_bits_u32(self.0, 2, 8) as u8
    }

    /// Sets the value of the L1 Timeout field.
    pub fn set_l1_timeout(&mut self, timeout: u8)
        ensures
            final(self)@ == bits::with_field32(old(self)@, 2, 8, timeout as u32),
    {
        proof {
            bits::lemma_mask32_values();
        }
        self.0 = bits::set_bits_u32(self.0, 2, 8, timeout as u32);
    }

    /// Returns the value of the Best Effort Service Latency Deep field.
    pub fn best_effort_service_latency_deep(self) -> (r: u8)
        ensures
            r == bits::field32(self@, 10, 4),
    {
        proof {
            bits::lemma_mask32_values();
        }
        bits::get_bits_u32(self.0, 10, 4) as u8
    }

    /// Sets the value of the Best Effort Service Latency Deep field.
    ///
    /// The value must fit in the 4 bits of the field.
    pub fn set_best_effort_service_latency_deep(&mut self, latency: u8)
        requires
            latency < 16,
        ensures
            final(self)@ == bits::with_field32(old(self)@, 10, 4, latency as u32),
    {
        proof {
            bits::lemma_mask32_values();
        }
        self.0 = bits::set_bits_u32(self.0, 10, 4, latency as u32);
    }
}

} // verus!
