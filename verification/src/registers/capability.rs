//! Host Controller Capability Registers
//!
//! The values of the registers of this module are read from the MMIO space; the methods decode
//! their fields.
use crate::bits;
use vstd::prelude::*;

verus! {

/// The offset of the Capability Registers Length from the MMIO base, in bytes.
pub const CAPLENGTH_OFFSET: usize = 0x00;

/// The offset of the Host Controller Interface Version Number from the MMIO base, in bytes.
pub const HCIVERSION_OFFSET: usize = 0x02;

/// The offset of the Structural Parameters 1 from the MMIO base, in bytes.
pub const HCSPARAMS1_OFFSET: usize = 0x04;

/// The offset of the Structural Parameters 2 from the MMIO base, in bytes.
pub const HCSPARAMS2_OFFSET: usize = 0x08;

/// The offset of the Structural Parameters 3 from the MMIO base, in bytes.
pub const HCSPARAMS3_OFFSET: usize = 0x0c;

/// The offset of the Capability Parameters 1 from the MMIO base, in bytes.
pub const HCCPARAMS1_OFFSET: usize = 0x10;

/// The offset of the Doorbell Offset from the MMIO base, in bytes.
pub const DBOFF_OFFSET: usize = 0x14;

/// The offset of the Runtime Register Space Offset from the MMIO base, in bytes.
pub const RTSOFF_OFFSET: usize = 0x18;

/// The offset of the Capability Parameters 2 from the MMIO base, in bytes.
pub const HCCPARAMS2_OFFSET: usize = 0x1c;

/// The offset of the Virtualization Based Trusted IO Register Space Offset from the MMIO base, in
/// bytes.
pub const VTIOSOFF_OFFSET: usize = 0x20;

/// Each Host Controller Capability Register is aligned to its size, and they lie one after
/// another without overlapping.
pub proof fn lemma_capability_layout()
    ensures
        CAPLENGTH_OFFSET % 1 == 0,
        HCIVERSION_OFFSET % 2 == 0,
        HCSPARAMS1_OFFSET % 4 == 0,
        HCSPARAMS2_OFFSET % 4 == 0,
        HCSPARAMS3_OFFSET % 4 == 0,
        HCCPARAMS1_OFFSET % 4 == 0,
        DBOFF_OFFSET % 4 == 0,
        RTSOFF_OFFSET % 4 == 0,
        HCCPARAMS2_OFFSET % 4 == 0,
        VTIOSOFF_OFFSET % 4 == 0,
        CAPLENGTH_OFFSET + 1 <= HCIVERSION_OFFSET,
        HCIVERSION_OFFSET + 2 <= HCSPARAMS1_OFFSET,
        HCSPARAMS1_OFFSET + 4 <= HCSPARAMS2_OFFSET,
        HCSPARAMS2_OFFSET + 4 <= HCSPARAMS3_OFFSET,
        HCSPARAMS3_OFFSET + 4 <= HCCPARAMS1_OFFSET,
        HCCPARAMS1_OFFSET + 4 <= DBOFF_OFFSET,
        DBOFF_OFFSET + 4 <= RTSOFF_OFFSET,
        RTSOFF_OFFSET + 4 <= HCCPARAMS2_OFFSET,
        HCCPARAMS2_OFFSET + 4 <= VTIOSOFF_OFFSET,
{
}

/// Capability Registers Length
#[derive(Copy, Clone, Debug)]
pub struct CapabilityRegistersLength(u8);

impl View for CapabilityRegistersLength {
    type V = u8;

    closed spec fn view(&self) -> u8 {
        self.0
    }
}

impl CapabilityRegistersLength {
    /// Wraps a raw value of the register.
    pub fn from_raw(raw: u8) -> (r: Self)
        ensures
            r@ == raw,
    {
        Self(raw)
    }

    /// Returns the raw value of the register.
    pub fn into_raw(self) -> (r: u8)
        ensures
            r == self@,
    {
        self.0
    }

    /// Returns the length of the Capability Registers.
    pub fn get(self) -> (r: u8)
        ensures
            r == self@,
    {
        self.0
    }
}

/// Interface Version Number
#[derive(Copy, Clone, Debug)]
pub struct InterfaceVersionNumber(u16);

impl View for InterfaceVersionNumber {
    type V = u16;

    closed spec fn view(&self) -> u16 {
        self.0
    }
}

impl InterfaceVersionNumber {
    /// Wraps a raw value of the register.
    pub fn from_raw(raw: u16) -> (r: Self)
        ensures
            r@ == raw,
    {
        Self(raw)
    }

    /// Returns the raw value of the register.
    pub fn into_raw(self) -> (r: u16)
        ensures
            r == self@,
    {
        self.0
    }

    /// Returns a BCD encoding of the xHCI specification revision number supported by HC.
    ///
    /// The most significant byte of the value represents a major version and the least
    /// significant byte contains the minor revision extensions.
    ///
    /// For example, 0x0110 means xHCI version 1.1.0.
    pub fn get(self) -> (r: u16)
        ensures
            r == self@,
    {
        self.0
    }
}

/// Structural Parameters 1
#[derive(Copy, Clone, Debug)]
pub struct StructuralParameters1(u32);

impl View for StructuralParameters1 {
    type V = u32;

    closed spec fn view(&self) -> u32 {
        self.0
    }
}

impl StructuralParameters1 {
    /// Wraps a raw value of the register.
    pub fn from_raw(raw: u32) -> (r: Self)
        ensures
            r@ == raw,
    {
        Self(raw)
    }

    /// Returns the raw value of the register.
    pub fn into_raw(self) -> (r: u32)
        ensures
            r == self@,
    {
        self.0
    }

    /// Returns the number of available device slots.
    pub fn number_of_device_slots(self) -> (r: u8)
        ensures
            r == bits::field32(self@, 0, 8),
    {
        proof {
            bits::lemma_mask32_values();
        }
        bits::get_bits_u32(self.0, 0, 8) as u8
    }

    /// Returns the number of ports.
    pub fn number_of_ports(self) -> (r: u8)
        ensures
            r == bits::field32(self@, 24, 8),
    {
        proof {
            bits::lemma_mask32_values();
        }
        bits::get_bits_u32(self.0, 24, 8) as u8
    }
}

/// Structural Parameters 2
#[derive(Copy, Clone, Debug)]
pub struct StructuralParameters2(u32);

impl View for StructuralParameters2 {
    type V = u32;

    closed spec fn view(&self) -> u32 {
        self.0
    }
}

impl StructuralParameters2 {
    /// Wraps a raw value of the register.
    pub fn from_raw(raw: u32) -> (r: Self)
        ensures
            r@ == raw,
    {
        Self(raw)
    }

    /// Returns the raw value of the register.
    pub fn into_raw(self) -> (r: u32)
        ensures
            r == self@,
    {
        self.0
    }

    /// Returns the maximum number of the elements the Event Ring Segment Table can contain.
    ///
    /// Note that the `ERST Max` field of the Structural Parameters 2 register contains the
    /// exponential value, but this method returns the calculated value.
    pub fn event_ring_segment_table_max(self) -> (r: u16)
        ensures
            r as nat == vstd::arithmetic::power2::pow2(bits::field32(self@, 4, 4) as nat),
    {
        let e = self.erst_max();
        proof {
            bits::lemma_mask32_values();
            bits::lemma_field32_bound(self.0, 4, 4);
            vstd::bits::lemma_u16_pow2_no_overflow(e as nat);
            vstd::bits::lemma_u16_shl_is_mul(1, e as u16);
        }
        1u16 << (e as u16)
    }

    /// Returns the number of scratchpads that xHC needs.
    pub fn max_scratchpad_buffers(self) -> (r: u32)
        ensures
            r == (bits::field32(self@, 21, 5) << 5u32) | bits::field32(self@, 27, 5),
    {
        let h = self.max_scratchpad_buffers_hi();
        let l = self.max_scratchpad_buffers_lo();

        h << 5 | l
    }

    /// Returns the value of the ERST Max field.
    fn erst_max(self) -> (r: u32)
        ensures
            r == bits::field32(self@, 4, 4),
    {
        bits::get_bits_u32(self.0, 4, 4)
    }

    /// Returns the value of the Max Scratchpad Buffers (high 5 bits) field.
    fn max_scratchpad_buffers_hi(self) -> (r: u32)
        ensures
            r == bits::field32(self@, 21, 5),
    {
        bits::get_bits_u32(self.0, 21, 5)
    }

    /// Returns the value of the Max Scratchpad Buffers (low 5 bits) field.
    fn max_scratchpad_buffers_lo(self) -> (r: u32)
        ensures
            r == bits::field32(self@, 27, 5),
    {
        bits::get_bits_u32(self.0, 27, 5)
    }
}

/// Structural Parameters 3
#[derive(Copy, Clone, Debug)]
pub struct StructuralParameters3(u32);

impl View for StructuralParameters3 {
    type V = u32;

    closed spec fn view(&self) -> u32 {
        self.0
    }
}

impl StructuralParameters3 {
    /// Wraps a raw value of the register.
    pub fn from_raw(raw: u32) -> (r: Self)
        ensures
            r@ == raw,
    {
        Self(raw)
    }

    /// Returns the raw value of the register.
    pub fn into_raw(self) -> (r: u32)
        ensures
            r == self@,
    {
        self.0
    }

    /// Returns the value of the U1 Device Exit Latency field.
    pub fn u1_device_exit_latency(self) -> (r: u8)
        ensures
            r == bits::field32(self@, 0, 8),
    {
        proof {
            bits::lemma_mask32_values();
        }
        bits::get_bits_u32(self.0, 0, 8) as u8
    }

    /// Returns the value of the U2 Device Exit Latency field.
    pub fn u2_device_exit_latency(self) -> (r: u16)
        ensures
            r == bits::field32(self@, 16, 16),
    {
        proof {
            bits::lemma_mask32_values();
        }
        bits::get_bits_u32(self.0, 16, 16) as u16
    }
}

/// Capability Parameters 1
#[derive(Copy, Clone, Debug)]
pub struct CapabilityParameters1(u32);

impl View for CapabilityParameters1 {
    type V = u32;

    closed spec fn view(&self) -> u32 {
        self.0
    }
}

impl CapabilityParameters1 {
    /// Wraps a raw value of the register.
    pub fn from_raw(raw: u32) -> (r: Self)
        ensures
            r@ == raw,
    {
        Self(raw)
    }

    /// Returns the raw value of the register.
    pub fn into_raw(self) -> (r: u32)
        ensures
            r == self@,
    {
        self.0
    }

    /// Returns `true` if the xHC uses 64 byte Context data structures, and `false` if the xHC uses
    /// 32 byte Context data structures.
    pub fn context_size(self) -> (r: bool)
        ensures
            r == bits::bit32(self@, 2),
    {
        bits::get_bit_u32(self.0, 2)
    }

    /// Returns the offset of the xHCI extended capability list from the MMIO base, in Dwords.
    /// If this value is zero, the list does not exist. The base address can be calculated by
    /// `(MMIO base) + (xECP) << 2`.
    pub fn xhci_extended_capabilities_pointer(self) -> (r: u16)
        ensures
            r == bits::field32(self@, 16, 16),
    {
        proof {
            bits::lemma_mask32_values();
        }
        bits::get_bits_u32(self.0, 16, 16) as u16
    }
}

/// Doorbell Offset
#[derive(Copy, Clone, Debug)]
pub struct DoorbellOffset(u32);

impl View for DoorbellOffset {
    type V = u32;

    closed spec fn view(&self) -> u32 {
        self.0
    }
}

impl DoorbellOffset {
    /// Wraps a raw value of the register.
    pub fn from_raw(raw: u32) -> (r: Self)
        ensures
            r@ == raw,
    {
        Self(raw)
    }

    /// Returns the raw value of the register.
    pub fn into_raw(self) -> (r: u32)
        ensures
            r == self@,
    {
        self.0
    }

    /// Returns the offset of the Doorbell Array from the MMIO base.
    pub fn get(self) -> (r: u32)
        ensures
            r == self@,
    {
        self.0
    }
}

/// Runtime Register Space Offset
#[derive(Copy, Clone, Debug)]
pub struct RuntimeRegisterSpaceOffset(u32);

impl View for RuntimeRegisterSpaceOffset {
    type V = u32;

    closed spec fn view(&self) -> u32 {
        self.0
    }
}

impl RuntimeRegisterSpaceOffset {
    /// Wraps a raw value of the register.
    pub fn from_raw(raw: u32) -> (r: Self)
        ensures
            r@ == raw,
    {
        Self(raw)
    }

    /// Returns the raw value of the register.
    pub fn into_raw(self) -> (r: u32)
        ensures
            r == self@,
    {
        self.0
    }

    /// Returns the offset of the Runtime Registers from the MMIO base.
    pub fn get(self) -> (r: u32)
        ensures
            r == self@,
    {
        self.0
    }
}

/// Capability Parameters 2
#[derive(Copy, Clone, Debug)]
pub struct CapabilityParameters2(u32);

impl View for CapabilityParameters2 {
    type V = u32;

    closed spec fn view(&self) -> u32 {
        self.0
    }
}

impl CapabilityParameters2 {
    /// Wraps a raw value of the register.
    pub fn from_raw(raw: u32) -> (r: Self)
        ensures
            r@ == raw,
    {
        Self(raw)
    }

    /// Returns the raw value of the register.
    pub fn into_raw(self) -> (r: u32)
        ensures
            r == self@,
    {
        self.0
    }

    /// Returns the U3 Entry Capability bit.
    pub fn u3_entry_capability(self) -> (r: bool)
        ensures
            r == bits::bit32(self@, 0),
    {
        bits::get_bit_u32(self.0, 0)
    }

    /// Returns the Configure Endpoint Command Max Exit Latency Too Large Capability bit.
    pub fn configure_endpoint_command_max_exit_latency_too_large_capability(self) -> (r: bool)
        ensures
            r == bits::bit32(self@, 1),
    {
        bits::get_bit_u32(self.0, 1)
    }

    /// Returns the Force Save Context Capability bit.
    pub fn force_save_context_capability(self) -> (r: bool)
        ensures
            r == bits::bit32(self@, 2),
    {
        bits::get_bit_u32(self.0, 2)
    }

    /// Returns the Compliance Transition Capability bit.
    pub fn compliance_transition_capability(self) -> (r: bool)
        ensures
            r == bits::bit32(self@, 3),
    {
        bits::get_bit_u32(self.0, 3)
    }

    /// Returns the Large ESIT Payload Capability bit.
    pub fn large_esit_payload_capability(self) -> (r: bool)
        ensures
            r == bits::bit32(self@, 4),
    {
        bits::get_bit_u32(self.0, 4)
    }

    /// Returns the Configuration Information Capability bit.
    pub fn configuration_information_capability(self) -> (r: bool)
        ensures
            r == bits::bit32(self@, 5),
    {
        bits::get_bit_u32(self.0, 5)
    }

    /// Returns the Extended TBC Capability bit.
    pub fn extended_tbc_capability(self) -> (r: bool)
        ensures
            r == bits::bit32(self@, 6),
    {
        bits::get_bit_u32(self.0, 6)
    }

    /// Returns the Extended TBC TRB Status Capability bit.
    pub fn extended_tbc_trb_status_capability(self) -> (r: bool)
        ensures
            r == bits::bit32(self@, 7),
    {
        bits::get_bit_u32(self.0, 7)
    }

    /// Returns the Get/Set Extended Property Capability bit.
    pub fn get_set_extended_property_capability_field(self) -> (r: bool)
        ensures
            r == bits::bit32(self@, 8),
    {
        bits::get_bit_u32(self.0, 8)
    }

    /// Returns the Virtualization Based Trusted I/O Capability bit.
    pub fn virtualization_based_trusted_io_capability(self) -> (r: bool)
        ensures
            r == bits::bit32(self@, 9),
    {
        bits::get_bit_u32(self.0, 9)
    }
}

/// Virtualization Based Trusted IO Register Space Offset
#[derive(Copy, Clone, Debug)]
pub struct VirtualizationBasedTrustedIoRegisterSpaceOffset(u32);

impl View for VirtualizationBasedTrustedIoRegisterSpaceOffset {
    type V = u32;

    closed spec fn view(&self) -> u32 {
        self.0
    }
}

impl VirtualizationBasedTrustedIoRegisterSpaceOffset {
    /// Wraps a raw value of the register.
    pub fn from_raw(raw: u32) -> (r: Self)
        ensures
            r@ == raw,
    {
        Self(raw)
    }

    /// Returns the raw value of the register.
    pub fn into_raw(self) -> (r: u32)
        ensures
            r == self@,
    {
        self.0
    }

    /// Returns the offset of the VTIO Registers from the MMIO base.
    pub fn get(self) -> (r: u32)
        ensures
            r == self@,
    {
        self.0
    }
}

} // verus!
