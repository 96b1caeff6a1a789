//! USB Legacy Support Capability
use crate::bits;
use vstd::prelude::*;

verus! {

/// The offset of the USB Legacy Support Capability register from the base of the capability, in
/// bytes.
pub const USBLEGSUP_OFFSET: usize = 0x00;

/// The offset of the USB Legacy Support Control/Status register from the base of the capability, in
/// bytes.
pub const USBLEGCTLSTS_OFFSET: usize = 0x04;

/// The two registers of the USB Legacy Support Capability are aligned Dwords that lie one after
/// the other.
pub proof fn lemma_usb_legacy_support_layout()
    ensures
        USBLEGSUP_OFFSET % 4 == 0,
        USBLEGCTLSTS_OFFSET % 4 == 0,
        USBLEGSUP_OFFSET + 4 <= USBLEGCTLSTS_OFFSET,
{
}

/// The first 4-byte of the USB Legacy Support Capability.
#[derive(Copy, Clone, Debug)]
pub struct LegSup(u32);

impl View for LegSup {
    type V = u32;

    closed spec fn view(&self) -> u32 {
        self.0
    }
}

impl LegSup {
    /// Wraps a raw value of the register.
    pub fn from_raw(raw: u32) -> (r: Self)
        ensures
            r@ == raw,
    {
        Self(raw)
    }

    /// Returns the raw value of the register.
    pub fn into_raw(self) -> (r: u32)
        ensures
            r == self@,
    {
        self.0
    }

    /// Returns the HC BIOS Owned Semaphore bit.
    pub fn hc_bios_owned_semaphore(self) -> (r: bool)
        ensures
            r == bits::bit32(self@, 16),
    {
        bits::get_bit_u32(self.0, 16)
    }

    /// Sets the value of the HC BIOS Owned Semaphore bit.
    pub fn set_hc_bios_owned_semaphore(&mut self, b: bool)
        ensures
            final(self)@ == bits::with_bit32(old(self)@, 16, b),
    {
        self.0 = bits::set_bit_u32(self.0, 16, b);
    }

    /// Returns the HC OS Owned Semaphore bit.
    pub fn hc_os_owned_semaphore(self) -> (r: bool)
        ensures
            r == bits::bit32(self@, 24),
    {
        bits::get_bit_u32(self.0, 24)
    }

    /// Sets the value of the HC OS Owned Semaphore bit.
    pub fn set_hc_os_owned_semaphore(&mut self, b: bool)
        ensures
            final(self)@ == bits::with_bit32(old(self)@, 24, b),
    {
        self.0 = bits::set_bit_u32(self.0, 24, b);
    }
}

/// USB Legacy Support Control/Status.
#[derive(Copy, Clone, Debug)]
pub struct UsbLegacySupportControlStatus(u32);

impl View for UsbLegacySupportControlStatus {
    type V = u32;

    closed spec fn view(&self) -> u32 {
        self.0
    }
}

impl UsbLegacySupportControlStatus {
    /// Wraps a raw value of the register.
    pub fn from_raw(raw: u32) -> (r: Self)
        ensures
            r@ == raw,
    {
        Self(raw)
    }

    /// Returns the raw value of the register.
    pub fn into_raw(self) -> (r: u32)
        ensures
            r == self@,
    {
        self.0
    }

    /// Returns the USB SMI Enable bit.
    pub fn usb_smi_enable(self) -> (r: bool)
        ensures
            r == bits::bit32(self@, 0),
    {
        bits::get_bit_u32(self.0, 0)
    }

    /// Sets the value of the USB SMI Enable bit.
    pub fn set_usb_smi_enable(&mut self, b: bool)
        ensures
            final(self)@ == bits::with_bit32(old(self)@, 0, b),
    {
        self.0 = bits::set_bit_u32(self.0, 0, b);
    }

    /// Returns the SMI on Host System Error Enable bit.
    pub fn smi_on_host_system_error_enable(self) -> (r: bool)
        ensures
            r == bits::bit32(self@, 4),
    {
        bits::get_bit_u32(self.0, 4)
    }

    /// Sets the value of the SMI on Host System Error Enable bit.
    pub fn set_smi_on_host_system_error_enable(&mut self, b: bool)
        ensures
            final(self)@ == bits::with_bit32(old(self)@, 4, b),
    {
        self.0 = bits::set_bit_u32(self.0, 4, b);
    }

    /// Returns the SMI on OS Ownership Enable bit.
    pub fn smi_on_os_ownership_enable(self) -> (r: bool)
        ensures
            r == bits::bit32(self@, 13),
    {
        bits::get_bit_u32(self.0, 13)
    }

    /// Sets the value of the SMI on OS Ownership Enable bit.
    pub fn set_smi_on_os_ownership_enable(&mut self, b: bool)
        ensures
            final(self)@ == bits::with_bit32(old(self)@, 13, b),
    {
        self.0 = bits::set_bit_u32(self.0, 13, b);
    }

    /// Returns the SMI on PCI Command Enable bit.
    pub fn smi_on_pci_command_enable(self) -> (r: bool)
        ensures
            r == bits::bit32(self@, 14),
    {
        bits::get_bit_u32(self.0, 14)
    }

    /// Sets the value of the SMI on PCI Command Enable bit.
    pub fn set_smi_on_pci_command_enable(&mut self, b: bool)
        ensures
            final(self)@ == bits::with_bit32(old(self)@, 14, b),
    {
        self.0 = bits::set_bit_u32(self.0, 14, b);
    }

    /// Returns the SMI on BAR Enable bit.
    pub fn smi_on_bar_enable(self) -> (r: bool)
        ensures
            r == bits::bit32(self@, 15),
    {
        bits::get_bit_u32(self.0, 15)
    }

    /// Sets the value of the SMI on BAR Enable bit.
    pub fn set_smi_on_bar_enable(&mut self, b: bool)
        ensures
            final(self)@ == bits::with_bit32(old(self)@, 15, b),
    {
        self.0 = bits::set_bit_u32(self.0, 15, b);
    }

    /// Returns the SMI on Event Interrupt bit.
    pub fn smi_on_event_interrupt(self) -> (r: bool)
        ensures
            r == bits::bit32(self@, 16),
    {
        bits::get_bit_u32(self.0, 16)
    }

    /// Returns the SMI on Host System Error bit.
    pub fn smi_on_host_system_error(self) -> (r: bool)
        ensures
            r == bits::bit32(self@, 20),
    {
        bits::get_bit_u32(self.0, 20)
    }

    /// Returns the SMI on OS Ownership Change bit.
    pub fn smi_on_os_ownership_change(self) -> (r: bool)
        ensures
            r == bits::bit32(self@, 29),
    {
        bits::get_bit_u32(self.0, 29)
    }

    /// Clears the SMI on OS Ownership Change bit (by writing 1 to it).
    pub fn clear_smi_on_os_ownership(&mut self)
        ensures
            final(self)@ == bits::with_bit32(old(self)@, 29, true),
    {
        self.0 = bits::set_bit_u32(self.0, 29, true);
    }

    /// Returns the SMI on PCI Command bit.
    pub fn smi_on_pci_command(self) -> (r: bool)
        ensures
            r == bits::bit32(self@, 30),
    {
        bits::get_bit_u32(self.0, 30)
    }

    /// Clears the SMI on PCI Command bit (by writing 1 to it).
    pub fn clear_smi_on_pci_command(&mut self)
        ensures
            final(self)@ == bits::with_bit32(old(self)@, 30, true),
    {
        self.0 = bits::set_bit_u32(self.0, 30, true);
    }

    /// Returns the SMI on BAR bit.
    pub fn smi_on_bar(self) -> (r: bool)
        ensures
            r == bits::bit32(self@, 31),
    {
        bits::get_bit_u32(self.0, 31)
    }

    /// Clears the SMI on BAR bit (by writing 1 to it).
    pub fn clear_smi_on_bar(&mut self)
        ensures
            final(self)@ == bits::with_bit32(old(self)@, 31, true),
    {
        self.0 = bits::set_bit_u32(self.0, 31, true);
    }
}

} // verus!
