//! The xHCI Extended Capabilities.
//!
//! The capabilities form a list in the MMIO space: the Capability Parameters 1 register gives
//! the offset of the first one, and the header of each gives its ID and the offset of the next.
//! This module decides, from the headers that are read, where each capability lies and which
//! it is; reading the headers is left to the caller.
use crate::bits;
use crate::registers::capability::CapabilityParameters1;
use vstd::prelude::*;

pub mod debug;
pub mod hci_extended_power_management;
pub mod supported_protocol;
pub mod usb_legacy_support_capability;
pub mod xhci_extended_message_interrupt;
pub mod xhci_io_virtualization;
pub mod xhci_local_memory;
pub mod xhci_message_interrupt;
pub mod xhci_supported_protocol;

verus! {

/// The ID of the USB Legacy Support Capability.
pub const USB_LEGACY_SUPPORT_ID: u8 = 1;

/// A struct to access xHCI Extended Capabilities: the address of the first one.
#[derive(Copy, Clone, Debug)]
pub struct List {
    base: usize,
}

impl List {
    /// The address of the first xHCI Extended Capability.
    pub closed spec fn spec_base(&self) -> usize {
        self.base
    }

    /// Locates the xHCI Extended Capabilities.
    ///
    /// This method returns [`None`] if the xHC does not support the xHCI Extended Capabilities,
    /// that is, if the xHCI Extended Capabilities Pointer is 0.
    pub fn new(mmio_base: usize, hccparams1: CapabilityParameters1) -> (r: Option<Self>)
        requires
            mmio_base + bits::field32(hccparams1@, 16, 16) * 4 <= usize::MAX,
        ensures
            r is None <==> bits::field32(hccparams1@, 16, 16) == 0,
            r matches Some(l) ==> l.spec_base() == mmio_base + bits::field32(hccparams1@, 16, 16)
                * 4,
    {
        let xecp: usize = hccparams1.xhci_extended_capabilities_pointer() as usize;
        if xecp == 0 {
            None
        } else {
            let base = mmio_base + xecp * 4;
            Some(Self { base })
        }
    }

    /// Returns the address of the first xHCI Extended Capability.
    pub fn base(&self) -> (r: usize)
        ensures
            r == self.spec_base(),
    {
        self.base
    }

    /// Returns an iterator over the xHCI Extended Capabilities.
    pub fn iter_mut(&mut self) -> (r: IterMut)
        ensures
            r.spec_current() == Some(old(self).spec_base()),
            *final(self) == *old(self),
    {
        IterMut::new(self)
    }
}

/// An iterator over the xHCI Extended Capabilities.
///
/// The caller reads the header of the capability at [`IterMut::current`] and hands it to
/// [`IterMut::next`].
#[derive(Copy, Clone, Debug)]
pub struct IterMut {
    current: Option<usize>,
}

impl IterMut {
    /// The address of the capability that comes next, if any.
    pub closed spec fn spec_current(&self) -> Option<usize> {
        self.current
    }

    fn new(l: &List) -> (r: Self)
        ensures
            r.spec_current() == Some(l.spec_base()),
    {
        Self { current: Some(l.base) }
    }

    /// Returns the address of the capability that comes next, or [`None`] if the list has
    /// ended.
    pub fn current(&self) -> (r: Option<usize>)
        ensures
            r == self.spec_current(),
    {
        self.current
    }

    /// Moves past the capability at [`IterMut::current`], whose header is `h`, and returns it:
    /// the capability at that address if this crate supports its ID, or the ID otherwise.
    ///
    /// The address of the next capability is the current one plus four times the Next
    /// Capability Pointer of the header; a pointer of 0 ends the list. The addresses therefore
    /// only grow, and the list ends.
    pub fn next(&mut self, h: Header) -> (r: Option<Result<ExtendedCapability, NotSupportedId>>)
        requires
            old(self).spec_current() matches Some(c) ==> c + bits::field32(h@, 8, 8) * 4
                <= usize::MAX,
        ensures
            old(self).spec_current() is None ==> r is None && final(self).spec_current() is None,
            old(self).spec_current() matches Some(c) ==> {
                &&& final(self).spec_current() == (if bits::field32(h@, 8, 8) == 0 {
                    None
                } else {
                    Some((c + bits::field32(h@, 8, 8) * 4) as usize)
                })
                &&& r == Some(
                    if bits::field32(h@, 0, 8) == USB_LEGACY_SUPPORT_ID {
                        Ok(ExtendedCapability::UsbLegacySupportCapability(c))
                    } else {
                        Err(NotSupportedId(bits::field32(h@, 0, 8) as u8))
                    },
                )
            },
            final(self).spec_current() matches Some(n) ==> old(self).spec_current() matches Some(
                c,
            ) && n > c,
    {
        match self.current {
            None => None,
            Some(current) => {
                let next = h.next();
                self.current = if next == 0 {
                    None
                } else {
                    Some(current + next as usize * 4)
                };
                let id = h.id();
                Some(
                    if id == USB_LEGACY_SUPPORT_ID {
                        Ok(ExtendedCapability::UsbLegacySupportCapability(current))
                    } else {
                        Err(NotSupportedId(id))
                    },
                )
            },
        }
    }
}

/// The xHCI Extended Capability, with the address where it lies.
#[non_exhaustive]
#[derive(Copy, Clone, Debug, PartialEq, Eq, Structural)]
pub enum ExtendedCapability {
    /// USB Legacy Support Capability.
    UsbLegacySupportCapability(usize),
}

/// A struct representing that the Extended Capability with the ID is not supported by this
/// crate.
#[derive(Copy, Clone, Ord, PartialOrd, Eq, PartialEq, Structural, Hash, Debug)]
pub struct NotSupportedId(pub u8);

impl Default for NotSupportedId {
    fn default() -> (r: Self)
        ensures
            r.0 == 0,
    {
        NotSupportedId(0)
    }
}

/// The header of an xHCI Extended Capability.
#[derive(Copy, Clone, Debug)]
pub struct Header(u32);

impl View for Header {
    type V = u32;

    closed spec fn view(&self) -> u32 {
        self.0
    }
}

impl Header {
    /// Wraps a raw value of the register.
    pub fn from_raw(raw: u32) -> (r: Self)
        ensures
            r@ == raw,
    {
        Self(raw)
    }

    /// Returns the raw value of the register.
    pub fn into_raw(self) -> (r: u32)
        ensures
            r == self@,
    {
        self.0
    }

    /// Returns the Capability ID.
    pub fn id(self) -> (r: u8)
        ensures
            r == bits::field32(self@, 0, 8),
    {
        proof {
            bits::lemma_mask32_values();
        }
        bits::get_bits_u32(self.0, 0, 8) as u8
    }

    /// Returns the Next xHCI Extended Capability Pointer, in Dwords.
    pub fn next(self) -> (r: u8)
        ensures
            r == bits::field32(self@, 8, 8),
    {
        proof {
            bits::lemma_mask32_values();
        }
        bits::get_bits_u32(self.0, 8, 8) as u8
    }
}

} // verus!
