//! Debug Capability.
use crate::bits;
use vstd::prelude::*;

verus! {

/// Debug Capability ID Register.
#[derive(Copy, Clone, Debug)]
pub struct Id(u32);

impl View for Id {
    type V = u32;

    closed spec fn view(&self) -> u32 {
        self.0
    }
}

impl Id {
    /// Wraps a raw value of the register.
    pub fn from_raw(raw: u32) -> (r: Self)
        ensures
            r@ == raw,
    {
        Self(raw)
    }

    /// Returns the raw value of the register.
    pub fn into_raw(self) -> (r: u32)
        ensures
            r == self@,
    {
        self.0
    }

    /// Returns the value of the Debug Capability Event Ring Segment Table Max field.
    pub fn debug_capability_event_ring_segment_table_max(self) -> (r: u8)
        ensures
            r == bits::field32(self@, 16, 5),
    {
        proof {
            bits::lemma_mask32_values();
        }
        bits::get_bits_u32(self.0, 16, 5) as u8
    }
}

/// Debug Capability Doorbell Register.
#[derive(Copy, Clone, Debug)]
pub struct Doorbell(u32);

impl View for Doorbell {
    type V = u32;

    closed spec fn view(&self) -> u32 {
        self.0
    }
}

impl Doorbell {
    /// Wraps a raw value of the register.
    pub fn from_raw(raw: u32) -> (r: Self)
        ensures
            r@ == raw,
    {
        Self(raw)
    }

    /// Returns the raw value of the register.
    pub fn into_raw(self) -> (r: u32)
        ensures
            r == self@,
    {
        self.0
    }

    /// Sets the value of the Doorbell Target field.
    pub fn set_doorbell_target(&mut self, target: u8)
        ensures
            final(self)@ == bits::with_field32(old(self)@, 8, 8, target as u32),
    {
        proof {
            bits::lemma_mask32_values();
        }
        self.0 = bits::set_bits_u32(self.0, 8, 8, target as u32);
    }
}

/// Debug Capability Event Ring Segment Table Size Register.
#[derive(Copy, Clone, Debug)]
pub struct EventRingSegmentTableSize(u32);

impl View for EventRingSegmentTableSize {
    type V = u32;

    closed spec fn view(&self) -> u32 {
        self.0
    }
}

impl EventRingSegmentTableSize {
    /// Wraps a raw value of the register.
    pub fn from_raw(raw: u32) -> (r: Self)
        ensures
            r@ == raw,
    {
        Self(raw)
    }

    /// Returns the raw value of the register.
    pub fn into_raw(self) -> (r: u32)
        ensures
            r == self@,
    {
        self.0
    }

    /// Returns the value of the Event Ring Segment Table Size field.
    pub fn event_ring_segment_table_size(self) -> (r: u16)
        ensures
            r == bits::field32(self@, 0, 16),
    {
        proof {
            bits::lemma_mask32_values();
        }
        bits::get_bits_u32(self.0, 0, 16) as u16
    }

    /// Sets the value of the Event Ring Segment Table Size field.
    pub fn set_event_ring_segment_table_size(&mut self, sz: u16)
        ensures
            final(self)@ == bits::with_field32(old(self)@, 0, 16, sz as u32),
    {
        proof {
            bits::lemma_mask32_values();
        }
        self.0 = bits::set_bits_u32(self.0, 0, 16, sz as u32);
    }
}

} // verus!
