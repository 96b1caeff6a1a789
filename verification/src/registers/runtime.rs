//! Host Controller Runtime Registers.
use super::capability::RuntimeRegisterSpaceOffset;
use crate::bits;
use vstd::prelude::*;

verus! {

/// The number of Interrupter Register Sets that the Runtime Registers can hold.
pub const NUM_OF_INTERRUPTERS: usize = 1024;

/// The bytes of an Interrupter Register Set.
pub const INTERRUPTER_REGISTER_SET_BYTES: usize = 0x20;

/// The offset of the first Interrupter Register Set from the base of the Runtime Registers, in
/// bytes.
pub const INTERRUPTER_REGISTER_SETS_OFFSET: usize = 0x20;

/// The offset of the Microframe Index Register from the base of the Runtime Registers, in
/// bytes.
pub const MFINDEX_OFFSET: usize = 0x00;

/// The offset of the Interrupter Management Register from the base of an Interrupter Register Set,
/// in bytes.
pub const IMAN_OFFSET: usize = 0x00;

/// The offset of the Interrupter Moderation Register from the base of an Interrupter Register Set,
/// in bytes.
pub const IMOD_OFFSET: usize = 0x04;

/// The offset of the Event Ring Segment Table Size Register from the base of an Interrupter
/// Register Set, in bytes.
pub const ERSTSZ_OFFSET: usize = 0x08;

/// The offset of the Event Ring Segment Table Base Address Register from the base of an Interrupter
/// Register Set, in bytes.
pub const ERSTBA_OFFSET: usize = 0x10;

/// The offset of the Event Ring Dequeue Pointer Register from the base of an Interrupter Register
/// Set, in bytes.
pub const ERDP_OFFSET: usize = 0x18;

/// Each register of an Interrupter Register Set is aligned to its size, and they lie one after
/// another without overlapping inside the set.
pub proof fn lemma_interrupter_layout()
    ensures
        IMAN_OFFSET % 4 == 0,
        IMOD_OFFSET % 4 == 0,
        ERSTSZ_OFFSET % 4 == 0,
        ERSTBA_OFFSET % 8 == 0,
        ERDP_OFFSET % 8 == 0,
        IMAN_OFFSET + 4 <= IMOD_OFFSET,
        IMOD_OFFSET + 4 <= ERSTSZ_OFFSET,
        ERSTSZ_OFFSET + 4 <= ERSTBA_OFFSET,
        ERSTBA_OFFSET + 8 <= ERDP_OFFSET,
        ERDP_OFFSET + 8 <= INTERRUPTER_REGISTER_SET_BYTES,
{
}

/// Returns the base address of the Runtime Registers: the MMIO base plus the Runtime Register
/// Space Offset.
pub fn runtime_base(mmio_base: usize, rtoff: RuntimeRegisterSpaceOffset) -> (r: usize)
    requires
        mmio_base + rtoff@ <= usize::MAX,
    ensures
        r == mmio_base + rtoff@,
{
    mmio_base + rtoff.get() as usize
}

/// The location of the Interrupter Register Sets.
///
/// The sets follow the Microframe Index Register and its reserved space, 0x20 bytes after the
/// base of the Runtime Registers.
#[derive(Copy, Clone, Debug)]
pub struct InterrupterRegisterSet {
    base: usize,
}

impl InterrupterRegisterSet {
    /// The base address of the first Interrupter Register Set.
    pub closed spec fn spec_base(&self) -> usize {
        self.base
    }

    /// Locates the Interrupter Register Sets.
    ///
    /// The base address of the sets must be aligned to 0x20 bytes.
    pub fn new(mmio_base: usize, rtoff: RuntimeRegisterSpaceOffset) -> (r: Self)
        requires
            mmio_base + rtoff@ + INTERRUPTER_REGISTER_SETS_OFFSET + NUM_OF_INTERRUPTERS
                * INTERRUPTER_REGISTER_SET_BYTES <= usize::MAX,
            (mmio_base + rtoff@ + INTERRUPTER_REGISTER_SETS_OFFSET) % (INTERRUPTER_REGISTER_SET_BYTES as int)
                == 0,
        ensures
            r.spec_base() == mmio_base + rtoff@ + INTERRUPTER_REGISTER_SETS_OFFSET,
    {
        let base = mmio_base + rtoff.get() as usize + INTERRUPTER_REGISTER_SETS_OFFSET;
        Self { base }
    }

    /// Returns the base address of the Interrupter Register Sets.
    pub fn base(&self) -> (r: usize)
        ensures
            r == self.spec_base(),
    {
        self.base
    }

    /// Returns the base address of the `index`th Interrupter Register Set. The Interrupter
    /// Management Register is at this address, the Interrupter Moderation Register 0x4 bytes
    /// after it, the Event Ring Segment Table Size Register 0x8 bytes after it, the Event Ring
    /// Segment Table Base Address Register 0x10 bytes after it, and the Event Ring Dequeue
    /// Pointer Register 0x18 bytes after it.
    ///
    /// The index must be less than 1024.
    pub fn interrupter_base(&self, index: usize) -> (r: usize)
        requires
            index < NUM_OF_INTERRUPTERS,
            self.spec_base() + NUM_OF_INTERRUPTERS * INTERRUPTER_REGISTER_SET_BYTES <= usize::MAX,
        ensures
            r == self.spec_base() + index * INTERRUPTER_REGISTER_SET_BYTES,
            r % INTERRUPTER_REGISTER_SET_BYTES == self.spec_base() % INTERRUPTER_REGISTER_SET_BYTES,
    {
        self.base + index * INTERRUPTER_REGISTER_SET_BYTES
    }
}

/// Microframe Index Register
#[derive(Copy, Clone, Debug)]
pub struct MicroframeIndexRegister(u32);

impl View for MicroframeIndexRegister {
    type V = u32;

    closed spec fn view(&self) -> u32 {
        self.0
    }
}

impl MicroframeIndexRegister {
    /// Wraps a raw value of the register.
    pub fn from_raw(raw: u32) -> (r: Self)
        ensures
            r@ == raw,
    {
        Self(raw)
    }

    /// Returns the raw value of the register.
    pub fn into_raw(self) -> (r: u32)
        ensures
            r == self@,
    {
        self.0
    }

    /// Returns the value of the Microframe Index field.
    pub fn microframe_index(&self) -> (r: u16)
        ensures
            r == bits::field32(self@, 0, 14),
    {
        proof {
            bits::lemma_mask32_values();
        }
        bits::get_bits_u32(self.0, 0, 14) as u16
    }
}

/// Interrupter Management Register.
#[derive(Copy, Clone, Debug)]
pub struct InterrupterManagementRegister(u32);

impl View for InterrupterManagementRegister {
    type V = u32;

    closed spec fn view(&self) -> u32 {
        self.0
    }
}

impl InterrupterManagementRegister {
    /// Wraps a raw value of the register.
    pub fn from_raw(raw: u32) -> (r: Self)
        ensures
            r@ == raw,
    {
        Self(raw)
    }

    /// Returns the raw value of the register.
    pub fn into_raw(self) -> (r: u32)
        ensures
            r == self@,
    {
        self.0
    }

    /// Returns the Interrupt Pending bit.
    pub fn interrupt_pending(&self) -> (r: bool)
        ensures
            r == bits::bit32(self@, 0),
    {
        bits::get_bit_u32(self.0, 0)
    }

    /// Assigns 1 to the Interrupt Pending bit. On register write, this results in clearing the bit.
    pub fn clear_interrupt_pending(&mut self) -> (r: &mut Self)
        ensures
            (*r)@ == bits::with_bit32(old(self)@, 0, true),
            *final(self) == *final(r),
    {
        self.0 = bits::set_bit_u32(self.0, 0, true);
        self
    }

    /// Assigns 0 to the Interrupt Pending bit, preventing the bit from being cleared on write.
    pub fn set_0_interrupt_pending(&mut self) -> (r: &mut Self)
        ensures
            (*r)@ == bits::with_bit32(old(self)@, 0, false),
            *final(self) == *final(r),
    {
        self.0 = bits::set_bit_u32(self.0, 0, false);
        self
    }

    /// Returns the Interrupt Enable bit.
    pub fn interrupt_enable(&self) -> (r: bool)
        ensures
            r == bits::bit32(self@, 1),
    {
        bits::get_bit_u32(self.0, 1)
    }

    /// Sets the Interrupt Enable bit.
    pub fn set_interrupt_enable(&mut self) -> (r: &mut Self)
        ensures
            (*r)@ == bits::with_bit32(old(self)@, 1, true),
            *final(self) == *final(r),
    {
        self.0 = bits::set_bit_u32(self.0, 1, true);
        self
    }

    /// Clears the Interrupt Enable bit.
    pub fn clear_interrupt_enable(&mut self) -> (r: &mut Self)
        ensures
            (*r)@ == bits::with_bit32(old(self)@, 1, false),
            *final(self) == *final(r),
    {
        self.0 = bits::set_bit_u32(self.0, 1, false);
        self
    }
}

/// Interrupter Moderation Register.
#[derive(Copy, Clone, Debug)]
pub struct InterrupterModerationRegister(u32);

impl View for InterrupterModerationRegister {
    type V = u32;

    closed spec fn view(&self) -> u32 {
        self.0
    }
}

impl InterrupterModerationRegister {
    /// Wraps a raw value of the register.
    pub fn from_raw(raw: u32) -> (r: Self)
        ensures
            r@ == raw,
    {
        Self(raw)
    }

    /// Returns the raw value of the register.
    pub fn into_raw(self) -> (r: u32)
        ensures
            r == self@,
    {
        self.0
    }

    /// Returns the value of the Interrupt Moderation Interval field.
    pub fn interrupt_moderation_interval(&self) -> (r: u16)
        ensures
            r == bits::field32(self@, 0, 16),
    {
        proof {
            bits::lemma_mask32_values();
        }
        bits::get_bits_u32(self.0, 0, 16) as u16
    }

    /// Sets the value of the Interrupt Moderation Interval field.
    pub fn set_interrupt_moderation_interval(&mut self, value: u16) -> (r: &mut Self)
        ensures
            (*r)@ == bits::with_field32(old(self)@, 0, 16, value as u32),
            *final(self) == *final(r),
    {
        proof {
            bits::lemma_mask32_values();
        }
        self.0 = bits::set_bits_u32(self.0, 0, 16, value as u32);
        self
    }

    /// Returns the value of the Interrupt Moderation Counter field.
    pub fn interrupt_moderation_counter(&self) -> (r: u16)
        ensures
            r == bits::field32(self@, 16, 16),
    {
        proof {
            bits::lemma_mask32_values();
        }
        bits::get_bits_u32(self.0, 16, 16) as u16
    }

    /// Sets the value of the Interrupt Moderation Counter field.
    pub fn set_interrupt_moderation_counter(&mut self, value: u16) -> (r: &mut Self)
        ensures
            (*r)@ == bits::with_field32(old(self)@, 16, 16, value as u32),
            *final(self) == *final(r),
    {
        proof {
            bits::lemma_mask32_values();
        }
        self.0 = bits::set_bits_u32(self.0, 16, 16, value as u32);
        self
    }
}

impl Default for InterrupterModerationRegister {
    fn default() -> (r: Self)
        ensures
            r@ == 0,
    {
        Self(0)
    }
}

/// Event Ring Segment Table Size Register.
#[derive(Copy, Clone, Debug)]
pub struct EventRingSegmentTableSizeRegister(u32);

impl View for EventRingSegmentTableSizeRegister {
    type V = u32;

    closed spec fn view(&self) -> u32 {
        self.0
    }
}

impl EventRingSegmentTableSizeRegister {
    /// Wraps a raw value of the register.
    pub fn from_raw(raw: u32) -> (r: Self)
        ensures
            r@ == raw,
    {
        Self(raw)
    }

    /// Returns the raw value of the register.
    pub fn into_raw(self) -> (r: u32)
        ensures
            r == self@,
    {
        self.0
    }

    /// Returns the value of the Event Ring Segment Table Size (the number of segments) field.
    pub fn get(&self) -> (r: u16)
        ensures
            r == bits::field32(self@, 0, 16),
    {
        proof {
            bits::lemma_mask32_values();
        }
        bits::get_bits_u32(self.0, 0, 16) as u16
    }

    /// Sets the value of the Event Ring Segment Table Size (the number of segments) field.
    pub fn set(&mut self, value: u16) -> (r: &mut Self)
        ensures
            (*r)@ == bits::with_field32(old(self)@, 0, 16, value as u32),
            *final(self) == *final(r),
    {
        proof {
            bits::lemma_mask32_values();
        }
        self.0 = bits::set_bits_u32(self.0, 0, 16, value as u32);
        self
    }
}

/// Event Ring Segment Table Base Address Register.
#[derive(Copy, Clone, Debug)]
pub struct EventRingSegmentTableBaseAddressRegister(u64);

impl View for EventRingSegmentTableBaseAddressRegister {
    type V = u64;

    closed spec fn view(&self) -> u64 {
        self.0
    }
}

impl EventRingSegmentTableBaseAddressRegister {
    /// Wraps a raw value of the register.
    pub fn from_raw(raw: u64) -> (r: Self)
        ensures
            r@ == raw,
    {
        Self(raw)
    }

    /// Returns the raw value of the register.
    pub fn into_raw(self) -> (r: u64)
        ensures
            r == self@,
    {
        self.0
    }

    /// Returns the value of the Event Ring Segment Table Base Address field.
    pub fn get(&self) -> (r: u64)
        ensures
            r == bits::clear_low64(self@, 6u64),
    {
        self.0 >> 6 << 6
    }

    /// Sets the value of the Event Ring Segment Table Base Address field.
    ///
    /// The value must be 64-byte aligned.
    pub fn set(&mut self, value: u64) -> (r: &mut Self)
        requires
            value % 64 == 0,
        ensures
            (*r)@ == bits::with_high64(old(self)@, 6u64, value),
            *final(self) == *final(r),
    {
        proof {
            bits::lemma_aligned64(value);
        }
        self.0 = bits::set_high_bits_u64(self.0, 6, value);
        self
    }
}

/// Event Ring Dequeue Pointer Register.
#[derive(Copy, Clone, Debug)]
pub struct EventRingDequeuePointerRegister(u64);

impl View for EventRingDequeuePointerRegister {
    type V = u64;

    closed spec fn view(&self) -> u64 {
        self.0
    }
}

impl EventRingDequeuePointerRegister {
    /// Wraps a raw value of the register.
    pub fn from_raw(raw: u64) -> (r: Self)
        ensures
            r@ == raw,
    {
        Self(raw)
    }

    /// Returns the raw value of the register.
    pub fn into_raw(self) -> (r: u64)
        ensures
            r == self@,
    {
        self.0
    }

    /// Returns the value of the Dequeue ERST Segment Index field.
    pub fn dequeue_erst_segment_index(&self) -> (r: u8)
        ensures
            r == bits::field64(self@, 0u64, 3u64),
    {
        proof {
            bits::lemma_mask64_values();
        }
        bits::get_bits_u64(self.0, 0, 3) as u8
    }

    /// Sets the value of the Dequeue ERST Segment Index field.
    ///
    /// The value must fit in the 3 bits of the field.
    pub fn set_dequeue_erst_segment_index(&mut self, value: u8) -> (r: &mut Self)
        requires
            value < 8,
        ensures
            (*r)@ == bits::with_field64(old(self)@, 0u64, 3u64, value as u64),
            *final(self) == *final(r),
    {
        proof {
            bits::lemma_mask64_values();
        }
        self.0 = bits::set_bits_u64(self.0, 0, 3, value as u64);
        self
    }

    /// Returns the Event Handler Busy bit.
    pub fn event_handler_busy(&self) -> (r: bool)
        ensures
            r == bits::bit64(self@, 3u64),
    {
        bits::get_bit_u64(self.0, 3)
    }

    /// Assigns 1 to the Event Handler Busy bit. On register write, this results in clearing the bit.
    pub fn clear_event_handler_busy(&mut self) -> (r: &mut Self)
        ensures
            (*r)@ == bits::with_bit64(old(self)@, 3u64, true),
            *final(self) == *final(r),
    {
        self.0 = bits::set_bit_u64(self.0, 3, true);
        self
    }

    /// Assigns 0 to the Event Handler Busy bit, preventing the bit from being cleared on write.
    pub fn set_0_event_handler_busy(&mut self) -> (r: &mut Self)
        ensures
            (*r)@ == bits::with_bit64(old(self)@, 3u64, false),
            *final(self) == *final(r),
    {
        self.0 = bits::set_bit_u64(self.0, 3, false);
        self
    }

    /// Returns the value of the current Event Ring Dequeue Pointer field.
    pub fn event_ring_dequeue_pointer(&self) -> (r: u64)
        ensures
            r == bits::clear_low64(self@, 4u64),
    {
        self.0 >> 4 << 4
    }

    /// Sets the value of the current Event Ring Dequeue Pointer field.
    ///
    /// The value must be 16-byte aligned.
    pub fn set_event_ring_dequeue_pointer(&mut self, value: u64) -> (r: &mut Self)
        requires
            value % 16 == 0,
        ensures
            (*r)@ == bits::with_high64(old(self)@, 4u64, value),
            *final(self) == *final(r),
    {
        proof {
            bits::lemma_aligned64(value);
        }
        self.0 = bits::set_high_bits_u64(self.0, 4, value);
        self
    }
}

impl Default for EventRingDequeuePointerRegister {
    fn default() -> (r: Self)
        ensures
            r@ == 0,
    {
        Self(0)
    }
}

} // verus!
