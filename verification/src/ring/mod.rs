//! TRB Ring.
use crate::bits;
use vstd::prelude::*;

pub mod trb;

verus! {

/// The Event Ring Segment Table entry.
///
/// This plays the same role as an array pointer: it holds the address and the size of a segment
/// of the Event Ring.
#[derive(Clone, Copy, Debug)]
pub struct EventRingSegmentTableEntry([u32; 4]);

impl View for EventRingSegmentTableEntry {
    type V = Seq<u32>;

    closed spec fn view(&self) -> Seq<u32> {
        self.0@
    }
}

impl EventRingSegmentTableEntry {
    /// Creates a new segment table entry from the base address `base` of the segment and its
    /// entry count `len`. `len` should be the entry count, not the size in bytes.
    ///
    /// The size of the segment in bytes, `len * 16`, must fit in 16 bits, and `base` must be
    /// 64-byte aligned.
    pub fn new(base: u64, len: usize) -> (r: Self)
        requires
            len * trb::BYTES <= u16::MAX,
            base % 64 == 0,
        ensures
            r@ == seq![
                bits::with_high32(0, 6, bits::low32(base)),
                bits::high32(base),
                bits::with_field32(0, 0, 16, (len * trb::BYTES) as u32),
                0u32,
            ],
            bits::join64(bits::clear_low32(r@[0], 6), r@[1]) == base,
            bits::field32(r@[2], 0, 16) == len * trb::BYTES,
            bits::field32(r@[2], 0, 16) as int / trb::BYTES as int == len,
    {
        let size_in_bytes = len * trb::BYTES;

        let mut entry = Self([0; 4]);
        entry.set_ring_segment_base_address(base);
        entry.set_ring_segment_size(size_in_bytes as u16);
        proof {
            bits::lemma_mask32_values();
            bits::lemma_low32_aligned(base);
            bits::lemma_aligned32(bits::low32(base));
            bits::lemma_join64_with_high32(0, 6, base);
            bits::lemma_field32_with_field32_same(0, 0, 16, size_in_bytes as u32);
        }
        assert(entry@ =~= seq![
            bits::with_high32(0, 6, bits::low32(base)),
            bits::high32(base),
            bits::with_field32(0, 0, 16, (len * trb::BYTES) as u32),
            0u32,
        ]);
        entry
    }

    /// Wraps the four raw Dwords of an entry.
    pub fn from_raw(raw: [u32; 4]) -> (r: Self)
        ensures
            r@ == raw@,
    {
        Self(raw)
    }

    /// Returns the four raw Dwords of the entry.
    pub fn into_raw(self) -> (r: [u32; 4])
        ensures
            r@ == self@,
    {
        self.0
    }

    /// Returns the entry count of the segment.
    pub fn len(&self) -> (r: usize)
        ensures
            r == bits::field32(self@[2], 0, 16) as int / trb::BYTES as int,
    {
        return self.ring_segment_size() as usize / trb::BYTES;
    }

    /// Returns the value of the Ring Segment Base Address field.
    pub fn ring_segment_base_address(&self) -> (r: u64)
        ensures
            r == bits::join64(bits::clear_low32(self@[0], 6), self@[1]),
    {
        let lo = self.0[0] >> 6 << 6;
        let hi = self.0[1];

        bits::join_halves(lo, hi)
    }

    /// Sets the value of the Ring Segment Base Address field.
    ///
    /// The value must be 64-byte aligned.
    pub fn set_ring_segment_base_address(&mut self, value: u64) -> (r: &mut Self)
        requires
            value % 64 == 0,
        ensures
            (*r)@ == old(self)@.update(0, bits::with_high32(old(self)@[0], 6, bits::low32(value))).update(
                1,
                bits::high32(value),
            ),
            *final(self) == *final(r),
    {
        proof {
            bits::lemma_low32_aligned(value);
        }
        let lo = bits::low_half(value);
        let hi = bits::high_half(value);

        self.0[0] = bits::set_high_bits_u32(self.0[0], 6, lo);
        self.0[1] = hi;
        self
    }

    /// Returns the value of the Ring Segment Size (in bytes) field.
    pub fn ring_segment_size(&self) -> (r: u16)
        ensures
            r == bits::field32(self@[2], 0, 16),
    {
        proof {
            bits::lemma_mask32_values();
        }
        bits::get_bits_u32(self.0[2], 0, 16) as u16
    }

    /// Sets the value of the Ring Segment Size (in bytes) field.
    pub fn set_ring_segment_size(&mut self, value: u16) -> (r: &mut Self)
        ensures
            (*r)@ == old(self)@.update(2, bits::with_field32(old(self)@[2], 0, 16, value as u32)),
            *final(self) == *final(r),
    {
        proof {
            bits::lemma_mask32_values();
        }
        self.0[2] = bits::set_bits_u32(self.0[2], 0, 16, value as u32);
        self
    }

    /// Returns the value of the ring segment end address.
    ///
    /// The sum of the base address and the size must fit in 64 bits.
    pub fn ring_segment_bound_address(&self) -> (r: u64)
        requires
            bits::join64(bits::clear_low32(self@[0], 6), self@[1]) + bits::field32(self@[2], 0, 16)
                <= u64::MAX,
        ensures
            r == bits::join64(bits::clear_low32(self@[0], 6), self@[1]) + bits::field32(
                self@[2],
                0,
                16,
            ),
    {
        self.ring_segment_base_address() + (self.ring_segment_size() as u64)
    }
}

} // verus!
