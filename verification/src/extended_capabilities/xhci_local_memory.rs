//! xHCI Local Memory Capability.
use crate::bits;
use vstd::prelude::*;

verus! {

/// xHCI Local Memory Capability: the location of the Local Memory.
#[derive(Copy, Clone, Debug)]
pub struct XhciLocalMemory {
    memory: usize,
    len: usize,
}

impl XhciLocalMemory {
    /// The address of the Local Memory.
    pub closed spec fn spec_memory(&self) -> usize {
        self.memory
    }

    /// The size of the Local Memory in bytes.
    pub closed spec fn spec_len(&self) -> usize {
        self.len
    }

    /// Locates the Local Memory of the capability at `base`, whose header is `header`.
    ///
    /// This function returns `None` if the size of the Local Memory space is 0. The Local Memory
    /// follows the 8 bytes of the header, and the Size field counts it in KiB.
    pub fn new(base: usize, header: Header) -> (r: Option<Self>)
        requires
            base + 8 <= usize::MAX,
            header@[1] * 1024 <= usize::MAX,
        ensures
            r is None <==> header@[1] == 0,
            r matches Some(m) ==> m.spec_memory() == base + 8 && m.spec_len() == header@[1]
                * 1024,
    {
        let size = header.size();
        if size > 0 {
            Some(Self { memory: base + 8, len: size as usize * 1024 })
        } else {
            None
        }
    }

    /// Returns the address of the Local Memory.
    pub fn memory(&self) -> (r: usize)
        ensures
            r == self.spec_memory(),
    {
        self.memory
    }

    /// Returns the size of the Local Memory in bytes.
    pub fn len(&self) -> (r: usize)
        ensures
            r == self.spec_len(),
    {
        self.len
    }
}

/// The first 8 bytes of the Capability.
#[derive(Copy, Clone, Debug)]
pub struct Header([u32; 2]);

impl View for Header {
    type V = Seq<u32>;

    closed spec fn view(&self) -> Seq<u32> {
        self.0@
    }
}

impl Header {
    /// Wraps a raw value of the register.
    pub fn from_raw(raw: [u32; 2]) -> (r: Self)
        ensures
            r@ == raw@,
    {
        Self(raw)
    }

    /// Returns the raw value of the register.
    pub fn into_raw(self) -> (r: [u32; 2])
        ensures
            r@ == self@,
    {
        self.0
    }

    /// Returns the Local Memory Enable bit.
    pub fn local_memory_enable(self) -> (r: bool)
        ensures
            r == bits::bit32(self@[0], 16),
    {
        bits::get_bit_u32(self.0[0], 16)
    }

    /// Sets the Local Memory Enable bit.
    pub fn set_local_memory_enable(&mut self)
        ensures
            final(self)@ == old(self)@.update(0, bits::with_bit32(old(self)@[0], 16, true)),
    {
        self.0[0] = bits::set_bit_u32(self.0[0], 16, true);
    }

    /// Clears the Local Memory Enable bit.
    pub fn clear_local_memory_enable(&mut self)
        ensures
            final(self)@ == old(self)@.update(0, bits::with_bit32(old(self)@[0], 16, false)),
    {
        self.0[0] = bits::set_bit_u32(self.0[0], 16, false);
    }

    /// Returns the size of the Local Memory in KiB.
    fn size(self) -> (r: u32)
        ensures
            r == self@[1],
    {
        self.0[1]
    }
}

} // verus!
