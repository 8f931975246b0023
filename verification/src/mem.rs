//! The flat 64 KiB address space of the 6502.

use vstd::prelude::*;

verus! {

/// The memory subsystem: a flat 64 KiB address space, addressed by `u16`.
#[derive(Clone, Debug)]
pub struct Mem {
    pub data: [u8; 65536],
}

impl View for Mem {
    type V = Seq<u8>;

    open spec fn view(&self) -> Seq<u8> {
        self.data@
    }
}

/// The contents of a freshly cleared memory: 64 KiB of zero bytes.
pub open spec fn zeroed_memory() -> Seq<u8> {
    Seq::new(65536, |i: int| 0u8)
}

impl Mem {
    /// Number of bytes in the address space: every `u16` address is valid.
    pub const MAX_MEM: usize = 65536;

    /// A memory whose every byte is zero.
    pub fn new() -> (m: Self)
        ensures
            m@ == zeroed_memory(),
    {
        let m = Mem { data: [0u8; 65536] };
        assert(m@ =~= zeroed_memory());
        m
    }

    /// Clears every byte of the memory to zero.
    pub fn initialise(&mut self)
        ensures
            final(self)@ == zeroed_memory(),
    {
        self.data = [0u8; 65536];
        assert(self@ =~= zeroed_memory());
    }

    /// The byte stored at `address`.
    pub(crate) fn read(&self, address: u16) -> (v: u8)
        ensures
            v == self@[address as int],
    {
        self.data[address as usize]
    }

    /// Stores `value` at `address`, leaving every other byte unchanged.
    pub(crate) fn write(&mut self, address: u16, value: u8)
        ensures
            final(self)@ == old(self)@.update(address as int, value),
    {
        self.data[address as usize] = value;
    }
}

impl Default for Mem {
    fn default() -> (m: Self)
        ensures
            m@ == zeroed_memory(),
    {
        Mem::new()
    }
}

impl std::ops::Index<u16> for Mem {
    type Output = u8;

    /// read 1 byte
    fn index(&self, address: u16) -> (byte: &u8)
        ensures
            *byte == self@[address as int],
    {
        &self.data[address as usize]
    }
}

impl std::ops::IndexMut<u16> for Mem {
    /// write 1 byte
    fn index_mut(&mut self, address: u16) -> (byte: &mut u8)
        ensures
            *byte == old(self)@[address as int],
            final(self)@ == old(self)@.update(address as int, *final(byte)),
    {
        &mut self.data[address as usize]
    }
}

} // verus!
