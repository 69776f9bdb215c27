//! The memory that fills the whole 16-bit address space.
use vstd::prelude::*;

verus! {

/// The number of addressable bytes.
pub const MEM_SIZE: usize = 65536;

/// 64 KiB of memory, one byte per 16-bit address.
pub struct RAM {
    mem: Vec<u8>,
}

impl View for RAM {
    type V = Seq<u8>;

    closed spec fn view(&self) -> Seq<u8> {
        self.mem@
    }
}

impl RAM {
    /// Every address has a byte.
    pub open spec fn wf(&self) -> bool {
        self@.len() == MEM_SIZE
    }

    /// Zero-filled memory.
    pub fn new() -> (r: RAM)
        ensures
            r.wf(),
            forall|i: int| 0 <= i < MEM_SIZE ==> #[trigger] r@[i] == 0,
    {
        RAM { mem: vec![0u8; MEM_SIZE] }
    }

    pub fn read(&self, addr: u16) -> (r: u8)
        requires
            self.wf(),
        ensures
            r == self@[addr as int],
    {
        self.mem[addr as usize]
    }

    pub fn write(&mut self, addr: u16, data: u8)
        requires
            old(self).wf(),
        ensures
            final(self)@ == old(self)@.update(addr as int, data),
            final(self).wf(),
    {
        self.mem.set(addr as usize, data);
    }
}

} // verus!
