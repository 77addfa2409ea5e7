use vstd::prelude::*;

verus! {

/// Number of bytes in the address space.
pub const MEMORY_SIZE: usize = 65536;

/// The byte at `addr`, where addresses wrap around the 16-bit address space.
pub open spec fn byte_at(mem: Seq<u8>, addr: int) -> u8 {
    mem[addr % 0x10000]
}

/// `len` bytes of `mem` from `start` on, wrapping at the end of the space.
pub open spec fn slice_at(mem: Seq<u8>, start: int, len: nat) -> Seq<u8> {
    Seq::new(len, |i: int| byte_at(mem, start + i))
}

/// The full 64 KiB address space, byte-addressable.
pub struct Memory {
    bytes: Vec<u8>,
}

impl View for Memory {
    type V = Seq<u8>;

    closed spec fn view(&self) -> Seq<u8> {
        self.bytes@
    }
}

impl Memory {
    pub open spec fn wf(&self) -> bool {
        self@.len() == 0x10000
    }

    /// Zero-filled memory.
    pub fn new() -> (r: Memory)
        ensures
            r.wf(),
            forall|i: int| 0 <= i < 0x10000 ==> r@[i] == 0,
    {
        let mut bytes: Vec<u8> = Vec::new();
        let mut i: usize = 0;
        while i < MEMORY_SIZE
            invariant
                i <= MEMORY_SIZE,
                bytes@.len() == i,
                forall|j: int| 0 <= j < i ==> bytes@[j] == 0,
            decreases MEMORY_SIZE - i,
        {
            bytes.push(0);
            i = i + 1;
        }
        Memory { bytes }
    }

    /// The byte at `addr`.
    pub fn get_byte(&self, addr: u16) -> (r: u8)
        requires
            self.wf(),
        ensures
            r == self@[addr as int],
    {
        self.bytes[addr as usize]
    }

    /// Store `value` at `addr`.
    pub fn set_byte(&mut self, addr: u16, value: u8)
        requires
            old(self).wf(),
        ensures
            final(self)@ == old(self)@.update(addr as int, value),
            final(self).wf(),
    {
        self.bytes.set(addr as usize, value);
    }

    /// Copy `len` bytes from `start` on; addresses past the top wrap to zero.
    pub fn get_slice(&self, start: u16, len: u16) -> (r: Vec<u8>)
        requires
            self.wf(),
        ensures
            r@ == slice_at(self@, start as int, len as nat),
    {
        let mut out: Vec<u8> = Vec::new();
        let mut i: u16 = 0;
        while i < len
            invariant
                self.wf(),
                i <= len,
                out@.len() == i,
                forall|j: int| 0 <= j < i ==> out@[j] == byte_at(self@, start + j),
            decreases len - i,
        {
            let addr: u16 = start.wrapping_add(i);
            proof {
                assert(addr as int == (start + i) % 0x10000);
            }
            out.push(self.bytes[addr as usize]);
            i = i + 1;
        }
        assert(out@ =~= slice_at(self@, start as int, len as nat));
        out
    }
}

} // verus!
