use vstd::prelude::*;

use crate::layout::AddressRange;

verus! {

/// A window of byte-addressable physical memory: `bytes[i]` is the byte at
/// address `base + i`.
pub struct Memory {
    pub base: usize,
    pub bytes: Vec<u8>,
}

impl Memory {
    /// Every address of the window, and the address one past its end, fit in
    /// a machine word.
    pub open spec fn wf(&self) -> bool {
        self.base + self.bytes@.len() <= usize::MAX
    }

    /// The address one past the last byte of the window.
    pub open spec fn end(&self) -> int {
        self.base + self.bytes@.len()
    }

    /// `a` is an address inside the window.
    pub open spec fn holds(&self, a: int) -> bool {
        self.base <= a < self.end()
    }

    /// The byte stored at address `a`.
    pub open spec fn byte_at(&self, a: int) -> u8 {
        self.bytes@[a - self.base]
    }

    /// Every address of `r` lies inside the window.
    pub open spec fn covers(&self, r: AddressRange) -> bool {
        &&& r.wf()
        &&& self.base <= r.start
        &&& r.end <= self.end()
    }

    /// Reads the byte at address `addr`.
    pub fn read(&self, addr: usize) -> (b: u8)
        requires
            self.holds(addr as int),
        ensures
            b == self.byte_at(addr as int),
    {
        self.bytes[addr - self.base]
    }

    /// Writes `value` at address `addr`, leaving every other byte alone.
    pub fn write(&mut self, addr: usize, value: u8)
        requires
            old(self).holds(addr as int),
        ensures
            final(self).base == old(self).base,
            final(self).bytes@ == old(self).bytes@.update(addr - old(self).base, value),
            forall|a: int|
                old(self).holds(a) ==> #[trigger] final(self).byte_at(a) == if a == addr {
                    value
                } else {
                    old(self).byte_at(a)
                },
    {
        let i = addr - self.base;
        self.bytes.set(i, value);
    }
}

/// Writes zero to every byte of the uninitialized-data range `bss`, once
/// each, and touches nothing else. Returns the number of bytes written.
pub fn clear_bss(mem: &mut Memory, bss: AddressRange) -> (writes: usize)
    requires
        old(mem).wf(),
        old(mem).covers(bss),
    ensures
        final(mem).base == old(mem).base,
        final(mem).bytes@.len() == old(mem).bytes@.len(),
        forall|a: int| bss.contains(a) ==> #[trigger] final(mem).byte_at(a) == 0,
        forall|a: int|
            old(mem).holds(a) && !bss.contains(a) ==> #[trigger] final(mem).byte_at(a)
                == old(mem).byte_at(a),
        writes == bss.len(),
{
    let mut a: usize = bss.start;
    let mut writes: usize = 0;
    while a < bss.end
        invariant
            bss.start <= a <= bss.end,
            mem.base == old(mem).base,
            mem.bytes@.len() == old(mem).bytes@.len(),
            old(mem).covers(bss),
            forall|x: int| bss.start <= x < a ==> #[trigger] mem.byte_at(x) == 0,
            forall|x: int|
                old(mem).holds(x) && !(bss.start <= x < a) ==> #[trigger] mem.byte_at(x)
                    == old(mem).byte_at(x),
            writes == a - bss.start,
        decreases bss.end - a,
    {
        mem.write(a, 0);
        a = a + 1;
        writes = writes + 1;
    }
    writes
}

} // verus!
