use vstd::prelude::*;

verus! {

/// A half-open range `[start, end)` of machine addresses.
#[derive(Clone, Copy, Debug, PartialEq, Eq, Structural)]
pub struct AddressRange {
    pub start: usize,
    pub end: usize,
}

impl AddressRange {
    /// The range is well formed: it does not end before it starts.
    pub open spec fn wf(&self) -> bool {
        self.start <= self.end
    }

    /// Number of bytes in the range.
    pub open spec fn len(&self) -> int {
        self.end - self.start
    }

    /// `a` lies inside the range.
    pub open spec fn contains(&self, a: int) -> bool {
        self.start <= a < self.end
    }
}

/// The section boundaries that the linker hands to the boot code.
#[derive(Clone, Copy, Debug, PartialEq, Eq, Structural)]
pub struct MemoryLayout {
    /// Executable code.
    pub text: AddressRange,
    /// Read-only data.
    pub rodata: AddressRange,
    /// Initialized data.
    pub data: AddressRange,
    /// Uninitialized data, which must read as zero before use.
    pub bss: AddressRange,
    /// The boot stack, from its bottom to its top.
    pub stack: AddressRange,
}

impl MemoryLayout {
    pub open spec fn wf(&self) -> bool {
        &&& self.text.wf()
        &&& self.rodata.wf()
        &&& self.data.wf()
        &&& self.bss.wf()
        &&& self.stack.wf()
    }
}

} // verus!
