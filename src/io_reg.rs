use vstd::prelude::*;

verus! {

/// A memory-mapped device register: a value and the mask of bits that a
/// guest write may change.
#[derive(Clone, Copy, Debug, PartialEq, Eq, Structural)]
pub struct IoReg {
    pub val: u32,
    pub write_bits: u32,
}

impl IoReg {
    pub fn new(val: u32, write_bits: u32) -> (r: IoReg)
        ensures
            r.val == val,
            r.write_bits == write_bits,
    {
        IoReg { val, write_bits }
    }

    /// A guest write: the bits under the write mask come from `new_val`, the
    /// others keep their value.
    pub fn set(&mut self, new_val: u32)
        ensures
            final(self).val == (old(self).val & !old(self).write_bits) | (new_val & old(self).write_bits),
            final(self).write_bits == old(self).write_bits,
    {
        self.val = self.val & !self.write_bits;
        self.val = self.val | (new_val & self.write_bits);
    }

    /// A write by the device itself, which ignores the write mask.
    pub fn set_unchecked(&mut self, new_val: u32)
        ensures
            final(self).val == new_val,
            final(self).write_bits == old(self).write_bits,
    {
        self.val = new_val;
    }

    pub fn get(&self) -> (r: u32)
        ensures
            r == self.val,
    {
        self.val
    }
}

} // verus!
