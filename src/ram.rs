use vstd::prelude::*;
use std::collections::HashMap;

verus! {

broadcast use vstd::std_specs::hash::group_hash_axioms;

/// The word that memory `m` holds at address `a`; a word never written reads 0.
pub open spec fn word_at(m: Map<u32, u32>, a: u32) -> u32 {
    if m.contains_key(a) {
        m[a]
    } else {
        0
    }
}

/// A flat 32-bit address space of words, for the data accesses of block
/// transfers: each address names the word stored at it, and a transfer
/// steps from one word to the next by 4.
#[derive(Debug)]
pub struct Ram {
    pub cells: HashMap<u32, u32>,
}

impl View for Ram {
    type V = Map<u32, u32>;

    open spec fn view(&self) -> Map<u32, u32> {
        self.cells@
    }
}

impl Ram {
    pub fn new() -> (r: Ram)
        ensures
            r@ == Map::<u32, u32>::empty(),
    {
        Ram { cells: HashMap::new() }
    }

    pub fn read(&self, addr: u32) -> (r: u32)
        ensures
            r == word_at(self@, addr),
    {
        match self.cells.get(&addr) {
            Some(v) => *v,
            None => 0,
        }
    }

    pub fn write(&mut self, addr: u32, val: u32)
        ensures
            final(self)@ == old(self)@.insert(addr, val),
    {
        self.cells.insert(addr, val);
    }
}

} // verus!
