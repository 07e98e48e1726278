use vstd::prelude::*;

verus! {

/// A processor mode, as encoded in the mode field of a status register.
#[derive(Clone, Copy, Debug, PartialEq, Eq, Structural)]
pub enum Mode {
    Usr,
    Fiq,
    Irq,
    Svc,
    Abt,
    Und,
    Sys,
}

impl Mode {
    /// The 5-bit encoding of the mode.
    pub open spec fn spec_num(self) -> u32 {
        match self {
            Mode::Usr => 0b10000,
            Mode::Fiq => 0b10001,
            Mode::Irq => 0b10010,
            Mode::Svc => 0b10011,
            Mode::Abt => 0b10111,
            Mode::Und => 0b11011,
            Mode::Sys => 0b11111,
        }
    }

    pub fn num(self) -> (r: u32)
        ensures
            r == self.spec_num(),
    {
        match self {
            Mode::Usr => 0b10000,
            Mode::Fiq => 0b10001,
            Mode::Irq => 0b10010,
            Mode::Svc => 0b10011,
            Mode::Abt => 0b10111,
            Mode::Und => 0b11011,
            Mode::Sys => 0b11111,
        }
    }

    /// Decodes a mode field; `None` for a value that names no mode.
    pub fn from_num(n: u32) -> (r: Option<Mode>)
        ensures
            r matches Some(m) ==> m.spec_num() == n,
            r is None <==> (forall|m: Mode| #[trigger] m.spec_num() != n),
    {
        let r = match n {
            0b10000 => Some(Mode::Usr),
            0b10001 => Some(Mode::Fiq),
            0b10010 => Some(Mode::Irq),
            0b10011 => Some(Mode::Svc),
            0b10111 => Some(Mode::Abt),
            0b11011 => Some(Mode::Und),
            0b11111 => Some(Mode::Sys),
            _ => None,
        };
        proof {
            if r is None {
                assert forall|m: Mode| #[trigger] m.spec_num() != n by {
                    match m {
                        Mode::Usr => {},
                        Mode::Fiq => {},
                        Mode::Irq => {},
                        Mode::Svc => {},
                        Mode::Abt => {},
                        Mode::Und => {},
                        Mode::Sys => {},
                    }
                }
            }
        }
        r
    }

    /// Index of the mode's saved status register, for the five exception modes.
    pub open spec fn spec_spsr_index(self) -> Option<usize> {
        match self {
            Mode::Fiq => Some(0usize),
            Mode::Irq => Some(1usize),
            Mode::Svc => Some(2usize),
            Mode::Abt => Some(3usize),
            Mode::Und => Some(4usize),
            _ => None,
        }
    }

    pub fn spsr_index(self) -> (r: Option<usize>)
        ensures
            r == self.spec_spsr_index(),
    {
        match self {
            Mode::Fiq => Some(0),
            Mode::Irq => Some(1),
            Mode::Svc => Some(2),
            Mode::Abt => Some(3),
            Mode::Und => Some(4),
            _ => None,
        }
    }
}

/// Number of words that hold the banked copies of registers 8 to 14.
pub const BANKED_WORDS: usize = 22;

/// Where mode `m` keeps its copy of register `r` (8 <= r < 15) while another
/// mode's copy is visible. Two modes that share a register get the same slot:
/// registers 8 to 12 are shared by all modes but FIQ, and User and System
/// share every register.
pub open spec fn slot(m: Mode, r: int) -> int {
    match m {
        Mode::Fiq => r - 1,
        _ => if r < 13 {
            r - 8
        } else {
            match m {
                Mode::Irq => r + 1,
                Mode::Svc => r + 3,
                Mode::Abt => r + 5,
                Mode::Und => r + 7,
                _ => r - 8,
            }
        },
    }
}

proof fn lemma_slot_range(m: Mode, r: int)
    requires
        8 <= r < 15,
    ensures
        0 <= slot(m, r) < BANKED_WORDS,
{
}

/// A slot holds the copy of one register only.
proof fn lemma_slot_register(a: Mode, r: int, b: Mode, q: int)
    requires
        8 <= r < 15,
        8 <= q < 15,
        slot(a, r) == slot(b, q),
    ensures
        r == q,
{
}

fn slot_of(m: Mode, r: usize) -> (s: usize)
    requires
        8 <= r < 15,
    ensures
        s == slot(m, r as int),
        s < BANKED_WORDS,
{
    match m {
        Mode::Fiq => r - 1,
        _ => if r < 13 {
            r - 8
        } else {
            match m {
                Mode::Irq => r + 1,
                Mode::Svc => r + 3,
                Mode::Abt => r + 5,
                Mode::Und => r + 7,
                _ => r - 8,
            }
        },
    }
}

/// Whether modes `m` and `n` see the same physical register `i`.
pub open spec fn shares(m: Mode, n: Mode, i: int) -> bool {
    !(8 <= i < 15) || slot(m, i) == slot(n, i)
}

/// The general registers: the sixteen that the current mode sees, and the
/// banked copies of registers 8 to 14 that belong to the other modes.
#[derive(Clone, Copy, Debug, PartialEq, Eq)]
pub struct RegFile {
    /// Registers 0 to 15 as the mode `mode` sees them.
    pub visible: [u32; 16],
    /// The mode whose bank is visible.
    pub mode: Mode,
    /// Banked copies, placed by `slot`.
    pub banked: [u32; 22],
}

impl RegFile {
    /// Register `i` as mode `m` sees it.
    pub open spec fn reg_in(&self, m: Mode, i: int) -> u32 {
        if 8 <= i < 15 && slot(m, i) != slot(self.mode, i) {
            self.banked@[slot(m, i)]
        } else {
            self.visible@[i]
        }
    }

    /// Register `i` as the current mode sees it.
    pub open spec fn reg(&self, i: int) -> u32 {
        self.visible@[i]
    }

    /// The same registers in every mode, and the same visible mode.
    pub open spec fn same_as(&self, o: &RegFile) -> bool {
        &&& self.mode == o.mode
        &&& forall|m: Mode, i: int| 0 <= i < 16 ==> #[trigger] self.reg_in(m, i) == o.reg_in(m, i)
    }

    /// The same registers in every mode; the visible mode may differ.
    pub open spec fn same_as_except_mode(&self, o: &RegFile) -> bool {
        forall|m: Mode, i: int| 0 <= i < 16 ==> #[trigger] self.reg_in(m, i) == o.reg_in(m, i)
    }

    /// Every register zero, with the bank of `mode` visible.
    pub fn new(mode: Mode) -> (r: RegFile)
        ensures
            r.mode == mode,
            forall|m: Mode, i: int| 0 <= i < 16 ==> #[trigger] r.reg_in(m, i) == 0,
    {
        let r = RegFile { visible: [0u32; 16], mode, banked: [0u32; 22] };
        assert forall|m: Mode, i: int| 0 <= i < 16 implies #[trigger] r.reg_in(m, i) == 0 by {
            if 8 <= i < 15 {
                lemma_slot_range(m, i);
            }
        }
        r
    }

    pub fn get(&self, i: usize) -> (r: u32)
        requires
            i < 16,
        ensures
            r == self.reg(i as int),
    {
        self.visible[i]
    }

    /// Writes register `i` of the current mode; every other register of every
    /// mode keeps its value.
    pub fn set(&mut self, i: usize, v: u32)
        requires
            i < 16,
        ensures
            final(self).mode == old(self).mode,
            final(self).visible@ == old(self).visible@.update(i as int, v),
            final(self).banked == old(self).banked,
            forall|m: Mode, j: int| 0 <= j < 16 ==> #[trigger] final(self).reg_in(m, j) == if j == i
                && shares(m, old(self).mode, j) {
                v
            } else {
                old(self).reg_in(m, j)
            },
    {
        self.visible[i] = v;
    }

    /// Makes the registers of mode `m` visible and returns the mode whose
    /// registers were visible before. No register of any mode changes.
    pub fn swap(&mut self, m: Mode) -> (prev: Mode)
        ensures
            prev == old(self).mode,
            final(self).mode == m,
            forall|n: Mode, i: int| 0 <= i < 16 ==> #[trigger] final(self).reg_in(n, i) == old(self).reg_in(n, i),
    {
        let ghost start = *self;
        let prev = self.mode;
        let mut r: usize = 8;
        while r < 15
            invariant
                8 <= r <= 15,
                self.mode == prev,
                self.visible == start.visible,
                forall|q: int| 8 <= q < r ==> self.banked@[#[trigger] slot(prev, q)] == start.visible@[q],
                forall|j: int| 0 <= j < BANKED_WORDS && (forall|q: int| 8 <= q < r ==> #[trigger] slot(prev, q) != j)
                    ==> self.banked@[j] == start.banked@[j],
            decreases 15 - r,
        {
            let s = slot_of(prev, r);
            self.banked[s] = self.visible[r];
            proof {
                assert forall|q: int| 8 <= q < r implies self.banked@[#[trigger] slot(prev, q)] == start.visible@[q] by {
                    if slot(prev, q) == s {
                        lemma_slot_register(prev, q, prev, r as int);
                    }
                }
            }
            r = r + 1;
        }
        let ghost saved = self.banked;
        let mut r: usize = 8;
        while r < 15
            invariant
                8 <= r <= 15,
                self.mode == prev,
                self.banked == saved,
                forall|q: int| 8 <= q < r ==> self.visible@[q] == saved@[slot(m, q)],
                forall|q: int| 0 <= q < 16 && !(8 <= q < r) ==> self.visible@[q] == start.visible@[q],
            decreases 15 - r,
        {
            let s = slot_of(m, r);
            self.visible[r] = self.banked[s];
            r = r + 1;
        }
        self.mode = m;
        assert forall|n: Mode, i: int| 0 <= i < 16 implies #[trigger] self.reg_in(n, i) == start.reg_in(n, i) by {
            if 8 <= i < 15 {
                lemma_slot_range(n, i);
                lemma_slot_range(prev, i);
                if slot(n, i) == slot(prev, i) {
                    assert(saved@[slot(prev, i)] == start.visible@[i]);
                } else {
                    assert forall|q: int| 8 <= q < 15 implies #[trigger] slot(prev, q) != slot(n, i) by {
                        if slot(prev, q) == slot(n, i) {
                            lemma_slot_register(prev, q, n, i);
                        }
                    }
                }
            }
        }
        prev
    }
}

} // verus!
