use vstd::prelude::*;
use crate::bits::{add_wrapping, sub_wrapping, wrap};
use crate::psr::Psr;
use crate::regs::{Mode, RegFile};

verus! {

/// What a handler tells the dispatcher about the program counter.
#[derive(Clone, Copy, Debug, PartialEq, Eq, Structural)]
pub enum InstrStatus {
    /// The handler left the program counter alone: advance it past the instruction.
    InBlock,
    /// The handler set the program counter itself.
    Branched,
}

/// Mode field of the privileged mode the processor resets into.
pub const RESET_MODE: u32 = 0b10011;

/// The amount by which the program counter that instructions read runs ahead
/// of the address being fetched: 4 for the compressed set, 8 otherwise.
pub open spec fn pc_offset(cpsr: Psr) -> u32 {
    if cpsr.thumb_bit() == 1 {
        4
    } else {
        8
    }
}

/// The processor state: general registers with their banks, the current
/// status register, and the saved status registers of the five exception modes.
#[derive(Clone, Copy, Debug, PartialEq, Eq)]
pub struct Cpu {
    pub regs: RegFile,
    pub cpsr: Psr,
    pub spsr: [Psr; 5],
}

impl Cpu {
    /// Register `i` as the current mode sees it; register 15 is the program
    /// counter as instructions read it.
    pub open spec fn reg(&self, i: int) -> u32 {
        self.regs.reg(i)
    }

    /// The address the next instruction is fetched from.
    pub open spec fn fetch_address(&self) -> u32 {
        wrap(self.reg(15) - pc_offset(self.cpsr))
    }

    /// `self` is `o` with the program counter set for a branch to `addr`.
    pub open spec fn branched_from(&self, o: &Cpu, addr: u32) -> bool {
        &&& self.regs.mode == o.regs.mode
        &&& self.regs.banked == o.regs.banked
        &&& self.regs.visible@ == o.regs.visible@.update(15, wrap(addr + pc_offset(o.cpsr)))
        &&& self.cpsr == o.cpsr
        &&& self.spsr == o.spsr
    }

    /// All registers and status registers zero, with the supervisor bank visible.
    pub fn new() -> (r: Cpu)
        ensures
            r.cpsr.raw == 0,
            forall|i: int| 0 <= i < 5 ==> (#[trigger] r.spsr@[i]).raw == 0,
            r.regs.mode == Mode::Svc,
            forall|m: Mode, i: int| 0 <= i < 16 ==> #[trigger] r.regs.reg_in(m, i) == 0,
    {
        Cpu {
            regs: RegFile::new(Mode::Svc),
            cpsr: Psr::new(0),
            spsr: [Psr::new(0), Psr::new(0), Psr::new(0), Psr::new(0), Psr::new(0)],
        }
    }

    /// Enters supervisor mode on the primary instruction set with both
    /// interrupt lines masked, about to execute the instruction at `entry`.
    pub fn reset(&mut self, entry: u32)
        ensures
            final(self).cpsr.mode() == RESET_MODE,
            final(self).cpsr.thumb_bit() == 0,
            final(self).cpsr.disable_fiq_bit() == 1,
            final(self).cpsr.disable_irq_bit() == 1,
            final(self).cpsr.flags() == old(self).cpsr.flags(),
            final(self).cpsr.q_bit() == old(self).cpsr.q_bit(),
            final(self).spsr == old(self).spsr,
            final(self).regs.mode == Mode::Svc,
            final(self).reg(15) == wrap(entry + 8),
            final(self).fetch_address() == entry,
            forall|m: Mode, i: int| 0 <= i < 15 ==> #[trigger] final(self).regs.reg_in(m, i)
                == old(self).regs.reg_in(m, i),
    {
        self.cpsr.set_thumb_bit(0);
        self.cpsr.set_mode_and_masks(RESET_MODE, 1, 1);
        self.regs.swap(Mode::Svc);
        let pc = add_wrapping(entry, self.get_pc_offset());
        let ghost before = self.regs;
        self.regs.set(15, pc);
        assert forall|m: Mode, i: int| 0 <= i < 15 implies #[trigger] self.regs.reg_in(m, i)
            == before.reg_in(m, i) by {}
        assert(wrap(wrap(entry + 8) - 8) == entry);
    }

    /// The saved status register of the current mode, for an exception mode.
    pub fn get_current_spsr(&mut self) -> (r: &mut Psr)
        requires
            old(self).regs.mode.spec_spsr_index() is Some,
        ensures
            *r == old(self).spsr@[old(self).regs.mode.spec_spsr_index().unwrap() as int],
            final(self).spsr@ == old(self).spsr@.update(
                old(self).regs.mode.spec_spsr_index().unwrap() as int,
                *final(r),
            ),
            final(self).regs == old(self).regs,
            final(self).cpsr == old(self).cpsr,
    {
        let i = self.regs.mode.spsr_index().unwrap();
        &mut self.spsr[i]
    }

    /// Returns from an exception mode: the current status register becomes the
    /// saved status register of the mode being left, and the registers of the
    /// mode it names become visible.
    pub fn spsr_make_current(&mut self)
        requires
            old(self).regs.mode.spec_spsr_index() is Some,
            exists|m: Mode| m.spec_num() == old(self).spsr@[old(self).regs.mode.spec_spsr_index().unwrap() as int].mode(),
        ensures
            final(self).cpsr == old(self).spsr@[old(self).regs.mode.spec_spsr_index().unwrap() as int],
            final(self).regs.mode.spec_num() == final(self).cpsr.mode(),
            final(self).spsr == old(self).spsr,
            final(self).regs.same_as_except_mode(&old(self).regs),
    {
        let i = self.regs.mode.spsr_index().unwrap();
        self.cpsr = self.spsr[i];
        let mode = Mode::from_num(self.cpsr.mode_bits());
        match mode {
            Some(m) => {
                self.regs.swap(m);
            },
            None => {},
        }
    }

    pub fn get_pc_offset(&self) -> (r: u32)
        ensures
            r == pc_offset(self.cpsr),
    {
        if self.cpsr.get_thumb_bit() == 1 {
            4
        } else {
            8
        }
    }

    /// The address the next instruction is fetched from: the program counter
    /// less the pipeline offset.
    pub fn next_fetch_address(&self) -> (r: u32)
        ensures
            r == self.fetch_address(),
    {
        sub_wrapping(self.regs.get(15), self.get_pc_offset())
    }

    /// Sets the program counter so that the next instruction is fetched from
    /// `addr` in the instruction set that the status register selects.
    pub fn branch(&mut self, addr: u32)
        ensures
            final(self).branched_from(old(self), addr),
            final(self).fetch_address() == addr,
    {
        let pc = add_wrapping(addr, self.get_pc_offset());
        self.regs.set(15, pc);
        assert(wrap(wrap(addr + pc_offset(self.cpsr)) - pc_offset(self.cpsr)) == addr);
    }
}

} // verus!
