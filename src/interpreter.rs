use vstd::prelude::*;
use crate::bits::{add_wrapping, wrap};
use crate::branch::{b_1, b_1_effect, blx_2, blx_2_effect, branch, branch_effect, bx, bx_effect};
use crate::cpu::{Cpu, InstrStatus};
use crate::decoder::{ArmInstruction, ThumbInstruction};
use crate::load_store_multiple::{
    can_return, ldm_1, ldm_1_effect, ldm_2, ldm_2_effect, ldm_3, ldm_3_effect, stm_1,
    stm_1_effect, stm_2, stm_2_effect,
};
use crate::psr::passes;
use crate::ram::Ram;

verus! {

/// `n` is `mid` after the dispatcher's program-counter rule for an
/// instruction `width` bytes wide that ended with status `r`: advanced past
/// the instruction when it continued in sequence, untouched when it branched.
pub open spec fn advanced(mid: Cpu, n: Cpu, r: InstrStatus, width: u32) -> bool {
    match r {
        InstrStatus::Branched => n == mid,
        InstrStatus::InBlock => {
            &&& n.regs.mode == mid.regs.mode
            &&& n.regs.banked == mid.regs.banked
            &&& n.regs.visible@ == mid.regs.visible@.update(15, wrap(mid.reg(15) + width))
            &&& n.cpsr == mid.cpsr
            &&& n.spsr == mid.spsr
        },
    }
}

/// The handler of `instr` takes `o` to `mid` with status `r`.
pub open spec fn thumb_effect(o: Cpu, mid: Cpu, instr: ThumbInstruction, r: InstrStatus) -> bool {
    match instr {
        ThumbInstruction::b_1(d) => b_1_effect(o, mid, d, r),
        ThumbInstruction::branch(d) => branch_effect(o, mid, d, r),
        ThumbInstruction::blx_2(d) => blx_2_effect(o, mid, d, r),
        ThumbInstruction::bx(d) => bx_effect(o, mid, d, r),
    }
}

/// One step of the compressed set: `n` follows from `o` through the handler
/// of `instr` (to `mid`, with status `r`) and the program-counter rule.
pub open spec fn thumb_step(o: Cpu, mid: Cpu, r: InstrStatus, n: Cpu, instr: ThumbInstruction) -> bool {
    thumb_effect(o, mid, instr, r) && advanced(mid, n, r, 2)
}

/// The handler of `instr` takes `o` to `mid` and memory `m0` to `m1`, with status `r`.
pub open spec fn arm_effect(
    o: Cpu,
    mid: Cpu,
    m0: Map<u32, u32>,
    m1: Map<u32, u32>,
    instr: ArmInstruction,
    r: InstrStatus,
) -> bool {
    match instr {
        ArmInstruction::ldm_1(d) => ldm_1_effect(o, mid, m0, d, r) && m1 == m0,
        ArmInstruction::ldm_2(d) => ldm_2_effect(o, mid, m0, d, r) && m1 == m0,
        ArmInstruction::ldm_3(d) => ldm_3_effect(o, mid, m0, d, r) && m1 == m0,
        ArmInstruction::stm_1(d) => stm_1_effect(o, mid, m0, m1, d, r),
        ArmInstruction::stm_2(d) => stm_2_effect(o, mid, m0, m1, d, r),
    }
}

/// One step of the primary set: `n` and `m1` follow from `o` and `m0` through
/// the handler of `instr` (to `mid`, with status `r`) and the program-counter rule.
pub open spec fn arm_step(
    o: Cpu,
    mid: Cpu,
    r: InstrStatus,
    n: Cpu,
    m0: Map<u32, u32>,
    m1: Map<u32, u32>,
    instr: ArmInstruction,
) -> bool {
    arm_effect(o, mid, m0, m1, instr, r) && advanced(mid, n, r, 4)
}

/// Advances the program counter past an instruction `width` bytes wide when
/// the handler continued in sequence.
fn finish(cpu: &mut Cpu, status: InstrStatus, width: u32)
    ensures
        advanced(*old(cpu), *final(cpu), status, width),
{
    match status {
        InstrStatus::InBlock => {
            let pc = add_wrapping(cpu.regs.get(15), width);
            cpu.regs.set(15, pc);
        },
        InstrStatus::Branched => {},
    }
}

/// Executes one decoded instruction of the compressed set.
pub fn interpret_thumb(cpu: &mut Cpu, instr: ThumbInstruction)
    ensures
        exists|mid: Cpu, r: InstrStatus| #[trigger] thumb_step(*old(cpu), mid, r, *final(cpu), instr),
{
    let status = match instr {
        ThumbInstruction::b_1(data) => b_1(cpu, data),
        ThumbInstruction::branch(data) => branch(cpu, data),
        ThumbInstruction::blx_2(data) => blx_2(cpu, data),
        ThumbInstruction::bx(data) => bx(cpu, data),
    };
    let ghost mid = *cpu;
    finish(cpu, status, 2);
    assert(thumb_step(*old(cpu), mid, status, *cpu, instr));
}

/// Executes one decoded instruction of the primary set against memory `mem`.
pub fn interpret_arm(cpu: &mut Cpu, mem: &mut Ram, instr: ArmInstruction)
    requires
        instr matches ArmInstruction::ldm_3(d) && passes(d.spec_cond(), old(cpu).cpsr) ==> can_return(old(cpu)),
    ensures
        exists|mid: Cpu, r: InstrStatus| #[trigger] arm_step(
            *old(cpu),
            mid,
            r,
            *final(cpu),
            old(mem)@,
            final(mem)@,
            instr,
        ),
{
    let status = match instr {
        ArmInstruction::ldm_1(data) => ldm_1(cpu, mem, data),
        ArmInstruction::ldm_2(data) => ldm_2(cpu, mem, data),
        ArmInstruction::ldm_3(data) => ldm_3(cpu, mem, data),
        ArmInstruction::stm_1(data) => stm_1(cpu, mem, data),
        ArmInstruction::stm_2(data) => stm_2(cpu, mem, data),
    };
    let ghost mid = *cpu;
    finish(cpu, status, 4);
    assert(arm_step(*old(cpu), mid, status, *cpu, old(mem)@, mem@, instr));
}

} // verus!
