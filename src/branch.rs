use vstd::prelude::*;
use vstd::arithmetic::power2::lemma2_to64;
use crate::bits::{add_signed_wrapping, add_wrapping, signed_value, sign_extend, sub_wrapping, wrap};
use crate::cpu::{pc_offset, Cpu, InstrStatus};
use crate::decoder::{CondBranch, LongBranch, RegBranch};
use crate::psr::{cond_passed, passes};

verus! {

/// The link value a compressed-set call leaves: the address of the next
/// instruction with the low bit set, so that the return selects the
/// compressed set again.
pub open spec fn thumb_return_link(pc: u32) -> u32 {
    wrap(pc - 2) | 1u32
}

/// `n` is `o` with registers 14 and 15 set to `lr` and `pc`, nothing else changed
/// but the instruction-set select bit.
pub open spec fn linked_from(n: &Cpu, o: &Cpu, lr: u32, pc: u32) -> bool {
    &&& n.regs.mode == o.regs.mode
    &&& n.regs.banked == o.regs.banked
    &&& n.regs.visible@ == o.regs.visible@.update(14, lr).update(15, pc)
    &&& n.cpsr.same_but_thumb(o.cpsr)
    &&& n.spsr == o.spsr
}

/// The effect of `b_1`: from `o` to `n`, with status `r`.
pub open spec fn b_1_effect(o: Cpu, n: Cpu, data: CondBranch, r: InstrStatus) -> bool {
    &&& !passes(data.spec_cond(), o.cpsr) ==> r == InstrStatus::InBlock && n == o
    &&& passes(data.spec_cond(), o.cpsr) ==> r == InstrStatus::Branched && n.branched_from(
        &o,
        wrap(o.reg(15) + 2 * signed_value(data.spec_signed_imm_8(), 8)),
    )
}

/// Conditional relative branch of the compressed set.
pub fn b_1(cpu: &mut Cpu, data: CondBranch) -> (r: InstrStatus)
    ensures
        b_1_effect(*old(cpu), *final(cpu), data, r),
{
    let offset_8 = data.signed_imm_8();
    let cond = data.cond();

    if !cond_passed(cond, &cpu.cpsr) {
        return InstrStatus::InBlock;
    }

    let offset = sign_extend(offset_8, 8);
    proof {
        lemma2_to64();
    }
    let addr = add_signed_wrapping(cpu.regs.get(15), offset * 2);
    cpu.branch(addr);
    InstrStatus::Branched
}

/// The effect of `branch`: from `o` to `n`, with status `r`.
pub open spec fn branch_effect(o: Cpu, n: Cpu, data: LongBranch, r: InstrStatus) -> bool {
    ({
        let off = data.spec_offset_11();
        let pc = o.reg(15);
        let lr = o.reg(14);
        let h = data.spec_h_bits();
        &&& h == 0 ==> r == InstrStatus::Branched && n.branched_from(&o, wrap(pc + 2 * signed_value(off, 11)))
        &&& h == 1 ==> r == InstrStatus::Branched && n.cpsr.thumb_bit() == 0 && linked_from(
            &n,
            &o,
            thumb_return_link(pc),
            wrap((wrap(lr + 2 * off) & 0xFFFF_FFFCu32) + 8),
        ) && n.fetch_address() == wrap(lr + 2 * off) & 0xFFFF_FFFCu32
        &&& h == 2 ==> r == InstrStatus::InBlock && n.cpsr == o.cpsr && linked_from(
            &n,
            &o,
            wrap(pc + signed_value(off, 11) * 0x1000),
            pc,
        )
        &&& h == 3 ==> r == InstrStatus::Branched && n.cpsr == o.cpsr && linked_from(
            &n,
            &o,
            thumb_return_link(pc),
            wrap(wrap(lr + 2 * off) + pc_offset(o.cpsr)),
        ) && n.fetch_address() == wrap(lr + 2 * off)
    })
}

/// Unconditional branch and the two halves of a long branch-with-link of the
/// compressed set, chosen by the kind field:
/// - 0: branch relative to the program counter;
/// - 2: first half of a call: stage the high part of the offset in the link register;
/// - 3: second half: add the low part to the staged value, link, and branch;
/// - 1: as 3, but the target is word-aligned and runs in the primary set.
pub fn branch(cpu: &mut Cpu, data: LongBranch) -> (r: InstrStatus)
    ensures
        branch_effect(*old(cpu), *final(cpu), data, r),
{
    let offset_11 = data.offset_11();
    let pc = cpu.regs.get(15);
    let h = data.h_bits();
    proof {
        lemma2_to64();
    }
    if h == 0 {
        let offset = sign_extend(offset_11, 11);
        let addr = add_signed_wrapping(pc, offset * 2);
        cpu.branch(addr);
        InstrStatus::Branched
    } else if h == 1 {
        let addr = add_wrapping(cpu.regs.get(14), offset_11 * 2) & 0xFFFF_FFFC;
        cpu.regs.set(14, sub_wrapping(pc, 2) | 1);
        cpu.cpsr.set_thumb_bit(0);
        cpu.branch(addr);
        InstrStatus::Branched
    } else if h == 2 {
        let offset = sign_extend(offset_11, 11);
        cpu.regs.set(14, add_signed_wrapping(pc, offset * 0x1000));
        assert(cpu.regs.visible@ =~= old(cpu).regs.visible@.update(14, cpu.reg(14)).update(15, pc));
        InstrStatus::InBlock
    } else {
        let addr = add_wrapping(cpu.regs.get(14), offset_11 * 2);
        cpu.regs.set(14, sub_wrapping(pc, 2) | 1);
        cpu.branch(addr);
        InstrStatus::Branched
    }
}

/// The effect of `blx_2`: from `o` to `n`, with status `r`.
pub open spec fn blx_2_effect(o: Cpu, n: Cpu, data: RegBranch, r: InstrStatus) -> bool {
    ({
        let addr = o.reg(data.spec_target_reg() as int);
        &&& r == InstrStatus::Branched
        &&& n.cpsr.thumb_bit() == addr & 1u32
        &&& n.fetch_address() == addr & 0xFFFF_FFFEu32
        &&& linked_from(&n, &o, thumb_return_link(o.reg(15)), wrap((addr & 0xFFFF_FFFEu32) + pc_offset(n.cpsr)))
    })
}

/// Branch with link and exchange, register form: the target register's low
/// bit selects the instruction set, the target with that bit cleared is the
/// next fetch address, and the link register gets the compressed-set return.
pub fn blx_2(cpu: &mut Cpu, data: RegBranch) -> (r: InstrStatus)
    ensures
        blx_2_effect(*old(cpu), *final(cpu), data, r),
{
    let rm = data.target_reg();
    let addr = cpu.regs.get(rm as usize);
    let pc = cpu.regs.get(15);

    cpu.regs.set(14, sub_wrapping(pc, 2) | 1);
    let t = addr & 1;
    assert(t <= 1) by (bit_vector)
        requires
            t == addr & 1u32,
    ;
    cpu.cpsr.set_thumb_bit(t);

    cpu.branch(addr & 0xFFFF_FFFE);
    InstrStatus::Branched
}

/// The effect of `bx`: from `o` to `n`, with status `r`.
pub open spec fn bx_effect(o: Cpu, n: Cpu, data: RegBranch, r: InstrStatus) -> bool {
    ({
        let addr = o.reg(data.spec_target_reg() as int);
        &&& r == InstrStatus::Branched
        &&& n.cpsr.thumb_bit() == addr & 1u32
        &&& n.fetch_address() == addr & 0xFFFF_FFFEu32
        &&& linked_from(&n, &o, o.reg(14), wrap((addr & 0xFFFF_FFFEu32) + pc_offset(n.cpsr)))
    })
}

/// Branch and exchange: as `blx_2` without the link.
pub fn bx(cpu: &mut Cpu, data: RegBranch) -> (r: InstrStatus)
    ensures
        bx_effect(*old(cpu), *final(cpu), data, r),
{
    let addr = cpu.regs.get(data.target_reg() as usize);
    let t = addr & 1;
    assert(t <= 1) by (bit_vector)
        requires
            t == addr & 1u32,
    ;
    cpu.cpsr.set_thumb_bit(t);
    cpu.branch(addr & 0xFFFF_FFFE);
    assert(cpu.regs.visible@ =~= old(cpu).regs.visible@.update(14, old(cpu).reg(14)).update(
        15,
        cpu.reg(15),
    ));
    InstrStatus::Branched
}

} // verus!
