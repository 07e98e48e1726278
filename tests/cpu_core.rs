use libllama::bits::{add_wrapping, sign_extend, sub_wrapping};
use libllama::branch::{b_1, blx_2, branch, bx};
use libllama::cpu::{Cpu, InstrStatus};
use libllama::decoder::{ArmInstruction, BlockTransfer, CondBranch, LongBranch, RegBranch, ThumbInstruction};
use libllama::interpreter::{interpret_arm, interpret_thumb};
use libllama::io_reg::IoReg;
use libllama::load_store_multiple::{
    count_registers, decode_addressing_mode, ldm_1, ldm_2, ldm_3, resolve_addressing, stm_1, stm_2,
};
use libllama::psr::{cond_passed, Psr};
use libllama::ram::Ram;
use libllama::regs::{Mode, RegFile};

const N: u32 = 1 << 31;
const Z: u32 = 1 << 30;
const C: u32 = 1 << 29;
const V: u32 = 1 << 28;

fn thumb_cpu(pc_view: u32) -> Cpu {
    let mut cpu = Cpu::new();
    cpu.cpsr.set_thumb_bit(1);
    cpu.regs.set(15, pc_view);
    cpu
}

#[test]
fn addressing_table() {
    assert_eq!(resolve_addressing(0x1000, 3, false, true), (0x1000, 0x100C));
    assert_eq!(resolve_addressing(0x1000, 3, true, true), (0x1004, 0x100C));
    assert_eq!(resolve_addressing(0x1000, 3, false, false), (0x0FF8, 0x0FF4));
    assert_eq!(resolve_addressing(0x1000, 3, true, false), (0x0FF4, 0x0FF4));
}

#[test]
fn addressing_wraps_around() {
    assert_eq!(resolve_addressing(0, 1, true, false), (0xFFFF_FFFC, 0xFFFF_FFFC));
    assert_eq!(resolve_addressing(0xFFFF_FFFC, 2, true, true), (0, 4));
    assert_eq!(resolve_addressing(0x40, 16, false, true), (0x40, 0x80));
}

#[test]
fn addressing_from_encoding() {
    let mut cpu = Cpu::new();
    cpu.regs.set(13, 0x2000);
    // STMDB sp!, {r0-r3}
    assert_eq!(decode_addressing_mode(0xE92D_000F, &cpu), (0x1FF0, 0x1FF0));
    // LDMIA sp, {r0, r4, r15}
    assert_eq!(decode_addressing_mode(0xE89D_8011, &cpu), (0x2000, 0x200C));
}

#[test]
fn register_count() {
    assert_eq!(count_registers(0), 0);
    assert_eq!(count_registers(0xFFFF), 16);
    assert_eq!(count_registers(0x8001), 2);
}

#[test]
fn condition_table_n1_z0_c1_v0() {
    let psr = Psr::new(N | C);
    let expected = [
        false, true, true, false, true, false, false, true, true, false, false, true, false, true, true, true,
    ];
    for cond in 0..16u32 {
        assert_eq!(cond_passed(cond, &psr), expected[cond as usize], "code {:X}", cond);
    }
}

#[test]
fn condition_table_z1_v1() {
    let psr = Psr::new(Z | V);
    let expected = [
        true, false, false, true, false, true, true, false, false, true, false, true, false, true, true, true,
    ];
    for cond in 0..16u32 {
        assert_eq!(cond_passed(cond, &psr), expected[cond as usize], "code {:X}", cond);
    }
}

#[test]
fn always_codes_hold_under_any_flags() {
    for flags in 0..16u32 {
        let psr = Psr::new(flags << 28);
        assert!(cond_passed(0xE, &psr));
        assert!(cond_passed(0xF, &psr));
        let n = (flags >> 3) & 1;
        let v = flags & 1;
        assert_eq!(cond_passed(0xA, &psr), n == v);
    }
}

#[test]
fn skipped_block_transfers_change_nothing() {
    let mut cpu = Cpu::new();
    cpu.regs.set(0, 0x100);
    cpu.regs.set(1, 0x11);
    cpu.regs.set(13, 0x2000);
    let mut mem = Ram::new();
    mem.write(0x100, 0xAAAA);
    mem.write(0x104, 0xBBBB);
    mem.write(0x108, 0x5001);
    // Z is clear, so EQ fails.
    let encodings = [0x08B0_8003u32, 0x08D0_0002, 0x08F0_8002, 0x08A0_0003, 0x08C0_2000];
    for (k, raw) in encodings.iter().enumerate() {
        let data = BlockTransfer::new(*raw);
        let before = cpu;
        let mem_before = mem.cells.clone();
        let status = match k {
            0 => ldm_1(&mut cpu, &mem, data),
            1 => ldm_2(&mut cpu, &mem, data),
            2 => ldm_3(&mut cpu, &mem, data),
            3 => stm_1(&mut cpu, &mut mem, data),
            _ => stm_2(&mut cpu, &mut mem, data),
        };
        assert_eq!(status, InstrStatus::InBlock);
        assert_eq!(cpu, before);
        assert_eq!(mem.cells, mem_before);
    }
}

#[test]
fn condition_true_and_false_from_same_state() {
    let mut mem = Ram::new();
    mem.write(0x100, 0xAAAA);
    let mut start = Cpu::new();
    start.regs.set(0, 0x100);
    let mut taken = start;
    let mut skipped = start;
    // LDMNE r0, {r1} and LDMEQ r0, {r1}, with Z clear
    assert_eq!(ldm_1(&mut taken, &mem, BlockTransfer::new(0x1890_0002)), InstrStatus::InBlock);
    assert_eq!(ldm_1(&mut skipped, &mem, BlockTransfer::new(0x0890_0002)), InstrStatus::InBlock);
    assert_eq!(taken.regs.get(1), 0xAAAA);
    assert_eq!(skipped, start);
}

#[test]
fn skipped_conditional_branch_changes_nothing() {
    let mut cpu = thumb_cpu(0x1004);
    let before = cpu;
    // BEQ with Z clear
    assert_eq!(b_1(&mut cpu, CondBranch::new(0xD0FE)), InstrStatus::InBlock);
    assert_eq!(cpu, before);
}

#[test]
fn loaded_base_wins_over_writeback() {
    let mut cpu = Cpu::new();
    cpu.regs.set(0, 0x100);
    let mut mem = Ram::new();
    mem.write(0x100, 0xAAAA);
    mem.write(0x104, 0xBBBB);
    // LDMIA r0!, {r0, r1}
    assert_eq!(ldm_1(&mut cpu, &mem, BlockTransfer::new(0xE8B0_0003)), InstrStatus::InBlock);
    assert_eq!(cpu.regs.get(0), 0xAAAA);
    assert_eq!(cpu.regs.get(1), 0xBBBB);
}

#[test]
fn writeback_of_unlisted_base() {
    let mut cpu = Cpu::new();
    cpu.regs.set(2, 0x100);
    let mut mem = Ram::new();
    mem.write(0x100, 0xAAAA);
    mem.write(0x104, 0xBBBB);
    // LDMIA r2!, {r0, r1}
    assert_eq!(ldm_1(&mut cpu, &mem, BlockTransfer::new(0xE8B2_0003)), InstrStatus::InBlock);
    assert_eq!(cpu.regs.get(0), 0xAAAA);
    assert_eq!(cpu.regs.get(1), 0xBBBB);
    assert_eq!(cpu.regs.get(2), 0x108);
}

#[test]
fn load_of_pc_branches_and_selects_set() {
    let mut cpu = Cpu::new();
    cpu.regs.set(0, 0x100);
    let mut mem = Ram::new();
    mem.write(0x100, 0x77);
    mem.write(0x104, 0x5001);
    // LDMIA r0, {r3, pc}
    assert_eq!(ldm_1(&mut cpu, &mem, BlockTransfer::new(0xE890_8008)), InstrStatus::Branched);
    assert_eq!(cpu.regs.get(3), 0x77);
    assert_eq!(cpu.cpsr.get_thumb_bit(), 1);
    assert_eq!(cpu.next_fetch_address(), 0x5000);
    assert_eq!(cpu.regs.get(15), 0x5004);
}

#[test]
fn store_multiple_descending_with_writeback() {
    let mut cpu = Cpu::new();
    cpu.regs.set(13, 0x2000);
    cpu.regs.set(0, 1);
    cpu.regs.set(1, 2);
    cpu.regs.set(14, 3);
    let mut mem = Ram::new();
    // STMDB sp!, {r0, r1, lr}
    assert_eq!(stm_1(&mut cpu, &mut mem, BlockTransfer::new(0xE92D_4003)), InstrStatus::InBlock);
    assert_eq!(mem.read(0x1FF4), 1);
    assert_eq!(mem.read(0x1FF8), 2);
    assert_eq!(mem.read(0x1FFC), 3);
    assert_eq!(mem.read(0x2000), 0);
    assert_eq!(cpu.regs.get(13), 0x1FF4);
}

#[test]
fn store_multiple_includes_pc() {
    let mut cpu = Cpu::new();
    cpu.regs.set(0, 0x300);
    cpu.regs.set(15, 0x8008);
    let mut mem = Ram::new();
    // STMIA r0, {pc}
    assert_eq!(stm_1(&mut cpu, &mut mem, BlockTransfer::new(0xE880_8000)), InstrStatus::InBlock);
    assert_eq!(mem.read(0x300), 0x8008);
    assert_eq!(cpu.regs.get(0), 0x300);
}

#[test]
fn user_bank_store_writes_user_stack_pointer() {
    let mut cpu = Cpu::new();
    assert_eq!(cpu.regs.mode, Mode::Svc);
    cpu.regs.set(13, 0x5000);
    assert_eq!(cpu.regs.swap(Mode::Usr), Mode::Svc);
    cpu.regs.set(13, 0x7000);
    assert_eq!(cpu.regs.swap(Mode::Svc), Mode::Usr);
    cpu.regs.set(0, 0x100);
    let mut mem = Ram::new();
    // STMIA r0, {sp}^
    assert_eq!(stm_2(&mut cpu, &mut mem, BlockTransfer::new(0xE8C0_2000)), InstrStatus::InBlock);
    assert_eq!(mem.read(0x100), 0x7000);
    assert_eq!(cpu.regs.mode, Mode::Svc);
    assert_eq!(cpu.regs.get(13), 0x5000);
    cpu.regs.swap(Mode::Usr);
    assert_eq!(cpu.regs.get(13), 0x7000);
}

#[test]
fn user_bank_load_fills_user_registers() {
    let mut cpu = Cpu::new();
    cpu.regs.set(13, 0x5000);
    cpu.regs.set(0, 0x100);
    let mut mem = Ram::new();
    mem.write(0x100, 0x1111);
    mem.write(0x104, 0x9999);
    mem.write(0x108, 0x4444);
    // LDMIA r0, {r2, sp, lr}^
    assert_eq!(ldm_2(&mut cpu, &mem, BlockTransfer::new(0xE8D0_6004)), InstrStatus::InBlock);
    assert_eq!(cpu.regs.mode, Mode::Svc);
    assert_eq!(cpu.regs.get(2), 0x1111);
    assert_eq!(cpu.regs.get(13), 0x5000);
    assert_eq!(cpu.regs.get(14), 0);
    cpu.regs.swap(Mode::Usr);
    assert_eq!(cpu.regs.get(13), 0x9999);
    assert_eq!(cpu.regs.get(14), 0x4444);
}

#[test]
fn exception_return_restores_status() {
    let mut cpu = Cpu::new();
    cpu.reset(0);
    cpu.regs.set(0, 0x100);
    cpu.regs.set(13, 0x5000);
    *cpu.get_current_spsr() = Psr::new(0x6000_0010);
    let mut mem = Ram::new();
    mem.write(0x100, 7);
    mem.write(0x104, 0x6000);
    // LDMIA r0, {r1, pc}^
    assert_eq!(ldm_3(&mut cpu, &mem, BlockTransfer::new(0xE8D0_8002)), InstrStatus::Branched);
    assert_eq!(cpu.cpsr, Psr::new(0x6000_0010));
    assert_eq!(cpu.regs.mode, Mode::Usr);
    assert_eq!(cpu.regs.get(1), 7);
    assert_eq!(cpu.regs.get(13), 0);
    assert_eq!(cpu.regs.get(15), 0x6008);
    assert_eq!(cpu.next_fetch_address(), 0x6000);
    cpu.regs.swap(Mode::Svc);
    assert_eq!(cpu.regs.get(13), 0x5000);
}

#[test]
fn branch_exchange_to_thumb() {
    let mut cpu = Cpu::new();
    cpu.regs.set(1, 0x3001);
    cpu.regs.set(14, 0x55);
    // BX r1
    assert_eq!(bx(&mut cpu, RegBranch::new(0x4708)), InstrStatus::Branched);
    assert_eq!(cpu.cpsr.get_thumb_bit(), 1);
    assert_eq!(cpu.next_fetch_address(), 0x3000);
    assert_eq!(cpu.regs.get(15), 0x3004);
    assert_eq!(cpu.regs.get(14), 0x55);
}

#[test]
fn branch_exchange_high_register() {
    let mut cpu = thumb_cpu(0x1004);
    cpu.regs.set(14, 0x2000);
    // BX lr
    assert_eq!(bx(&mut cpu, RegBranch::new(0x4770)), InstrStatus::Branched);
    assert_eq!(cpu.cpsr.get_thumb_bit(), 0);
    assert_eq!(cpu.regs.get(15), 0x2008);
}

#[test]
fn branch_link_exchange_to_arm() {
    let mut cpu = thumb_cpu(0x1004);
    cpu.regs.set(2, 0x4000);
    // BLX r2
    assert_eq!(blx_2(&mut cpu, RegBranch::new(0x4790)), InstrStatus::Branched);
    assert_eq!(cpu.cpsr.get_thumb_bit(), 0);
    assert_eq!(cpu.regs.get(14), 0x1003);
    assert_eq!(cpu.regs.get(15), 0x4008);
    assert_eq!(cpu.next_fetch_address(), 0x4000);
}

#[test]
fn conditional_branch_taken() {
    let mut cpu = thumb_cpu(0x1004);
    // BNE -4, with Z clear
    assert_eq!(b_1(&mut cpu, CondBranch::new(0xD1FE)), InstrStatus::Branched);
    assert_eq!(cpu.next_fetch_address(), 0x1000);
    assert_eq!(cpu.regs.get(15), 0x1004);
}

#[test]
fn long_branch_with_link_pair() {
    let mut cpu = thumb_cpu(0x1004);
    interpret_thumb(&mut cpu, ThumbInstruction::branch(LongBranch::new(0xF001)));
    assert_eq!(cpu.regs.get(14), 0x2004);
    assert_eq!(cpu.regs.get(15), 0x1006);
    interpret_thumb(&mut cpu, ThumbInstruction::branch(LongBranch::new(0xF810)));
    assert_eq!(cpu.regs.get(14), 0x1005);
    assert_eq!(cpu.next_fetch_address(), 0x2024);
    assert_eq!(cpu.regs.get(15), 0x2028);
}

#[test]
fn long_branch_first_half_negative_offset() {
    let mut cpu = thumb_cpu(0x10004);
    assert_eq!(branch(&mut cpu, LongBranch::new(0xF7FF)), InstrStatus::InBlock);
    assert_eq!(cpu.regs.get(14), 0xF004);
    assert_eq!(cpu.regs.get(15), 0x10004);
}

#[test]
fn long_branch_exchange_suffix() {
    let mut cpu = thumb_cpu(0x1006);
    cpu.regs.set(14, 0x2002);
    assert_eq!(branch(&mut cpu, LongBranch::new(0xE801)), InstrStatus::Branched);
    assert_eq!(cpu.cpsr.get_thumb_bit(), 0);
    assert_eq!(cpu.regs.get(14), 0x1005);
    assert_eq!(cpu.next_fetch_address(), 0x2004);
    assert_eq!(cpu.regs.get(15), 0x200C);
}

#[test]
fn reset_then_relative_branch() {
    let mut cpu = Cpu::new();
    cpu.reset(0x8000);
    assert_eq!(cpu.regs.get(15), 0x8008);
    assert_eq!(cpu.next_fetch_address(), 0x8000);
    assert_eq!(cpu.cpsr.mode_bits(), 0b10011);
    assert_eq!(cpu.cpsr.get_thumb_bit(), 0);
    assert_eq!(cpu.cpsr.raw & 0xC0, 0xC0);
    assert_eq!(cpu.get_pc_offset(), 8);
    // Offset field 0x7FE: -2 halfwords, a target delta of -4 from the PC view.
    assert_eq!(branch(&mut cpu, LongBranch::new(0xE7FE)), InstrStatus::Branched);
    // Target: 0x8000 + (-4 + 8) = 0x8004; the PC view adds the pipeline offset.
    assert_eq!(cpu.next_fetch_address(), 0x8004);
    assert_eq!(cpu.regs.get(15), 0x8004 + 8);
}

#[test]
fn dispatcher_advances_past_sequential_instructions() {
    let mut cpu = Cpu::new();
    cpu.reset(0x8000);
    cpu.regs.set(13, 0x2000);
    let mut mem = Ram::new();
    interpret_arm(&mut cpu, &mut mem, ArmInstruction::stm_1(BlockTransfer::new(0xE92D_4000)));
    assert_eq!(cpu.regs.get(15), 0x800C);
    assert_eq!(mem.read(0x1FFC), 0);
    mem.write(0x200, 0x9001);
    cpu.regs.set(0, 0x200);
    interpret_arm(&mut cpu, &mut mem, ArmInstruction::ldm_1(BlockTransfer::new(0xE890_8000)));
    assert_eq!(cpu.regs.get(15), 0x9004);
    assert_eq!(cpu.cpsr.get_thumb_bit(), 1);
}

#[test]
fn thumb_dispatcher_skipped_branch_advances() {
    let mut cpu = thumb_cpu(0x1004);
    interpret_thumb(&mut cpu, ThumbInstruction::b_1(CondBranch::new(0xD0FE)));
    assert_eq!(cpu.regs.get(15), 0x1006);
    interpret_thumb(&mut cpu, ThumbInstruction::bx(RegBranch::new(0x4700)));
    assert_eq!(cpu.regs.get(15), 8);
}

#[test]
fn fiq_bank_swap() {
    let mut regs = RegFile::new(Mode::Svc);
    regs.set(8, 8);
    regs.set(13, 13);
    assert_eq!(regs.swap(Mode::Fiq), Mode::Svc);
    assert_eq!(regs.get(8), 0);
    assert_eq!(regs.get(13), 0);
    regs.set(8, 88);
    assert_eq!(regs.swap(Mode::Usr), Mode::Fiq);
    assert_eq!(regs.get(8), 8);
    assert_eq!(regs.get(13), 0);
    assert_eq!(regs.swap(Mode::Svc), Mode::Usr);
    assert_eq!(regs.get(8), 8);
    assert_eq!(regs.get(13), 13);
    regs.swap(Mode::Fiq);
    assert_eq!(regs.get(8), 88);
}

#[test]
fn mode_numbers() {
    assert_eq!(Mode::from_num(0b10011), Some(Mode::Svc));
    assert_eq!(Mode::from_num(0b11111), Some(Mode::Sys));
    assert_eq!(Mode::from_num(0), None);
    assert_eq!(Mode::from_num(0b10100), None);
    for m in [Mode::Usr, Mode::Fiq, Mode::Irq, Mode::Svc, Mode::Abt, Mode::Und, Mode::Sys] {
        assert_eq!(Mode::from_num(m.num()), Some(m));
    }
    assert_eq!(Mode::Usr.spsr_index(), None);
    assert_eq!(Mode::Und.spsr_index(), Some(4));
}

#[test]
fn current_spsr_is_that_of_the_mode() {
    let mut cpu = Cpu::new();
    cpu.regs.swap(Mode::Irq);
    *cpu.get_current_spsr() = Psr::new(0x1F);
    assert_eq!(cpu.spsr[1].raw, 0x1F);
    assert_eq!(cpu.spsr[2].raw, 0);
}

#[test]
fn exception_return_switches_bank() {
    let mut cpu = Cpu::new();
    cpu.regs.set(14, 0x14);
    cpu.spsr[2] = Psr::new(0x10);
    cpu.spsr_make_current();
    assert_eq!(cpu.cpsr.raw, 0x10);
    assert_eq!(cpu.regs.mode, Mode::Usr);
    assert_eq!(cpu.regs.get(14), 0);
}

#[test]
fn sign_extension() {
    assert_eq!(sign_extend(0xFF, 8), -1);
    assert_eq!(sign_extend(0x7F, 8), 127);
    assert_eq!(sign_extend(0x180, 8), -128);
    assert_eq!(sign_extend(0x400, 11), -1024);
    assert_eq!(sign_extend(0x3FF, 11), 1023);
}

#[test]
fn wrapping_arithmetic() {
    assert_eq!(add_wrapping(0xFFFF_FFFE, 4), 2);
    assert_eq!(sub_wrapping(1, 2), 0xFFFF_FFFF);
}

#[test]
fn status_register_fields() {
    let mut psr = Psr::new(0xF000_0000);
    psr.set_thumb_bit(1);
    assert_eq!(psr.raw, 0xF000_0020);
    psr.set_mode_and_masks(0b10010, 1, 0);
    assert_eq!(psr.raw, 0xF000_0072);
    psr.set_thumb_bit(0);
    assert_eq!(psr.raw, 0xF000_0052);
    assert_eq!(psr.mode_bits(), 0b10010);
}

#[test]
fn io_register_write_mask() {
    let mut reg = IoReg::new(0x00FF, 0x0F0F);
    reg.set(0xFFFF);
    assert_eq!(reg.get(), 0x0FFF);
    reg.set(0);
    assert_eq!(reg.get(), 0x00F0);
    reg.set_unchecked(0x1234);
    assert_eq!(reg.get(), 0x1234);
}

#[test]
fn unwritten_memory_reads_zero() {
    let mut mem = Ram::new();
    assert_eq!(mem.read(0x40), 0);
    mem.write(0x40, 5);
    mem.write(0x40, 6);
    assert_eq!(mem.read(0x40), 6);
    assert_eq!(mem.read(0x44), 0);
}
