use vstd::prelude::*;
use crate::bits::wrap;
use crate::branch::{b_1_effect, blx_2_effect, bx_effect};
use crate::cpu::{Cpu, InstrStatus};
use crate::decoder::{ArmInstruction, BlockTransfer, CondBranch, RegBranch};
use crate::interpreter::arm_effect;
use crate::load_store_multiple::{
    count_below, lemma_count_bound, lemma_selected_len, ldm_1_effect, listed, selected, slot_address, stm_1_effect, stm_2_effect,
    stored, transfer_addresses, user_view,
};
use crate::psr::{cond_holds, passes};
use crate::ram::word_at;
use crate::regs::Mode;

verus! {

/// The signed comparison GE holds exactly when N equals V, and the codes AL
/// and 0b1111 hold under any flags.
pub proof fn lemma_condition_table(n: u32, z: u32, c: u32, v: u32)
    requires
        n <= 1,
        z <= 1,
        c <= 1,
        v <= 1,
    ensures
        cond_holds(0xA, n, z, c, v) <==> n == v,
        cond_holds(0xB, n, z, c, v) <==> n != v,
        cond_holds(0xE, n, z, c, v),
        cond_holds(0xF, n, z, c, v),
{
}

/// An instruction of the primary set whose condition fails leaves the
/// registers, both kinds of status register and memory exactly as they were,
/// and continues in sequence.
pub proof fn lemma_skipped_block_transfer_is_transparent(
    o: Cpu,
    mid: Cpu,
    m0: Map<u32, u32>,
    m1: Map<u32, u32>,
    instr: ArmInstruction,
    r: InstrStatus,
)
    requires
        arm_effect(o, mid, m0, m1, instr, r),
        match instr {
            ArmInstruction::ldm_1(d) => !passes(d.spec_cond(), o.cpsr),
            ArmInstruction::ldm_2(d) => !passes(d.spec_cond(), o.cpsr),
            ArmInstruction::ldm_3(d) => !passes(d.spec_cond(), o.cpsr),
            ArmInstruction::stm_1(d) => !passes(d.spec_cond(), o.cpsr),
            ArmInstruction::stm_2(d) => !passes(d.spec_cond(), o.cpsr),
        },
    ensures
        mid == o,
        m1 == m0,
        r == InstrStatus::InBlock,
{
}

/// A conditional branch whose condition fails changes nothing and continues
/// in sequence.
pub proof fn lemma_skipped_branch_is_transparent(o: Cpu, n: Cpu, data: CondBranch, r: InstrStatus)
    requires
        b_1_effect(o, n, data, r),
        !passes(data.spec_cond(), o.cpsr),
    ensures
        n == o,
        r == InstrStatus::InBlock,
{
}

/// A load-multiple that lists its own base register and asks for writeback
/// leaves the base register holding the loaded word, not the writeback address.
pub proof fn lemma_loaded_base_wins(o: Cpu, n: Cpu, mem: Map<u32, u32>, data: BlockTransfer, r: InstrStatus)
    requires
        ldm_1_effect(o, n, mem, data, r),
        passes(data.spec_cond(), o.cpsr),
        data.spec_w_bit(),
        data.spec_rn() < 15,
        listed(data.spec_register_list(), data.spec_rn() as int),
    ensures
        n.reg(data.spec_rn() as int) == word_at(
            mem,
            slot_address(data.spec_register_list(), transfer_addresses(&o, data).0, data.spec_rn() as int),
        ),
{
}

/// Branch-exchange to an address with the low bit set selects the compressed
/// set and fetches next from the address with that bit cleared.
pub proof fn lemma_exchange_to_thumb(o: Cpu, n: Cpu, data: RegBranch, r: InstrStatus, link: bool)
    requires
        link ==> blx_2_effect(o, n, data, r),
        !link ==> bx_effect(o, n, data, r),
        o.reg(data.spec_target_reg() as int) & 1u32 == 1u32,
    ensures
        n.cpsr.thumb_bit() == 1,
        n.fetch_address() == o.reg(data.spec_target_reg() as int) & 0xFFFF_FFFEu32,
        r == InstrStatus::Branched,
{
}

proof fn lemma_count_monotonic(list: u32, i: int, k: int)
    requires
        0 <= i < k,
        listed(list, i),
    ensures
        count_below(list, i) < count_below(list, k),
        count_below(list, k) <= k,
    decreases k,
{
    if k > i + 1 {
        lemma_count_monotonic(list, i, k - 1);
    } else {
        lemma_count_bound(list, i);
    }
}

/// After a store of the listed registers below `k`, the word for listed
/// register `i` holds that register's value.
pub proof fn lemma_stored_word(m0: Map<u32, u32>, start: u32, list: u32, regs: Seq<u32>, k: int, i: int)
    requires
        0 <= i < k <= 16,
        listed(list, i),
    ensures
        word_at(stored(m0, start, selected(list, regs, k)), slot_address(list, start, i)) == regs[i],
    decreases k,
{
    lemma_selected_len(list, regs, k - 1);
    lemma_selected_len(list, regs, i);
    if k == i + 1 {
        let s = selected(list, regs, i);
        assert(s.push(regs[i]).drop_last() =~= s);
    } else {
        lemma_stored_word(m0, start, list, regs, k - 1, i);
        if listed(list, k - 1) {
            lemma_count_monotonic(list, i, k - 1);
            let s = selected(list, regs, k - 1);
            assert(s.push(regs[k - 1]).drop_last() =~= s);
            assert(wrap(start + 4 * count_below(list, k - 1)) != wrap(start + 4 * count_below(list, i)));
        }
    }
}

/// Store multiple writes each listed register of the current mode to its word.
pub proof fn lemma_store_writes_listed(
    o: Cpu,
    n: Cpu,
    m0: Map<u32, u32>,
    m1: Map<u32, u32>,
    data: BlockTransfer,
    r: InstrStatus,
    i: int,
)
    requires
        stm_1_effect(o, n, m0, m1, data, r),
        passes(data.spec_cond(), o.cpsr),
        0 <= i < 16,
        listed(data.spec_register_list(), i),
    ensures
        word_at(m1, slot_address(data.spec_register_list(), transfer_addresses(&o, data).0, i)) == o.reg(i),
{
    lemma_stored_word(m0, transfer_addresses(&o, data).0, data.spec_register_list(), o.regs.visible@, 16, i);
}

/// A user-bank store from a privileged mode writes User mode's copy of each
/// listed register, and afterwards every register of every mode, the
/// privileged stack pointer among them, is what it was.
pub proof fn lemma_user_bank_store(
    o: Cpu,
    n: Cpu,
    m0: Map<u32, u32>,
    m1: Map<u32, u32>,
    data: BlockTransfer,
    r: InstrStatus,
    i: int,
)
    requires
        stm_2_effect(o, n, m0, m1, data, r),
        passes(data.spec_cond(), o.cpsr),
        0 <= i < 16,
        listed(data.spec_register_list(), i),
    ensures
        word_at(m1, slot_address(data.spec_register_list(), transfer_addresses(&o, data).0, i))
            == o.regs.reg_in(Mode::Usr, i),
        n.regs.mode == o.regs.mode,
        forall|m: Mode, j: int| 0 <= j < 16 ==> #[trigger] n.regs.reg_in(m, j) == o.regs.reg_in(m, j),
{
    lemma_stored_word(m0, transfer_addresses(&o, data).0, data.spec_register_list(), user_view(o.regs), 16, i);
}

} // verus!
