use vstd::prelude::*;
use crate::bits::{add_wrapping, sub_wrapping, wrap};
use crate::cpu::{pc_offset, Cpu, InstrStatus};
use crate::decoder::BlockTransfer;
use crate::psr::{cond_passed, passes};
use crate::ram::{word_at, Ram};
use crate::regs::{shares, Mode, RegFile};

verus! {

/// Whether register `i` is in the register list `list`.
pub open spec fn listed(list: u32, i: int) -> bool {
    (list >> (i as u32)) & 1u32 == 1u32
}

/// How many of the registers below `k` are in `list`.
pub open spec fn count_below(list: u32, k: int) -> nat
    decreases k,
{
    if k <= 0 {
        0
    } else {
        count_below(list, k - 1) + if listed(list, k - 1) {
            1nat
        } else {
            0nat
        }
    }
}

/// The values of the registers below `k` that are in `list`, lowest first.
pub open spec fn selected(list: u32, regs: Seq<u32>, k: int) -> Seq<u32>
    decreases k,
{
    if k <= 0 {
        Seq::empty()
    } else if listed(list, k - 1) {
        selected(list, regs, k - 1).push(regs[k - 1])
    } else {
        selected(list, regs, k - 1)
    }
}

/// Memory `m` after `vals` are written to consecutive words from `start`.
pub open spec fn stored(m: Map<u32, u32>, start: u32, vals: Seq<u32>) -> Map<u32, u32>
    decreases vals.len(),
{
    if vals.len() == 0 {
        m
    } else {
        stored(m, start, vals.drop_last()).insert(
            wrap(start + 4 * (vals.len() - 1)),
            vals.last(),
        )
    }
}

/// The start address and the writeback address of a block transfer of
/// `count` words from base `base`, by pre-indexing and direction.
pub open spec fn addressing(base: u32, count: int, pre_index: bool, ascending: bool) -> (u32, u32) {
    if ascending {
        if pre_index {
            (wrap(base + 4), wrap(base + 4 * count))
        } else {
            (base, wrap(base + 4 * count))
        }
    } else {
        if pre_index {
            (wrap(base - 4 * count), wrap(base - 4 * count))
        } else {
            (wrap(base - 4 * count + 4), wrap(base - 4 * count))
        }
    }
}

/// The addressing of block transfer `data` on the registers of `cpu`.
pub open spec fn transfer_addresses(cpu: &Cpu, data: BlockTransfer) -> (u32, u32) {
    addressing(
        cpu.reg(data.spec_rn() as int),
        count_below(data.spec_register_list(), 16) as int,
        data.spec_p_bit(),
        data.spec_u_bit(),
    )
}

/// The address of the word that moves to or from register `i` in a block
/// transfer of `list` from `start`.
pub open spec fn slot_address(list: u32, start: u32, i: int) -> u32 {
    wrap(start + 4 * count_below(list, i))
}

pub(crate) proof fn lemma_count_bound(list: u32, k: int)
    requires
        0 <= k,
    ensures
        count_below(list, k) <= k,
    decreases k,
{
    if k > 0 {
        lemma_count_bound(list, k - 1);
    }
}

pub(crate) proof fn lemma_selected_len(list: u32, regs: Seq<u32>, k: int)
    requires
        0 <= k,
    ensures
        selected(list, regs, k).len() == count_below(list, k),
    decreases k,
{
    if k > 0 {
        lemma_selected_len(list, regs, k - 1);
    }
}

/// Counts the registers in a 16-register list.
pub fn count_registers(list: u32) -> (r: u32)
    ensures
        r == count_below(list, 16),
        r <= 16,
{
    let mut c: u32 = 0;
    let mut i: u32 = 0;
    while i < 16
        invariant
            i <= 16,
            c == count_below(list, i as int),
            c <= i,
        decreases 16 - i,
    {
        if (list >> i) & 1 == 1 {
            c = c + 1;
        }
        i = i + 1;
    }
    c
}

/// Start and writeback addresses of a block transfer of `count` words from
/// `base`:
///
/// | pre_index | ascending | start           | writeback   |
/// |-----------|-----------|-----------------|-------------|
/// | false     | true      | base            | base + 4n   |
/// | true      | true      | base + 4        | base + 4n   |
/// | false     | false     | base - 4n + 4   | base - 4n   |
/// | true      | false     | base - 4n       | base - 4n   |
pub fn resolve_addressing(base: u32, count: u32, pre_index: bool, ascending: bool) -> (r: (u32, u32))
    requires
        count <= 16,
    ensures
        r == addressing(base, count as int, pre_index, ascending),
{
    let span = count * 4;
    if ascending {
        if pre_index {
            (add_wrapping(base, 4), add_wrapping(base, span))
        } else {
            (base, add_wrapping(base, span))
        }
    } else {
        let low = sub_wrapping(base, span);
        if pre_index {
            (low, low)
        } else {
            let start = add_wrapping(low, 4);
            assert(wrap(wrap(base - 4 * count) + 4) == wrap(base - 4 * count + 4));
            (start, low)
        }
    }
}

/// The start and writeback addresses of the block transfer encoded by
/// `instr_data`, from the current value of its base register.
pub fn decode_addressing_mode(instr_data: u32, cpu: &Cpu) -> (r: (u32, u32))
    ensures
        r == transfer_addresses(cpu, BlockTransfer::new_spec(instr_data)),
{
    let data = BlockTransfer::new(instr_data);
    let num_registers = count_registers(data.register_list());
    let rn_val = cpu.regs.get(data.rn() as usize);
    resolve_addressing(rn_val, num_registers, data.p_bit(), data.u_bit())
}

/// Register `i` of the current mode after the loads and the writeback of a
/// load-multiple from memory `mem`, where a loaded value wins over the writeback.
pub open spec fn loaded_reg(o: &Cpu, mem: Map<u32, u32>, data: BlockTransfer, i: int) -> u32 {
    let list = data.spec_register_list();
    let (start, wb) = transfer_addresses(o, data);
    if listed(list, i) {
        word_at(mem, slot_address(list, start, i))
    } else {
        written_back(o, data, i)
    }
}

/// Register `i` of the current mode after the writeback of `data` alone.
pub open spec fn written_back(o: &Cpu, data: BlockTransfer, i: int) -> u32 {
    if data.spec_w_bit() && i == data.spec_rn() {
        transfer_addresses(o, data).1
    } else {
        o.reg(i)
    }
}

/// The word a load-multiple reads for the program counter.
pub open spec fn loaded_pc(o: &Cpu, mem: Map<u32, u32>, data: BlockTransfer) -> u32 {
    word_at(mem, slot_address(data.spec_register_list(), transfer_addresses(o, data).0, 15))
}

/// Loads registers 0 to 14 of the current mode from memory, each listed one
/// from the next word, after the base register has been written back where
/// `data` asks for it. Returns the address after the last word read.
fn load_listed(cpu: &mut Cpu, mem: &Ram, data: BlockTransfer, start: u32) -> (addr: u32)
    ensures
        final(cpu).regs.mode == old(cpu).regs.mode,
        final(cpu).regs.banked == old(cpu).regs.banked,
        final(cpu).cpsr == old(cpu).cpsr,
        final(cpu).spsr == old(cpu).spsr,
        addr == slot_address(data.spec_register_list(), start, 15),
        forall|j: int| 0 <= j < 15 && listed(data.spec_register_list(), j)
            ==> final(cpu).reg(j) == word_at(mem@, slot_address(data.spec_register_list(), start, j)),
        forall|j: int| 0 <= j < 16 && !(j < 15 && listed(data.spec_register_list(), j))
            ==> final(cpu).reg(j) == old(cpu).reg(j),
{
    let list = data.register_list();
    let ghost o = *cpu;
    let mut addr = start;
    let mut i: usize = 0;
    while i < 15
        invariant
            i <= 15,
            list == data.spec_register_list(),
            cpu.regs.mode == o.regs.mode,
            cpu.regs.banked == o.regs.banked,
            cpu.cpsr == o.cpsr,
            cpu.spsr == o.spsr,
            addr == slot_address(list, start, i as int),
            forall|j: int| 0 <= j < i && listed(list, j)
                ==> cpu.reg(j) == word_at(mem@, slot_address(list, start, j)),
            forall|j: int| 0 <= j < 16 && !(j < i && listed(list, j)) ==> cpu.reg(j) == o.reg(j),
        decreases 15 - i,
    {
        if (list >> (i as u32)) & 1 == 1 {
            let v = mem.read(addr);
            cpu.regs.set(i, v);
            addr = add_wrapping(addr, 4);
        }
        i = i + 1;
    }
    addr
}

/// The effect of `ldm_1`: from `o` to `n`, with status `r`.
pub open spec fn ldm_1_effect(o: Cpu, n: Cpu, mem: Map<u32, u32>, data: BlockTransfer, r: InstrStatus) -> bool {
    &&& !passes(data.spec_cond(), o.cpsr) ==> r == InstrStatus::InBlock && n == o
    &&& passes(data.spec_cond(), o.cpsr) ==> ({
        let list = data.spec_register_list();
        let val = loaded_pc(&o, mem, data);
        &&& n.regs.mode == o.regs.mode
        &&& n.regs.banked == o.regs.banked
        &&& n.spsr == o.spsr
        &&& forall|i: int| 0 <= i < 15 ==> n.reg(i) == loaded_reg(&o, mem, data, i)
        &&& listed(list, 15) ==> r == InstrStatus::Branched && n.cpsr.thumb_bit() == val & 1u32
            && n.cpsr.same_but_thumb(o.cpsr) && n.fetch_address() == val & 0xFFFF_FFFEu32
            && n.reg(15) == wrap((val & 0xFFFF_FFFEu32) + pc_offset(n.cpsr))
        &&& !listed(list, 15) ==> r == InstrStatus::InBlock && n.cpsr == o.cpsr && n.reg(15)
            == written_back(&o, data, 15)
    })
}

/// Load multiple: fills the listed registers from consecutive words, writes
/// the base register back if asked (a loaded base wins), and, when the
/// program counter is listed, branches to the last word with its low bit
/// selecting the instruction set. A failed condition changes nothing.
pub fn ldm_1(cpu: &mut Cpu, mem: &Ram, data: BlockTransfer) -> (r: InstrStatus)
    ensures
        ldm_1_effect(*old(cpu), *final(cpu), mem@, data, r),
{
    if !cond_passed(data.cond(), &cpu.cpsr) {
        return InstrStatus::InBlock;
    }

    let ghost o = *cpu;
    let (start, writeback) = decode_addressing_mode(data.raw, cpu);
    assert(BlockTransfer::new_spec(data.raw) == data);
    let list = data.register_list();

    if data.w_bit() {
        cpu.regs.set(data.rn() as usize, writeback);
    }
    let ghost w = *cpu;
    assert forall|i: int| 0 <= i < 16 implies w.reg(i) == written_back(&o, data, i) by {}
    let addr = load_listed(cpu, mem, data, start);
    assert forall|i: int| 0 <= i < 15 implies cpu.reg(i) == loaded_reg(&o, mem@, data, i) by {}

    if (list >> 15) & 1 == 1 {
        let val = mem.read(addr);
        let t = val & 1;
        assert(t <= 1) by (bit_vector)
            requires
                t == val & 1u32,
        ;
        cpu.cpsr.set_thumb_bit(t);
        cpu.branch(val & 0xFFFF_FFFE);
        InstrStatus::Branched
    } else {
        InstrStatus::InBlock
    }
}

/// Writes the listed registers of `regs` (as its visible mode sees them) to
/// consecutive words from `start`, lowest register first.
fn store_listed(regs: &RegFile, mem: &mut Ram, list: u32, start: u32)
    ensures
        final(mem)@ == stored(old(mem)@, start, selected(list, regs.visible@, 16)),
{
    let ghost m0 = mem@;
    let mut addr = start;
    let mut i: usize = 0;
    while i < 16
        invariant
            i <= 16,
            addr == slot_address(list, start, i as int),
            mem@ == stored(m0, start, selected(list, regs.visible@, i as int)),
        decreases 16 - i,
    {
        proof {
            lemma_selected_len(list, regs.visible@, i as int);
        }
        let ghost prev = selected(list, regs.visible@, i as int);
        if (list >> (i as u32)) & 1 == 1 {
            let v = regs.get(i);
            mem.write(addr, v);
            addr = add_wrapping(addr, 4);
            assert(prev.push(v).drop_last() =~= prev);
            assert(selected(list, regs.visible@, i + 1) == prev.push(v));
            assert(stored(m0, start, prev.push(v)) == stored(m0, start, prev).insert(
                wrap(start + 4 * prev.len()),
                v,
            ));
        } else {
            assert(selected(list, regs.visible@, i + 1) == prev);
        }
        i = i + 1;
    }
}

/// The effect of `stm_1`: from `o` to `n`, with status `r`.
pub open spec fn stm_1_effect(o: Cpu, n: Cpu, m0: Map<u32, u32>, m1: Map<u32, u32>, data: BlockTransfer, r: InstrStatus) -> bool {
    &&& r == InstrStatus::InBlock
    &&& !passes(data.spec_cond(), o.cpsr) ==> n == o && m1 == m0
    &&& passes(data.spec_cond(), o.cpsr) ==> ({
        &&& m1 == stored(
            m0,
            transfer_addresses(&o, data).0,
            selected(data.spec_register_list(), o.regs.visible@, 16),
        )
        &&& n.regs.mode == o.regs.mode
        &&& n.regs.banked == o.regs.banked
        &&& n.cpsr == o.cpsr
        &&& n.spsr == o.spsr
        &&& forall|i: int| 0 <= i < 16 ==> n.reg(i) == written_back(&o, data, i)
    })
}

/// Store multiple: writes the listed registers 0 to 15 to consecutive words
/// from the start address, then writes the base register back if asked.
/// A failed condition changes nothing.
pub fn stm_1(cpu: &mut Cpu, mem: &mut Ram, data: BlockTransfer) -> (r: InstrStatus)
    ensures
        stm_1_effect(*old(cpu), *final(cpu), old(mem)@, final(mem)@, data, r),
{
    if !cond_passed(data.cond(), &cpu.cpsr) {
        return InstrStatus::InBlock;
    }

    let (start, writeback) = decode_addressing_mode(data.raw, cpu);
    assert(BlockTransfer::new_spec(data.raw) == data);
    store_listed(&cpu.regs, mem, data.register_list(), start);

    if data.w_bit() {
        cpu.regs.set(data.rn() as usize, writeback);
    }
    InstrStatus::InBlock
}

/// The sixteen registers as User mode sees them.
pub open spec fn user_view(regs: RegFile) -> Seq<u32> {
    Seq::new(16, |i: int| regs.reg_in(Mode::Usr, i))
}

/// The effect of `stm_2`: from `o` to `n`, with status `r`.
pub open spec fn stm_2_effect(o: Cpu, n: Cpu, m0: Map<u32, u32>, m1: Map<u32, u32>, data: BlockTransfer, r: InstrStatus) -> bool {
    &&& r == InstrStatus::InBlock
    &&& !passes(data.spec_cond(), o.cpsr) ==> n == o && m1 == m0
    &&& passes(data.spec_cond(), o.cpsr) ==> ({
        &&& m1 == stored(
            m0,
            transfer_addresses(&o, data).0,
            selected(data.spec_register_list(), user_view(o.regs), 16),
        )
        &&& n.regs.same_as(&o.regs)
        &&& n.cpsr == o.cpsr
        &&& n.spsr == o.spsr
    })
}

/// Store multiple, user bank: as `stm_1`, but the registers stored are those
/// of User mode, whatever mode is current, and nothing is written back. No
/// register of any mode changes. A failed condition changes nothing.
pub fn stm_2(cpu: &mut Cpu, mem: &mut Ram, data: BlockTransfer) -> (r: InstrStatus)
    ensures
        stm_2_effect(*old(cpu), *final(cpu), old(mem)@, final(mem)@, data, r),
{
    if !cond_passed(data.cond(), &cpu.cpsr) {
        return InstrStatus::InBlock;
    }

    let ghost o = *cpu;
    let (start, _) = decode_addressing_mode(data.raw, cpu);
    assert(BlockTransfer::new_spec(data.raw) == data);
    let list = data.register_list();

    let current_mode = cpu.regs.swap(Mode::Usr);
    assert forall|i: int| 0 <= i < 16 implies cpu.regs.visible@[i] == o.regs.reg_in(Mode::Usr, i) by {
        assert(cpu.regs.reg_in(Mode::Usr, i) == o.regs.reg_in(Mode::Usr, i));
    }
    assert(cpu.regs.visible@ =~= user_view(o.regs));
    store_listed(&cpu.regs, mem, list, start);
    cpu.regs.swap(current_mode);

    InstrStatus::InBlock
}

/// The effect of `ldm_2`: from `o` to `n`, with status `r`.
pub open spec fn ldm_2_effect(o: Cpu, n: Cpu, mem: Map<u32, u32>, data: BlockTransfer, r: InstrStatus) -> bool {
    &&& r == InstrStatus::InBlock
    &&& !passes(data.spec_cond(), o.cpsr) ==> n == o
    &&& passes(data.spec_cond(), o.cpsr) ==> ({
        let list = data.spec_register_list();
        let start = transfer_addresses(&o, data).0;
        &&& n.regs.mode == o.regs.mode
        &&& n.cpsr == o.cpsr
        &&& n.spsr == o.spsr
        &&& forall|m: Mode, i: int| 0 <= i < 16 ==> #[trigger] n.regs.reg_in(m, i) == if i < 15
            && listed(list, i) && shares(m, Mode::Usr, i) {
            word_at(mem, slot_address(list, start, i))
        } else {
            o.regs.reg_in(m, i)
        }
    })
}

/// Load multiple, user bank: fills the listed registers among 0 to 14 of User
/// mode from consecutive words, whatever mode is current. The current mode
/// stays; its own copies of banked registers keep their values. No writeback,
/// and the program counter is not loaded. A failed condition changes nothing.
pub fn ldm_2(cpu: &mut Cpu, mem: &Ram, data: BlockTransfer) -> (r: InstrStatus)
    ensures
        ldm_2_effect(*old(cpu), *final(cpu), mem@, data, r),
{
    if !cond_passed(data.cond(), &cpu.cpsr) {
        return InstrStatus::InBlock;
    }

    let ghost o = *cpu;
    let (start, _) = decode_addressing_mode(data.raw, cpu);
    assert(BlockTransfer::new_spec(data.raw) == data);
    let list = data.register_list();

    let current_mode = cpu.regs.swap(Mode::Usr);
    let ghost u = *cpu;
    load_listed(cpu, mem, data, start);
    let ghost l = *cpu;
    assert forall|m: Mode, i: int| 0 <= i < 16 implies #[trigger] l.regs.reg_in(m, i) == if i < 15
        && listed(list, i) && shares(m, Mode::Usr, i) {
        word_at(mem@, slot_address(list, start, i))
    } else {
        o.regs.reg_in(m, i)
    } by {
        assert(u.regs.reg_in(m, i) == o.regs.reg_in(m, i));
        assert(u.regs.reg_in(Mode::Usr, i) == o.regs.reg_in(Mode::Usr, i));
    }
    cpu.regs.swap(current_mode);

    InstrStatus::InBlock
}

/// The current mode of `cpu` has a saved status register, and the mode field
/// of that register names a mode.
pub open spec fn can_return(cpu: &Cpu) -> bool {
    &&& cpu.regs.mode.spec_spsr_index() is Some
    &&& exists|m: Mode| m.spec_num() == cpu.spsr@[cpu.regs.mode.spec_spsr_index().unwrap() as int].mode()
}

/// The effect of `ldm_3`: from `o` to `n`, with status `r`.
pub open spec fn ldm_3_effect(o: Cpu, n: Cpu, mem: Map<u32, u32>, data: BlockTransfer, r: InstrStatus) -> bool {
    &&& !passes(data.spec_cond(), o.cpsr) ==> r == InstrStatus::InBlock && n == o
    &&& passes(data.spec_cond(), o.cpsr) ==> ({
        let dest = loaded_pc(&o, mem, data);
        &&& r == InstrStatus::Branched
        &&& n.cpsr == o.spsr@[o.regs.mode.spec_spsr_index().unwrap() as int]
        &&& n.spsr == o.spsr
        &&& n.regs.mode.spec_num() == n.cpsr.mode()
        &&& forall|m: Mode, i: int| 0 <= i < 15 ==> #[trigger] n.regs.reg_in(m, i) == if shares(
            m,
            o.regs.mode,
            i,
        ) {
            loaded_reg(&o, mem, data, i)
        } else {
            o.regs.reg_in(m, i)
        }
        &&& n.fetch_address() == dest & 0xFFFF_FFFEu32
        &&& n.reg(15) == wrap((dest & 0xFFFF_FFFEu32) + pc_offset(n.cpsr))
    })
}

/// Load multiple with exception return: as `ldm_1`, then the current status
/// register is restored from the saved one of the current mode (whose
/// registers then become visible), and the processor branches to the word
/// after the listed ones, in the instruction set the restored status register
/// selects. A failed condition changes nothing.
pub fn ldm_3(cpu: &mut Cpu, mem: &Ram, data: BlockTransfer) -> (r: InstrStatus)
    requires
        passes(data.spec_cond(), old(cpu).cpsr) ==> can_return(old(cpu)),
    ensures
        ldm_3_effect(*old(cpu), *final(cpu), mem@, data, r),
{
    if !cond_passed(data.cond(), &cpu.cpsr) {
        return InstrStatus::InBlock;
    }

    let ghost o = *cpu;
    let (start, writeback) = decode_addressing_mode(data.raw, cpu);
    assert(BlockTransfer::new_spec(data.raw) == data);

    if data.w_bit() {
        cpu.regs.set(data.rn() as usize, writeback);
    }
    let ghost w = *cpu;
    assert forall|m: Mode, i: int| 0 <= i < 16 implies #[trigger] w.regs.reg_in(m, i) == if shares(
        m,
        o.regs.mode,
        i,
    ) {
        written_back(&o, data, i)
    } else {
        o.regs.reg_in(m, i)
    } by {}
    let addr = load_listed(cpu, mem, data, start);
    let ghost l = *cpu;
    assert forall|m: Mode, i: int| 0 <= i < 15 implies #[trigger] l.regs.reg_in(m, i) == if shares(
        m,
        o.regs.mode,
        i,
    ) {
        loaded_reg(&o, mem@, data, i)
    } else {
        o.regs.reg_in(m, i)
    } by {
        assert(w.regs.reg_in(m, i) == l.regs.reg_in(m, i) || shares(m, o.regs.mode, i));
    }

    cpu.spsr_make_current();
    let dest = mem.read(addr);
    let ghost e = *cpu;
    cpu.branch(dest & 0xFFFF_FFFE);
    assert forall|m: Mode, i: int| 0 <= i < 15 implies #[trigger] cpu.regs.reg_in(m, i) == l.regs.reg_in(m, i) by {
        assert(cpu.regs.reg_in(m, i) == e.regs.reg_in(m, i));
        assert(e.regs.reg_in(m, i) == l.regs.reg_in(m, i));
    }
    assert(dest == loaded_pc(&o, mem@, data));
    InstrStatus::Branched
}

} // verus!
