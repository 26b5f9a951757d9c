//! Laws that relate several operations of the machine. Each is stated
//! over the abstract states that the contracts of the operations use.

use vstd::prelude::*;
use crate::bus::{lemma_word_parts, word, BusState};
use crate::flags::{
    flag_set,
    lemma_flag_written,
    lemma_pulled_status,
    lemma_pushed_status,
    pushed_status,
    with_zn,
    Flags6502,
};
use crate::instruction::{instruction_at, is_branch, mode_of, AddrMode, Op};
use crate::isa;
use crate::logline::{my_fields, LoglineFields};
use crate::mapper::{Mapper, NROM};
use crate::state::{add16, dec8, hi_byte, lo_byte, same_page, stack_slot, CpuState};
use crate::text::{
    blank,
    lemma_hex_upper_is_a_word,
    lemma_words_after_blank,
    lemma_words_of_word,
    lemma_words_split,
    lemma_words_word_blank_rest,
    spaceless,
    words,
};

verus! {

/// Whether a write to `addr` changes what the bus holds: work RAM takes
/// every write, the cartridge window only while the slot is empty.
pub open spec fn writable(b: BusState, addr: u16) -> bool {
    addr <= 0x1FFF || (addr >= 0x4020 && b.cartridge is None)
}

/// Whether `a` and `b` name the same byte: the same address, or two
/// mirrors of one byte of work RAM.
pub open spec fn same_cell(a: u16, b: u16) -> bool {
    a == b || (a <= 0x1FFF && b <= 0x1FFF && a % 0x0800 == b % 0x0800)
}

/// A write is read back at the address written and at its mirrors, and
/// changes no other byte. A write that the bus ignores changes nothing.
pub proof fn law_write_then_read(b: BusState, addr: u16, data: u8, other: u16)
    requires
        b.wf(),
    ensures
        b.write(addr, data).wf(),
        b.write(addr, data).cartridge == b.cartridge,
        b.write(addr, data).read(other) == (if writable(b, addr) && same_cell(addr, other) {
            data
        } else {
            b.read(other)
        }),
{
}

/// Work RAM repeats every 2 KiB: an address below `0x0800` reads the same
/// at its three mirrors.
pub proof fn law_ram_mirrored(b: BusState, addr: u16)
    requires
        addr <= 0x07FF,
    ensures
        b.read(addr) == b.read((addr + 0x0800) as u16),
        b.read(addr) == b.read((addr + 0x1000) as u16),
        b.read(addr) == b.read((addr + 0x1800) as u16),
{
}

/// The eight picture unit registers repeat through `0x3FFF`.
pub proof fn law_ppu_registers_mirrored(b: BusState, addr: u16)
    requires
        0x2000 <= addr <= 0x3FFF,
    ensures
        b.read(addr) == b.read(0x2000 | (addr & 7)),
{
    let base: u16 = 0x2000 | (addr & 7);
    assert(0x2000 <= base <= 0x2007 && base % 8 == addr % 8) by (bit_vector)
        requires
            base == 0x2000 | (addr & 7),
    ;
}

/// With one program bank NROM shows the same 16 KiB at `0x8000` and at
/// `0xC000`; with two it shows 32 KiB from `0x8000` on.
pub proof fn law_nrom_window(m: NROM, addr: u16)
    requires
        0x8000 <= addr <= 0xBFFF,
    ensures
        m.mapped(addr) == addr - 0x8000,
        m.num_prg_banks <= 1 ==> m.mapped((addr + 0x4000) as u16) == addr - 0x8000,
        m.num_prg_banks > 1 ==> m.mapped((addr + 0x4000) as u16) == addr - 0x4000,
{
}

/// A pull after a push gives back the pushed byte and the stack pointer
/// from before the push, and leaves the byte in its stack slot.
pub proof fn law_push_then_pull(s: CpuState, data: u8)
    requires
        s.wf(),
    ensures
        s.push(data).pull().stack_ptr == s.stack_ptr,
        s.push(data).pull().top() == data,
        s.push(data).pull().bus == s.push(data).bus,
        s.push(data).pull().read(stack_slot(s.stack_ptr)) == data,
{
    law_write_then_read(s.bus, stack_slot(s.stack_ptr), data, stack_slot(s.stack_ptr));
}

/// Pushing back the byte that was just pulled restores the state: the
/// stack pointer and every byte of memory are as they were.
pub proof fn law_pull_then_push(s: CpuState)
    requires
        s.wf(),
    ensures
        s.pull().push(s.pull().top()) == s,
{
    let t = s.pull();
    let back = t.push(t.top());
    assert(back.bus.ram =~= s.bus.ram);
    assert(back.bus.slot_ram =~= s.bus.slot_ram);
}

/// After a reset SP is `0xFD`, I and U are set, and PC holds the word at
/// `0xFFFC`.
pub proof fn law_reset(s: CpuState)
    ensures
        isa::reset(s).stack_ptr == 0xFD,
        isa::reset(s).status_reg & 0b0010_0100 == 0b0010_0100,
        isa::reset(s).prog_ctr == s.bus.read16(0xFFFC),
        flag_set(isa::reset(s).status_reg, Flags6502::I),
        flag_set(isa::reset(s).status_reg, Flags6502::U),
{
    assert(0x24u8 & 0b0010_0100 == 0b0010_0100 && 0x24u8 & 0x04 != 0 && 0x24u8 & 0x20 != 0)
        by (bit_vector);
}

/// The three stack slots that an interrupt sequence fills hold, from the
/// old SP downwards, PC high, PC low and the pushed status byte; SP is
/// three lower.
pub proof fn law_interrupt_stack(s: CpuState, vector: u16, cycles: u8, brk: bool)
    requires
        s.wf(),
    ensures
        ({
            let t = isa::interrupt(s, vector, cycles, brk);
            &&& t.wf()
            &&& t.stack_ptr == dec8(dec8(dec8(s.stack_ptr)))
            &&& t.read(stack_slot(s.stack_ptr)) == hi_byte(s.prog_ctr)
            &&& t.read(stack_slot(dec8(s.stack_ptr))) == lo_byte(s.prog_ctr)
            &&& t.read(stack_slot(dec8(dec8(s.stack_ptr)))) == pushed_status(s.status_reg, brk)
        }),
{
    let sp0 = s.stack_ptr;
    let sp1 = dec8(sp0);
    let sp2 = dec8(sp1);
    let s1 = s.push(hi_byte(s.prog_ctr));
    let s2 = s1.push(lo_byte(s.prog_ctr));
    let s3 = s2.push(pushed_status(s.status_reg, brk));
    law_write_then_read(s.bus, stack_slot(sp0), hi_byte(s.prog_ctr), stack_slot(sp0));
    law_write_then_read(s1.bus, stack_slot(sp1), lo_byte(s.prog_ctr), stack_slot(sp0));
    law_write_then_read(s1.bus, stack_slot(sp1), lo_byte(s.prog_ctr), stack_slot(sp1));
    law_write_then_read(s2.bus, stack_slot(sp2), pushed_status(s.status_reg, brk), stack_slot(sp0));
    law_write_then_read(s2.bus, stack_slot(sp2), pushed_status(s.status_reg, brk), stack_slot(sp1));
    law_write_then_read(s2.bus, stack_slot(sp2), pushed_status(s.status_reg, brk), stack_slot(sp2));
}

/// After an interrupt request that is taken, the top three bytes of the
/// stack are, from the top, the status byte with B clear and U set, PC
/// low and PC high. The other six flags are pushed as they were.
pub proof fn law_irq_stack(s: CpuState)
    requires
        s.wf(),
        !flag_set(s.status_reg, Flags6502::I),
    ensures
        ({
            let t = isa::irq(s);
            let pushed = t.pull().top();
            &&& t.pull().pull().pull().stack_ptr == s.stack_ptr
            &&& t.pull().pull().pull().top() == hi_byte(s.prog_ctr)
            &&& t.pull().pull().top() == lo_byte(s.prog_ctr)
            &&& !flag_set(pushed, Flags6502::B)
            &&& flag_set(pushed, Flags6502::U)
            &&& forall|f: Flags6502|
                f != Flags6502::B && f != Flags6502::U ==> flag_set(pushed, f) == flag_set(
                    s.status_reg,
                    f,
                )
        }),
{
    law_interrupt_stack(s, 0xFFFE, 7, false);
    let pushed = pushed_status(s.status_reg, false);
    lemma_pushed_status(s.status_reg, false, Flags6502::B);
    lemma_pushed_status(s.status_reg, false, Flags6502::U);
    assert forall|f: Flags6502| f != Flags6502::B && f != Flags6502::U implies flag_set(pushed, f)
        == flag_set(s.status_reg, f) by {
        lemma_pushed_status(s.status_reg, false, f);
    }
}

/// RTI after an interrupt request that was taken restores PC, SP, and
/// every flag but B and U, which no pull touches.
pub proof fn law_irq_then_rti(s: CpuState)
    requires
        s.wf(),
        !flag_set(s.status_reg, Flags6502::I),
    ensures
        ({
            let r = isa::op_rti(isa::irq(s));
            &&& r.prog_ctr == s.prog_ctr
            &&& r.stack_ptr == s.stack_ptr
            &&& forall|f: Flags6502|
                f != Flags6502::B && f != Flags6502::U ==> flag_set(r.status_reg, f) == flag_set(
                    s.status_reg,
                    f,
                )
        }),
{
    law_interrupt_stack(s, 0xFFFE, 7, false);
    lemma_word_parts(lo_byte(s.prog_ctr), hi_byte(s.prog_ctr));
    let t = isa::irq(s);
    let r = isa::op_rti(t);
    let pushed = pushed_status(s.status_reg, false);
    assert(t.pull().top() == pushed);
    assert forall|f: Flags6502| f != Flags6502::B && f != Flags6502::U implies flag_set(
        r.status_reg,
        f,
    ) == flag_set(s.status_reg, f) by {
        lemma_pulled_status(t.status_reg, pushed, f);
        lemma_pushed_status(s.status_reg, false, f);
    }
}

/// PLA after PHA gives A back, sets Z and N from it, and restores SP.
pub proof fn law_pha_then_pla(s: CpuState)
    requires
        s.wf(),
    ensures
        isa::op_pla(isa::op_pha(s)).accumulator == s.accumulator,
        isa::op_pla(isa::op_pha(s)).status_reg == with_zn(s.status_reg, s.accumulator),
        isa::op_pla(isa::op_pha(s)).stack_ptr == s.stack_ptr,
{
    law_push_then_pull(s, s.accumulator);
}

/// TXA then TAX is the identity on X, TYA then TAY on Y, and TAX then
/// TXA and TAY then TYA on A.
pub proof fn law_transfers_round_trip(s: CpuState)
    ensures
        isa::operate(Op::TAX, isa::operate(Op::TXA, s)).x_reg == s.x_reg,
        isa::operate(Op::TAY, isa::operate(Op::TYA, s)).y_reg == s.y_reg,
        isa::operate(Op::TXA, isa::operate(Op::TAX, s)).accumulator == s.accumulator,
        isa::operate(Op::TYA, isa::operate(Op::TAY, s)).accumulator == s.accumulator,
{
}

/// TXS after TSX leaves SP as it was, TSX after TXS leaves X as it was,
/// and TXS changes no flag.
pub proof fn law_stack_pointer_round_trip(s: CpuState)
    ensures
        isa::operate(Op::TXS, isa::operate(Op::TSX, s)).stack_ptr == s.stack_ptr,
        isa::operate(Op::TSX, isa::operate(Op::TXS, s)).x_reg == s.x_reg,
        isa::operate(Op::TXS, s).status_reg == s.status_reg,
{
}

/// The carry as a number.
pub open spec fn carry_of(c: bool) -> int {
    if c {
        1
    } else {
        0
    }
}

/// Subtracting what was added gives the first operand back, where the
/// subtraction borrows exactly when the addition had a carry coming in.
pub proof fn law_add_then_subtract(a: u8, b: u8, c: bool)
    ensures
        isa::add_value(
            isa::add_value(a, b, carry_of(c)),
            isa::complement(b),
            carry_of(!c),
        ) == a,
{
}

/// The same over the operations: SBC after ADC, with the carry flag set
/// to the opposite of what it was before the ADC, restores A, where the
/// operand is not A itself.
pub proof fn law_adc_then_sbc(s: CpuState)
    requires
        mode_of(s.opcode) != AddrMode::ACC,
    ensures
        isa::op_sbc(
            isa::set_flag(isa::op_adc(s), Flags6502::C, !flag_set(s.status_reg, Flags6502::C)),
        ).accumulator == s.accumulator,
{
    let c = flag_set(s.status_reg, Flags6502::C);
    let t = isa::op_adc(s);
    let u = isa::set_flag(t, Flags6502::C, !c);
    lemma_flag_written(t.status_reg, Flags6502::C, !c);
    assert(u.operand() == s.operand());
    law_add_then_subtract(s.accumulator, s.operand(), c);
}

/// The overflow flag of an addition says that the sum of the operands,
/// read as signed bytes, with the carry, does not fit a signed byte.
pub proof fn law_add_overflow_is_signed_overflow(a: u8, m: u8, c: bool)
    ensures
        isa::add_overflow(a, m, carry_of(c)) == !(-128 <= crate::state::signed8(a)
            + crate::state::signed8(m) + carry_of(c) <= 127),
{
}

/// Indirect addressing through a pointer in the last byte of a page
/// reads the high byte of the address from the start of that page, not
/// from the next page.
pub proof fn law_indirect_page_wrap(s: CpuState)
    requires
        s.operand_word() % 256 == 0xFF,
    ensures
        isa::am_ind(s).addr_abs == word(
            s.read(s.operand_word()),
            s.read((s.operand_word() - 0xFF) as u16),
        ),
        (s.operand_word() - 0xFF) as u16 == s.operand_word() & 0xFF00,
{
    let ptr = s.operand_word();
    assert(ptr & 0xFF00 == (ptr - 0xFF) as u16) by (bit_vector)
        requires
            ptr % 256 == 0xFF,
    ;
}

/// The cycles of a branch: its base cycles where it is not taken, one
/// more where it is taken within the page of the next instruction, two
/// more where it is taken into another page.
#[verifier::rlimit(50)]
pub proof fn law_branch_cycles(s: CpuState)
    requires
        is_branch(instruction_at(s.opcode).op),
        s.cycles == instruction_at(s.opcode).cycles,
    ensures
        ({
            let ins = instruction_at(s.opcode);
            let next = add16(s.prog_ctr, 1);
            let target = isa::am_rel(s).addr_abs;
            isa::execute(s).cycles == (if !isa::branch_taken(ins.op, s.status_reg) {
                ins.cycles as int
            } else if same_page(target, next) {
                ins.cycles + 1
            } else {
                ins.cycles + 2
            })
        }),
{
    let ins = instruction_at(s.opcode);
    crate::instruction::lemma_instruction_bounds(s.opcode);
    assert(ins.mode == AddrMode::REL);
    let t = isa::address(ins.mode, s);
    assert(t == isa::am_rel(s));
    assert(!isa::page_crossed(ins.mode, s));
    lemma_branch_is_branch(ins.op, t);
    assert(isa::page_penalty(s) == 0);
}

/// Each of the eight branch operations is a branch on its own condition.
proof fn lemma_branch_is_branch(op: Op, s: CpuState)
    requires
        is_branch(op),
    ensures
        isa::operate(op, s) == isa::branch(s, isa::branch_taken(op, s.status_reg)),
{
}

/// Working out an operand address writes nothing.
pub proof fn law_address_keeps_bus(mode: AddrMode, s: CpuState)
    ensures
        isa::address(mode, s).bus == s.bus,
{
}

/// An operation keeps the memories behind the bus at their size.
#[verifier::rlimit(50)]
pub proof fn law_operate_keeps_wf(op: Op, s: CpuState)
    requires
        s.wf(),
    ensures
        isa::operate(op, s).wf(),
{
    assert(forall|b: BusState, addr: u16, data: u8| b.wf() ==> (#[trigger] b.write(addr, data)).wf());
    if op == Op::BRK {
        let t = CpuState { prog_ctr: add16(s.prog_ctr, 1), ..s };
        law_interrupt_stack(t, 0xFFFE, 7, true);
    }
}

/// One clock cycle keeps the memories behind the bus at their size.
pub proof fn law_clock_keeps_wf(s: CpuState)
    requires
        s.wf(),
    ensures
        isa::clock(s).wf(),
{
    if s.cycles == 0 && !isa::halts_on(s, s.read(s.prog_ctr)) {
        let started = isa::start_instruction(s);
        let ins = instruction_at(started.opcode);
        law_address_keeps_bus(ins.mode, started);
        law_operate_keeps_wf(ins.op, isa::address(ins.mode, started));
    }
}

/// A register field of a trace line: its label, a colon, and two
/// hexadecimal digits.
pub open spec fn register_field(label: Seq<char>, value: u8) -> Seq<char> {
    label + ":"@ + isa::hex2(value)
}

/// The words of the register part of a trace line are its five fields.
proof fn lemma_register_words(a: u8, x: u8, y: u8, p: u8, sp: u8)
    ensures
        ({
            let part = "\t\tA:"@ + isa::hex2(a) + " X:"@ + isa::hex2(x) + " Y:"@ + isa::hex2(y)
                + " P:"@ + isa::hex2(p) + " SP:"@ + isa::hex2(sp) + "\n"@;
            &&& part.len() > 0
            &&& crate::text::is_space(part[0])
            &&& words(part) == seq![
                register_field("A"@, a),
                register_field("X"@, x),
                register_field("Y"@, y),
                register_field("P"@, p),
                register_field("SP"@, sp),
            ]
        }),
{
    reveal_strlit("\t\tA:");
    reveal_strlit(" X:");
    reveal_strlit(" Y:");
    reveal_strlit(" P:");
    reveal_strlit(" SP:");
    reveal_strlit("\n");
    reveal_strlit("A");
    reveal_strlit("X");
    reveal_strlit("Y");
    reveal_strlit("P");
    reveal_strlit("SP");
    reveal_strlit(":");
    lemma_hex_upper_is_a_word(seq![a]);
    lemma_hex_upper_is_a_word(seq![x]);
    lemma_hex_upper_is_a_word(seq![y]);
    lemma_hex_upper_is_a_word(seq![p]);
    lemma_hex_upper_is_a_word(seq![sp]);
    let part = "\t\tA:"@ + isa::hex2(a) + " X:"@ + isa::hex2(x) + " Y:"@ + isa::hex2(y) + " P:"@
        + isa::hex2(p) + " SP:"@ + isa::hex2(sp) + "\n"@;
    let tabs = seq!['\t', '\t'];
    let gap = seq![' '];
    let end = seq!['\n'];
    let wa = register_field("A"@, a);
    let wx = register_field("X"@, x);
    let wy = register_field("Y"@, y);
    let wp = register_field("P"@, p);
    let ws = register_field("SP"@, sp);
    let from_s = ws + end;
    let from_p = wp + (gap + from_s);
    let from_y = wy + (gap + from_p);
    let from_x = wx + (gap + from_y);
    let from_a = wa + (gap + from_x);
    assert(part =~= tabs + from_a);
    assert(blank(tabs));
    assert(blank(gap));
    assert(blank(end));
    assert(spaceless(wa));
    assert(spaceless(wx));
    assert(spaceless(wy));
    assert(spaceless(wp));
    assert(spaceless(ws));
    lemma_words_after_blank(tabs, from_a);
    lemma_words_word_blank_rest(wa, gap, from_x);
    lemma_words_word_blank_rest(wx, gap, from_y);
    lemma_words_word_blank_rest(wy, gap, from_p);
    lemma_words_word_blank_rest(wp, gap, from_s);
    lemma_words_split(ws, end);
    lemma_words_of_word(ws);
    assert(end + Seq::<char>::empty() =~= end);
    lemma_words_after_blank(end, Seq::<char>::empty());
    assert(words(Seq::<char>::empty()) == Seq::<Seq<char>>::empty());
    assert(words(from_s) =~= seq![ws]);
    assert(words(from_p) =~= seq![wp, ws]);
    assert(words(from_y) =~= seq![wy, wp, ws]);
    assert(words(from_x) =~= seq![wx, wy, wp, ws]);
    assert(words(from_a) =~= seq![wa, wx, wy, wp, ws]);
}

/// What is traced is what is parsed: the fields that `parse_my_line`
/// reads from the trace line of a state are that state's PC and its
/// five registers, whatever the instruction.
pub proof fn law_trace_line_fields(s: CpuState)
    ensures
        my_fields(isa::trace_line(s)) == Some(
            LoglineFields {
                prog_ctr: isa::hex4(s.prog_ctr),
                accumulator: register_field("A"@, s.accumulator),
                x_reg: register_field("X"@, s.x_reg),
                y_reg: register_field("Y"@, s.y_reg),
                status_reg: register_field("P"@, s.status_reg),
                stack_ptr: register_field("SP"@, s.stack_ptr),
            },
        ),
{
    reveal_strlit(" ");
    let ins = instruction_at(s.opcode);
    let pc = isa::hex4(s.prog_ctr);
    let gap = seq![' '];
    let rest = crate::instruction::mnemonic(ins.op) + " "@ + isa::operand_text(
        ins.num_bytes,
        1,
        s.read(add16(s.prog_ctr, 1)),
    ) + " "@ + isa::operand_text(ins.num_bytes, 2, s.read(add16(s.prog_ctr, 2)));
    let registers = "\t\tA:"@ + isa::hex2(s.accumulator) + " X:"@ + isa::hex2(s.x_reg) + " Y:"@
        + isa::hex2(s.y_reg) + " P:"@ + isa::hex2(s.status_reg) + " SP:"@ + isa::hex2(s.stack_ptr)
        + "\n"@;
    let head = pc + (gap + rest);
    lemma_register_words(s.accumulator, s.x_reg, s.y_reg, s.status_reg, s.stack_ptr);
    lemma_hex_upper_is_a_word(seq![hi_byte(s.prog_ctr), lo_byte(s.prog_ctr)]);
    assert(isa::trace_line(s) =~= head + registers);
    assert(blank(gap));
    lemma_words_word_blank_rest(pc, gap, rest);
    lemma_words_split(head, registers);
    let w = words(isa::trace_line(s));
    assert(w == words(head) + words(registers));
    assert(words(head)[0] == pc);
    assert(w.len() == words(head).len() + 5);
    assert(w[0] == pc);
}

} // verus!
