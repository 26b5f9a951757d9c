//! The operations of the 56 documented instructions. Each returns 1
//! where the operation takes a cycle more after a page crossing.

use vstd::prelude::*;
use crate::bus::make_word;
use crate::flags::{pull_status, push_status, read_flag, write_flag, write_zn, Flags6502};
use crate::instruction::{page_sensitive, Op};
use crate::isa;
use crate::olc6502::{high_byte, low_byte, Olc6502};

verus! {

/// Adds `data` and the carry to A, and sets C, Z, N and V.
pub fn add_with_carry(o: &mut Olc6502, data: u8)
    ensures
        final(o)@ == isa::add_to_a(old(o)@, data),
{
    let a: u16 = o.accumulator as u16;
    let m: u16 = data as u16;
    let flag_c: u16 = o.get_flag(Flags6502::C) as u16;
    let sum: u16 = a + m + flag_c;
    assert({
        &&& (sum & 0xFF00 > 0) == (sum > 0xFF)
        &&& (sum & 0x00FF) == sum % 256
        &&& ((!(a ^ m) & (a ^ sum) & 0x0080) != 0) == ((a >= 0x80) == (m >= 0x80) && (sum % 256
            >= 0x80) != (a >= 0x80))
    }) by (bit_vector)
        requires
            a < 0x100,
            m < 0x100,
            flag_c <= 1,
            sum == a + m + flag_c,
    ;
    let value = (sum & 0x00FF) as u8;
    let carried = write_flag(o.status_reg, Flags6502::C, sum & 0xFF00 > 0);
    let described = write_zn(carried, value);
    o.status_reg = write_flag(described, Flags6502::V, (!(a ^ m) & (a ^ sum) & 0x0080) != 0);
    o.accumulator = value;
}

/// Add memory to accumulator with carry.
#[allow(non_snake_case)]
pub fn ADC(o: &mut Olc6502) -> (extra: u8)
    ensures
        final(o)@ == isa::op_adc(old(o)@),
        extra == 1,
{
    let data = o.fetch();
    add_with_carry(o, data);
    1
}

/// Subtract memory from accumulator with borrow.
#[allow(non_snake_case)]
pub fn SBC(o: &mut Olc6502) -> (extra: u8)
    ensures
        final(o)@ == isa::op_sbc(old(o)@),
        extra == 1,
{
    let data = o.fetch();
    assert(data ^ 0xFF == 0xFF - data) by (bit_vector);
    add_with_carry(o, data ^ 0xFF);
    1
}

/// Replaces A by `value` and sets Z and N.
fn load_a(o: &mut Olc6502, value: u8)
    ensures
        final(o)@ == isa::load_a(old(o)@, value),
{
    o.accumulator = value;
    o.status_reg = write_zn(o.status_reg, value);
}

/// Replaces X by `value` and sets Z and N.
fn load_x(o: &mut Olc6502, value: u8)
    ensures
        final(o)@ == isa::load_x(old(o)@, value),
{
    o.x_reg = value;
    o.status_reg = write_zn(o.status_reg, value);
}

/// Replaces Y by `value` and sets Z and N.
fn load_y(o: &mut Olc6502, value: u8)
    ensures
        final(o)@ == isa::load_y(old(o)@, value),
{
    o.y_reg = value;
    o.status_reg = write_zn(o.status_reg, value);
}

/// "AND" memory with accumulator.
#[allow(non_snake_case)]
pub fn AND(o: &mut Olc6502) -> (extra: u8)
    ensures
        final(o)@ == isa::op_and(old(o)@),
        extra == 1,
{
    let data = o.fetch();
    load_a(o, o.accumulator & data);
    1
}

/// "OR" memory with accumulator.
#[allow(non_snake_case)]
pub fn ORA(o: &mut Olc6502) -> (extra: u8)
    ensures
        final(o)@ == isa::op_ora(old(o)@),
        extra == 1,
{
    let data = o.fetch();
    load_a(o, o.accumulator | data);
    1
}

/// "Exclusive-OR" memory with accumulator.
#[allow(non_snake_case)]
pub fn EOR(o: &mut Olc6502) -> (extra: u8)
    ensures
        final(o)@ == isa::op_eor(old(o)@),
        extra == 1,
{
    let data = o.fetch();
    load_a(o, o.accumulator ^ data);
    1
}

/// Sets C, Z and N after a shift or rotate and stores its result.
fn finish_shift(o: &mut Olc6502, carry: bool, result: u8)
    ensures
        final(o)@ == (crate::state::CpuState {
            status_reg: isa::shifted(old(o).status_reg, carry, result),
            ..old(o)@
        }).store_result(result),
{
    o.status_reg = write_zn(write_flag(o.status_reg, Flags6502::C, carry), result);
    o.store_result(result);
}

/// Shift left one bit (memory or accumulator).
#[allow(non_snake_case)]
pub fn ASL(o: &mut Olc6502) -> (extra: u8)
    ensures
        final(o)@ == isa::op_asl(old(o)@),
        extra == 0,
{
    let data = o.fetch();
    assert((data << 1u8) == (data * 2) % 256 && (data & 0x80 != 0) == (data >= 0x80))
        by (bit_vector);
    finish_shift(o, data & 0x80 != 0, data << 1u8);
    0
}

/// Shift one bit right (memory or accumulator).
#[allow(non_snake_case)]
pub fn LSR(o: &mut Olc6502) -> (extra: u8)
    ensures
        final(o)@ == isa::op_lsr(old(o)@),
        extra == 0,
{
    let data = o.fetch();
    assert((data >> 1u8) == data / 2 && (data & 0x01 != 0) == (data % 2 == 1)) by (bit_vector);
    finish_shift(o, data & 0x01 != 0, data >> 1u8);
    0
}

/// Rotate one bit left (memory or accumulator).
#[allow(non_snake_case)]
pub fn ROL(o: &mut Olc6502) -> (extra: u8)
    ensures
        final(o)@ == isa::op_rol(old(o)@),
        extra == 0,
{
    let data = o.fetch();
    let flag_c = o.get_flag(Flags6502::C);
    assert(((data << 1u8) | flag_c) == (data * 2) % 256 + flag_c && (data & 0x80 != 0) == (data
        >= 0x80)) by (bit_vector)
        requires
            flag_c <= 1,
    ;
    finish_shift(o, data & 0x80 != 0, (data << 1u8) | flag_c);
    0
}

/// Rotate one bit right (memory or accumulator).
#[allow(non_snake_case)]
pub fn ROR(o: &mut Olc6502) -> (extra: u8)
    ensures
        final(o)@ == isa::op_ror(old(o)@),
        extra == 0,
{
    let data = o.fetch();
    let flag_c = o.get_flag(Flags6502::C);
    assert(((data >> 1u8) | (flag_c << 7u8)) == data / 2 + 128 * flag_c && (data & 0x01 != 0) == (
    data % 2 == 1)) by (bit_vector)
        requires
            flag_c <= 1,
    ;
    finish_shift(o, data & 0x01 != 0, (data >> 1u8) | (flag_c << 7u8));
    0
}

/// Takes a branch: PC moves to the target, at the cost of one cycle, or
/// two where the target lies in another page.
pub fn perform_jump(o: &mut Olc6502)
    ensures
        final(o)@ == isa::branch(old(o)@, true),
{
    o.cycles = o.cycles.wrapping_add(1);
    if high_byte(o.addr_abs) != high_byte(o.prog_ctr) {
        o.cycles = o.cycles.wrapping_add(1);
    }
    o.prog_ctr = o.addr_abs;
}

/// Branch on carry clear.
#[allow(non_snake_case)]
pub fn BCC(o: &mut Olc6502) -> (extra: u8)
    ensures
        final(o)@ == isa::branch(old(o)@, isa::branch_taken(Op::BCC, old(o).status_reg)),
        extra == 0,
{
    if o.get_flag(Flags6502::C) == 0 {
        perform_jump(o);
    }
    0
}

/// Branch on carry set.
#[allow(non_snake_case)]
pub fn BCS(o: &mut Olc6502) -> (extra: u8)
    ensures
        final(o)@ == isa::branch(old(o)@, isa::branch_taken(Op::BCS, old(o).status_reg)),
        extra == 0,
{
    if o.get_flag(Flags6502::C) == 1 {
        perform_jump(o);
    }
    0
}

/// Branch on result zero.
#[allow(non_snake_case)]
pub fn BEQ(o: &mut Olc6502) -> (extra: u8)
    ensures
        final(o)@ == isa::branch(old(o)@, isa::branch_taken(Op::BEQ, old(o).status_reg)),
        extra == 0,
{
    if o.get_flag(Flags6502::Z) == 1 {
        perform_jump(o);
    }
    0
}

/// Branch on result not zero.
#[allow(non_snake_case)]
pub fn BNE(o: &mut Olc6502) -> (extra: u8)
    ensures
        final(o)@ == isa::branch(old(o)@, isa::branch_taken(Op::BNE, old(o).status_reg)),
        extra == 0,
{
    if o.get_flag(Flags6502::Z) == 0 {
        perform_jump(o);
    }
    0
}

/// Branch on result minus.
#[allow(non_snake_case)]
pub fn BMI(o: &mut Olc6502) -> (extra: u8)
    ensures
        final(o)@ == isa::branch(old(o)@, isa::branch_taken(Op::BMI, old(o).status_reg)),
        extra == 0,
{
    if o.get_flag(Flags6502::N) == 1 {
        perform_jump(o);
    }
    0
}

/// Branch on result plus.
#[allow(non_snake_case)]
pub fn BPL(o: &mut Olc6502) -> (extra: u8)
    ensures
        final(o)@ == isa::branch(old(o)@, isa::branch_taken(Op::BPL, old(o).status_reg)),
        extra == 0,
{
    if o.get_flag(Flags6502::N) == 0 {
        perform_jump(o);
    }
    0
}

/// Branch on overflow clear.
#[allow(non_snake_case)]
pub fn BVC(o: &mut Olc6502) -> (extra: u8)
    ensures
        final(o)@ == isa::branch(old(o)@, isa::branch_taken(Op::BVC, old(o).status_reg)),
        extra == 0,
{
    if o.get_flag(Flags6502::V) == 0 {
        perform_jump(o);
    }
    0
}

/// Branch on overflow set.
#[allow(non_snake_case)]
pub fn BVS(o: &mut Olc6502) -> (extra: u8)
    ensures
        final(o)@ == isa::branch(old(o)@, isa::branch_taken(Op::BVS, old(o).status_reg)),
        extra == 0,
{
    if o.get_flag(Flags6502::V) == 1 {
        perform_jump(o);
    }
    0
}

/// Test bits in memory with accumulator.
#[allow(non_snake_case)]
pub fn BIT(o: &mut Olc6502) -> (extra: u8)
    ensures
        final(o)@ == isa::op_bit(old(o)@),
        extra == 0,
{
    let fetched = o.fetch();
    let data = o.accumulator & fetched;
    o.set_flag(Flags6502::Z, data == 0);
    o.set_flag(Flags6502::N, read_flag(fetched, Flags6502::N) == 1);
    o.set_flag(Flags6502::V, read_flag(fetched, Flags6502::V) == 1);
    0
}

/// Force break: a software interrupt through the vector at `0xFFFE`.
#[allow(non_snake_case)]
pub fn BRK(o: &mut Olc6502) -> (extra: u8)
    ensures
        final(o)@ == isa::op_brk(old(o)@),
        extra == 0,
{
    o.prog_ctr = o.prog_ctr.wrapping_add(1);
    o.run_interrupt(0xFFFE, 7, true);
    0
}

/// Clear carry flag.
#[allow(non_snake_case)]
pub fn CLC(o: &mut Olc6502) -> (extra: u8)
    ensures
        final(o)@ == isa::set_flag(old(o)@, Flags6502::C, false),
        extra == 0,
{
    o.set_flag(Flags6502::C, false);
    0
}

/// Clear decimal mode.
#[allow(non_snake_case)]
pub fn CLD(o: &mut Olc6502) -> (extra: u8)
    ensures
        final(o)@ == isa::set_flag(old(o)@, Flags6502::D, false),
        extra == 0,
{
    o.set_flag(Flags6502::D, false);
    0
}

/// Clear interrupt disable bit.
#[allow(non_snake_case)]
pub fn CLI(o: &mut Olc6502) -> (extra: u8)
    ensures
        final(o)@ == isa::set_flag(old(o)@, Flags6502::I, false),
        extra == 0,
{
    o.set_flag(Flags6502::I, false);
    0
}

/// Clear overflow flag.
#[allow(non_snake_case)]
pub fn CLV(o: &mut Olc6502) -> (extra: u8)
    ensures
        final(o)@ == isa::set_flag(old(o)@, Flags6502::V, false),
        extra == 0,
{
    o.set_flag(Flags6502::V, false);
    0
}

/// Set carry flag.
#[allow(non_snake_case)]
pub fn SEC(o: &mut Olc6502) -> (extra: u8)
    ensures
        final(o)@ == isa::set_flag(old(o)@, Flags6502::C, true),
        extra == 0,
{
    o.set_flag(Flags6502::C, true);
    0
}

/// Set decimal mode.
#[allow(non_snake_case)]
pub fn SED(o: &mut Olc6502) -> (extra: u8)
    ensures
        final(o)@ == isa::set_flag(old(o)@, Flags6502::D, true),
        extra == 0,
{
    o.set_flag(Flags6502::D, true);
    0
}

/// Set interrupt disable status.
#[allow(non_snake_case)]
pub fn SEI(o: &mut Olc6502) -> (extra: u8)
    ensures
        final(o)@ == isa::set_flag(old(o)@, Flags6502::I, true),
        extra == 0,
{
    o.set_flag(Flags6502::I, true);
    0
}

/// Compares `reg` with memory: C where `reg` is not below it, Z where
/// they are equal, N from bit 7 of the difference.
pub fn compare_register(o: &mut Olc6502, reg: u8)
    ensures
        final(o)@ == isa::compare(old(o)@, reg),
{
    let data = o.fetch();
    let sub_result = reg.wrapping_sub(data);
    o.set_flag(Flags6502::C, reg >= data);
    o.set_flag(Flags6502::Z, reg == data);
    o.set_flag(Flags6502::N, sub_result >= 0x80);
}

/// Compare memory and accumulator.
#[allow(non_snake_case)]
pub fn CMP(o: &mut Olc6502) -> (extra: u8)
    ensures
        final(o)@ == isa::compare(old(o)@, old(o).accumulator),
        extra == 1,
{
    compare_register(o, o.accumulator);
    1
}

/// Compare memory and index X.
#[allow(non_snake_case)]
pub fn CPX(o: &mut Olc6502) -> (extra: u8)
    ensures
        final(o)@ == isa::compare(old(o)@, old(o).x_reg),
        extra == 1,
{
    compare_register(o, o.x_reg);
    1
}

/// Compare memory and index Y.
#[allow(non_snake_case)]
pub fn CPY(o: &mut Olc6502) -> (extra: u8)
    ensures
        final(o)@ == isa::compare(old(o)@, old(o).y_reg),
        extra == 1,
{
    compare_register(o, o.y_reg);
    1
}

/// Replaces the operand in memory by `result` and sets Z and N.
fn modify_memory(o: &mut Olc6502, result: u8)
    ensures
        final(o)@ == (crate::state::CpuState {
            status_reg: crate::flags::with_zn(old(o).status_reg, result),
            ..old(o)@
        }).write(old(o).addr_abs, result),
{
    o.status_reg = write_zn(o.status_reg, result);
    o.bus.write(o.addr_abs, result);
}

/// Decrement memory by one.
#[allow(non_snake_case)]
pub fn DEC(o: &mut Olc6502) -> (extra: u8)
    ensures
        final(o)@ == isa::op_dec(old(o)@),
        extra == 0,
{
    let data = o.fetch();
    modify_memory(o, data.wrapping_sub(1));
    0
}

/// Increment memory by one.
#[allow(non_snake_case)]
pub fn INC(o: &mut Olc6502) -> (extra: u8)
    ensures
        final(o)@ == isa::op_inc(old(o)@),
        extra == 0,
{
    let data = o.fetch();
    modify_memory(o, data.wrapping_add(1));
    0
}

/// Decrement index X by one.
#[allow(non_snake_case)]
pub fn DEX(o: &mut Olc6502) -> (extra: u8)
    ensures
        final(o)@ == isa::load_x(old(o)@, crate::state::dec8(old(o).x_reg)),
        extra == 0,
{
    load_x(o, o.x_reg.wrapping_sub(1));
    0
}

/// Decrement index Y by one.
#[allow(non_snake_case)]
pub fn DEY(o: &mut Olc6502) -> (extra: u8)
    ensures
        final(o)@ == isa::load_y(old(o)@, crate::state::dec8(old(o).y_reg)),
        extra == 0,
{
    load_y(o, o.y_reg.wrapping_sub(1));
    0
}

/// Increment index X by one.
#[allow(non_snake_case)]
pub fn INX(o: &mut Olc6502) -> (extra: u8)
    ensures
        final(o)@ == isa::load_x(old(o)@, crate::state::inc8(old(o).x_reg)),
        extra == 0,
{
    load_x(o, o.x_reg.wrapping_add(1));
    0
}

/// Increment index Y by one.
#[allow(non_snake_case)]
pub fn INY(o: &mut Olc6502) -> (extra: u8)
    ensures
        final(o)@ == isa::load_y(old(o)@, crate::state::inc8(old(o).y_reg)),
        extra == 0,
{
    load_y(o, o.y_reg.wrapping_add(1));
    0
}

/// Jump to new location.
#[allow(non_snake_case)]
pub fn JMP(o: &mut Olc6502) -> (extra: u8)
    ensures
        final(o)@ == isa::op_jmp(old(o)@),
        extra == 0,
{
    o.prog_ctr = o.addr_abs;
    0
}

/// Jump to new location saving return address.
#[allow(non_snake_case)]
pub fn JSR(o: &mut Olc6502) -> (extra: u8)
    ensures
        final(o)@ == isa::op_jsr(old(o)@),
        extra == 0,
{
    let temp = o.prog_ctr.wrapping_sub(1);
    o.push_to_stack(high_byte(temp));
    o.push_to_stack(low_byte(temp));
    o.prog_ctr = o.addr_abs;
    0
}

/// Load accumulator with memory.
#[allow(non_snake_case)]
pub fn LDA(o: &mut Olc6502) -> (extra: u8)
    ensures
        final(o)@ == isa::load_a(old(o)@.fetch(), old(o)@.operand()),
        extra == 1,
{
    let data = o.fetch();
    load_a(o, data);
    1
}

/// Load index X with memory.
#[allow(non_snake_case)]
pub fn LDX(o: &mut Olc6502) -> (extra: u8)
    ensures
        final(o)@ == isa::load_x(old(o)@.fetch(), old(o)@.operand()),
        extra == 1,
{
    let data = o.fetch();
    load_x(o, data);
    1
}

/// Load index Y with memory.
#[allow(non_snake_case)]
pub fn LDY(o: &mut Olc6502) -> (extra: u8)
    ensures
        final(o)@ == isa::load_y(old(o)@.fetch(), old(o)@.operand()),
        extra == 1,
{
    let data = o.fetch();
    load_y(o, data);
    1
}

/// No operation.
#[allow(non_snake_case)]
pub fn NOP(o: &mut Olc6502) -> (extra: u8)
    ensures
        *final(o) == *old(o),
        extra == 0,
{
    0
}

/// Push accumulator on stack.
#[allow(non_snake_case)]
pub fn PHA(o: &mut Olc6502) -> (extra: u8)
    ensures
        final(o)@ == isa::op_pha(old(o)@),
        extra == 0,
{
    o.push_to_stack(o.accumulator);
    0
}

/// Push processor status on stack, with B and U set in the pushed byte.
#[allow(non_snake_case)]
pub fn PHP(o: &mut Olc6502) -> (extra: u8)
    ensures
        final(o)@ == isa::op_php(old(o)@),
        extra == 0,
{
    let sr_copy = push_status(o.status_reg, true);
    o.push_to_stack(sr_copy);
    0
}

/// Pull accumulator from stack.
#[allow(non_snake_case)]
pub fn PLA(o: &mut Olc6502) -> (extra: u8)
    ensures
        final(o)@ == isa::op_pla(old(o)@),
        extra == 0,
{
    let data = o.pop_from_stack();
    load_a(o, data);
    0
}

/// Pull processor status from stack. Bits 4 and 5 of the register stay.
#[allow(non_snake_case)]
pub fn PLP(o: &mut Olc6502) -> (extra: u8)
    ensures
        final(o)@ == isa::op_plp(old(o)@),
        extra == 0,
{
    let temp = o.pop_from_stack();
    o.status_reg = pull_status(o.status_reg, temp);
    0
}

/// Return from interrupt.
#[allow(non_snake_case)]
pub fn RTI(o: &mut Olc6502) -> (extra: u8)
    ensures
        final(o)@ == isa::op_rti(old(o)@),
        extra == 0,
{
    let temp = o.pop_from_stack();
    o.status_reg = pull_status(o.status_reg, temp);
    let lo = o.pop_from_stack();
    let hi = o.pop_from_stack();
    o.prog_ctr = make_word(lo, hi);
    0
}

/// Return from subroutine.
#[allow(non_snake_case)]
pub fn RTS(o: &mut Olc6502) -> (extra: u8)
    ensures
        final(o)@ == isa::op_rts(old(o)@),
        extra == 0,
{
    let lo = o.pop_from_stack();
    let hi = o.pop_from_stack();
    o.prog_ctr = make_word(lo, hi).wrapping_add(1);
    0
}

/// Store accumulator in memory.
#[allow(non_snake_case)]
pub fn STA(o: &mut Olc6502) -> (extra: u8)
    ensures
        final(o)@ == old(o)@.write(old(o).addr_abs, old(o).accumulator),
        extra == 0,
{
    o.bus.write(o.addr_abs, o.accumulator);
    0
}

/// Store index X in memory.
#[allow(non_snake_case)]
pub fn STX(o: &mut Olc6502) -> (extra: u8)
    ensures
        final(o)@ == old(o)@.write(old(o).addr_abs, old(o).x_reg),
        extra == 0,
{
    o.bus.write(o.addr_abs, o.x_reg);
    0
}

/// Store index Y in memory.
#[allow(non_snake_case)]
pub fn STY(o: &mut Olc6502) -> (extra: u8)
    ensures
        final(o)@ == old(o)@.write(old(o).addr_abs, old(o).y_reg),
        extra == 0,
{
    o.bus.write(o.addr_abs, o.y_reg);
    0
}

/// Transfer accumulator to index X.
#[allow(non_snake_case)]
pub fn TAX(o: &mut Olc6502) -> (extra: u8)
    ensures
        final(o)@ == isa::load_x(old(o)@, old(o).accumulator),
        extra == 0,
{
    load_x(o, o.accumulator);
    0
}

/// Transfer accumulator to index Y.
#[allow(non_snake_case)]
pub fn TAY(o: &mut Olc6502) -> (extra: u8)
    ensures
        final(o)@ == isa::load_y(old(o)@, old(o).accumulator),
        extra == 0,
{
    load_y(o, o.accumulator);
    0
}

/// Transfer stack pointer to index X.
#[allow(non_snake_case)]
pub fn TSX(o: &mut Olc6502) -> (extra: u8)
    ensures
        final(o)@ == isa::load_x(old(o)@, old(o).stack_ptr),
        extra == 0,
{
    load_x(o, o.stack_ptr);
    0
}

/// Transfer index X to accumulator.
#[allow(non_snake_case)]
pub fn TXA(o: &mut Olc6502) -> (extra: u8)
    ensures
        final(o)@ == isa::load_a(old(o)@, old(o).x_reg),
        extra == 0,
{
    load_a(o, o.x_reg);
    0
}

/// Transfer index X to stack register. No flag changes.
#[allow(non_snake_case)]
pub fn TXS(o: &mut Olc6502) -> (extra: u8)
    ensures
        final(o)@ == isa::op_txs(old(o)@),
        extra == 0,
{
    o.stack_ptr = o.x_reg;
    0
}

/// Transfer index Y to accumulator.
#[allow(non_snake_case)]
pub fn TYA(o: &mut Olc6502) -> (extra: u8)
    ensures
        final(o)@ == isa::load_a(old(o)@, old(o).y_reg),
        extra == 0,
{
    load_a(o, o.y_reg);
    0
}

/// An undocumented opcode: nothing happens.
#[allow(non_snake_case)]
pub fn XXX(o: &mut Olc6502) -> (extra: u8)
    ensures
        *final(o) == *old(o),
        extra == 0,
{
    0
}

/// Carries out `op`. Returns 1 where `op` takes a cycle more when its
/// operand address crossed a page.
pub fn operate(o: &mut Olc6502, op: Op) -> (extra: u8)
    ensures
        final(o)@ == isa::operate(op, old(o)@),
        extra == (if page_sensitive(op) {
            1u8
        } else {
            0u8
        }),
{
    proof {
    }
    match op {
        Op::ADC => ADC(o),
        Op::AND => AND(o),
        Op::ASL => ASL(o),
        Op::BCC => BCC(o),
        Op::BCS => BCS(o),
        Op::BEQ => BEQ(o),
        Op::BIT => BIT(o),
        Op::BMI => BMI(o),
        Op::BNE => BNE(o),
        Op::BPL => BPL(o),
        Op::BRK => BRK(o),
        Op::BVC => BVC(o),
        Op::BVS => BVS(o),
        Op::CLC => CLC(o),
        Op::CLD => CLD(o),
        Op::CLI => CLI(o),
        Op::CLV => CLV(o),
        Op::CMP => CMP(o),
        Op::CPX => CPX(o),
        Op::CPY => CPY(o),
        Op::DEC => DEC(o),
        Op::DEX => DEX(o),
        Op::DEY => DEY(o),
        Op::EOR => EOR(o),
        Op::INC => INC(o),
        Op::INX => INX(o),
        Op::INY => INY(o),
        Op::JMP => JMP(o),
        Op::JSR => JSR(o),
        Op::LDA => LDA(o),
        Op::LDX => LDX(o),
        Op::LDY => LDY(o),
        Op::LSR => LSR(o),
        Op::NOP => NOP(o),
        Op::ORA => ORA(o),
        Op::PHA => PHA(o),
        Op::PHP => PHP(o),
        Op::PLA => PLA(o),
        Op::PLP => PLP(o),
        Op::ROL => ROL(o),
        Op::ROR => ROR(o),
        Op::RTI => RTI(o),
        Op::RTS => RTS(o),
        Op::SBC => SBC(o),
        Op::SEC => SEC(o),
        Op::SED => SED(o),
        Op::SEI => SEI(o),
        Op::STA => STA(o),
        Op::STX => STX(o),
        Op::STY => STY(o),
        Op::TAX => TAX(o),
        Op::TAY => TAY(o),
        Op::TSX => TSX(o),
        Op::TXA => TXA(o),
        Op::TXS => TXS(o),
        Op::TYA => TYA(o),
        Op::XXX => XXX(o),
    }
}

} // verus!
