//! What the processor does, as functions on abstract states: the
//! addressing modes, the operations, interrupts, reset, the trace line
//! and the clock.

use vstd::prelude::*;
use crate::bus::word;
use crate::error::NesError;
use crate::flags::{flag_set, pulled_status, pushed_status, with_flag, with_zn, Flags6502};
use crate::instruction::{instruction_at, is_branch, mnemonic, page_sensitive, AddrMode, Op};
use crate::state::{
    add16,
    dec8,
    hi_byte,
    inc8,
    lo_byte,
    same_page,
    signed8,
    CpuState,
};
use crate::text::hex_upper;

verus! {

// ---------------------------------------------------------------------
// Addressing modes
// ---------------------------------------------------------------------
/// Accumulator: the operand is A.
pub open spec fn am_acc(s: CpuState) -> CpuState {
    CpuState { fetched_data: s.accumulator, ..s }
}

/// Immediate: the operand is the byte at PC.
pub open spec fn am_imm(s: CpuState) -> CpuState {
    CpuState { addr_abs: s.prog_ctr, prog_ctr: add16(s.prog_ctr, 1), ..s }
}

/// Absolute: the operand address is the word at PC.
pub open spec fn am_abs(s: CpuState) -> CpuState {
    CpuState { addr_abs: s.operand_word(), prog_ctr: add16(s.prog_ctr, 2), ..s }
}

/// Zero page: the operand address is the byte at PC.
pub open spec fn am_zp0(s: CpuState) -> CpuState {
    CpuState { addr_abs: s.read(s.prog_ctr) as u16, prog_ctr: add16(s.prog_ctr, 1), ..s }
}

/// The zero-page address `base + index`, which wraps within page 0.
pub open spec fn zero_page_indexed(base: u8, index: u8) -> u16 {
    ((base + index) % 256) as u16
}

/// Zero page indexed by X.
pub open spec fn am_zpx(s: CpuState) -> CpuState {
    CpuState {
        addr_abs: zero_page_indexed(s.read(s.prog_ctr), s.x_reg),
        prog_ctr: add16(s.prog_ctr, 1),
        ..s
    }
}

/// Zero page indexed by Y.
pub open spec fn am_zpy(s: CpuState) -> CpuState {
    CpuState {
        addr_abs: zero_page_indexed(s.read(s.prog_ctr), s.y_reg),
        prog_ctr: add16(s.prog_ctr, 1),
        ..s
    }
}

/// Absolute indexed by X.
pub open spec fn am_abx(s: CpuState) -> CpuState {
    CpuState {
        addr_abs: add16(s.operand_word(), s.x_reg as int),
        prog_ctr: add16(s.prog_ctr, 2),
        ..s
    }
}

/// Absolute indexed by Y.
pub open spec fn am_aby(s: CpuState) -> CpuState {
    CpuState {
        addr_abs: add16(s.operand_word(), s.y_reg as int),
        prog_ctr: add16(s.prog_ctr, 2),
        ..s
    }
}

/// Relative: the operand address is PC, after the offset byte, plus that
/// byte read as a signed number.
pub open spec fn am_rel(s: CpuState) -> CpuState {
    CpuState {
        addr_abs: add16(add16(s.prog_ctr, 1), signed8(s.read(s.prog_ctr))),
        prog_ctr: add16(s.prog_ctr, 1),
        ..s
    }
}

/// Indexed indirect: the operand address is the word in page 0 at the
/// byte at PC plus X; both of its bytes are looked up within page 0.
pub open spec fn am_izx(s: CpuState) -> CpuState {
    let t = s.read(s.prog_ctr);
    let lo = s.read(((t + s.x_reg) % 256) as u16);
    let hi = s.read(((t + s.x_reg + 1) % 256) as u16);
    CpuState { addr_abs: word(lo, hi), prog_ctr: add16(s.prog_ctr, 1), ..s }
}

/// The word in page 0 at `t`; its high byte is looked up within page 0.
pub open spec fn zero_page_word(s: CpuState, t: u8) -> u16 {
    word(s.read(t as u16), s.read(((t + 1) % 256) as u16))
}

/// Indirect indexed: the operand address is the word in page 0 at the
/// byte at PC, plus Y.
pub open spec fn am_izy(s: CpuState) -> CpuState {
    let base = zero_page_word(s, s.read(s.prog_ctr));
    CpuState { addr_abs: add16(base, s.y_reg as int), prog_ctr: add16(s.prog_ctr, 1), ..s }
}

/// Where indirect addressing reads the high byte of the operand address
/// for the pointer `ptr`: at `ptr + 1`, but at the start of `ptr`'s own
/// page where `ptr` is the last byte of a page.
pub open spec fn indirect_hi_addr(ptr: u16) -> u16 {
    if ptr % 256 == 0xFF {
        (ptr - 0xFF) as u16
    } else {
        (ptr + 1) as u16
    }
}

/// Indirect: the operand address is read through the pointer at PC.
pub open spec fn am_ind(s: CpuState) -> CpuState {
    let ptr = s.operand_word();
    CpuState {
        addr_abs: word(s.read(ptr), s.read(indirect_hi_addr(ptr))),
        prog_ctr: add16(s.prog_ctr, 2),
        ..s
    }
}

/// The state after the operand address was worked out in `mode`.
pub open spec fn address(mode: AddrMode, s: CpuState) -> CpuState {
    match mode {
        AddrMode::IMP => s,
        AddrMode::ACC => am_acc(s),
        AddrMode::IMM => am_imm(s),
        AddrMode::ZP0 => am_zp0(s),
        AddrMode::ZPX => am_zpx(s),
        AddrMode::ZPY => am_zpy(s),
        AddrMode::ABS => am_abs(s),
        AddrMode::ABX => am_abx(s),
        AddrMode::ABY => am_aby(s),
        AddrMode::IND => am_ind(s),
        AddrMode::IZX => am_izx(s),
        AddrMode::IZY => am_izy(s),
        AddrMode::REL => am_rel(s),
    }
}

/// Whether working out the operand address in `mode` crosses a page:
/// whether indexing changes the high byte of the address.
pub open spec fn page_crossed(mode: AddrMode, s: CpuState) -> bool {
    match mode {
        AddrMode::ABX => !same_page(am_abx(s).addr_abs, s.operand_word()),
        AddrMode::ABY => !same_page(am_aby(s).addr_abs, s.operand_word()),
        AddrMode::IZY => !same_page(
            am_izy(s).addr_abs,
            zero_page_word(s, s.read(s.prog_ctr)),
        ),
        _ => false,
    }
}

// ---------------------------------------------------------------------
// Arithmetic
// ---------------------------------------------------------------------
/// The carry flag as a number.
pub open spec fn carry_in(p: u8) -> int {
    if flag_set(p, Flags6502::C) {
        1
    } else {
        0
    }
}

/// The eight-bit result of adding `a`, `m` and the carry `c`.
pub open spec fn add_value(a: u8, m: u8, c: int) -> u8 {
    ((a + m + c) % 256) as u8
}

/// Whether adding `a`, `m` and the carry `c` carries out of bit 7.
pub open spec fn add_carry(a: u8, m: u8, c: int) -> bool {
    a + m + c > 0xFF
}

/// Whether adding `a`, `m` and the carry `c` overflows as a signed sum:
/// the operands have the same sign and the result has the other.
pub open spec fn add_overflow(a: u8, m: u8, c: int) -> bool {
    (a >= 0x80) == (m >= 0x80) && (add_value(a, m, c) >= 0x80) != (a >= 0x80)
}

/// The state after `m` and the carry were added to A.
pub open spec fn add_to_a(s: CpuState, m: u8) -> CpuState {
    let a = s.accumulator;
    let c = carry_in(s.status_reg);
    let value = add_value(a, m, c);
    CpuState {
        accumulator: value,
        status_reg: with_flag(
            with_zn(with_flag(s.status_reg, Flags6502::C, add_carry(a, m, c)), value),
            Flags6502::V,
            add_overflow(a, m, c),
        ),
        ..s
    }
}

/// The one's complement of `m`.
pub open spec fn complement(m: u8) -> u8 {
    (0xFF - m) as u8
}

/// The status byte after `reg` was compared with `m`.
pub open spec fn compared(p: u8, reg: u8, m: u8) -> u8 {
    with_flag(
        with_flag(with_flag(p, Flags6502::C, reg >= m), Flags6502::Z, reg == m),
        Flags6502::N,
        (reg - m) % 256 >= 0x80,
    )
}

/// The status byte after a shift or rotate with carry-out `carry` gave
/// `result`.
pub open spec fn shifted(p: u8, carry: bool, result: u8) -> u8 {
    with_zn(with_flag(p, Flags6502::C, carry), result)
}

// ---------------------------------------------------------------------
// Operations
// ---------------------------------------------------------------------
/// ADC: add memory and carry to A.
pub open spec fn op_adc(s: CpuState) -> CpuState {
    add_to_a(s.fetch(), s.operand())
}

/// SBC: subtract memory and borrow from A, which is adding the one's
/// complement of memory.
pub open spec fn op_sbc(s: CpuState) -> CpuState {
    add_to_a(s.fetch(), complement(s.operand()))
}

/// The state after A was replaced by `value`, with Z and N describing it.
pub open spec fn load_a(s: CpuState, value: u8) -> CpuState {
    CpuState { accumulator: value, status_reg: with_zn(s.status_reg, value), ..s }
}

/// The state after X was replaced by `value`, with Z and N describing it.
pub open spec fn load_x(s: CpuState, value: u8) -> CpuState {
    CpuState { x_reg: value, status_reg: with_zn(s.status_reg, value), ..s }
}

/// The state after Y was replaced by `value`, with Z and N describing it.
pub open spec fn load_y(s: CpuState, value: u8) -> CpuState {
    CpuState { y_reg: value, status_reg: with_zn(s.status_reg, value), ..s }
}

/// AND: A and memory.
pub open spec fn op_and(s: CpuState) -> CpuState {
    load_a(s.fetch(), s.accumulator & s.operand())
}

/// ORA: A or memory.
pub open spec fn op_ora(s: CpuState) -> CpuState {
    load_a(s.fetch(), s.accumulator | s.operand())
}

/// EOR: A exclusive-or memory.
pub open spec fn op_eor(s: CpuState) -> CpuState {
    load_a(s.fetch(), s.accumulator ^ s.operand())
}

/// The state after a shift or rotate of the operand gave `result` with
/// carry-out `carry`.
pub open spec fn shift_result(s: CpuState, carry: bool, result: u8) -> CpuState {
    CpuState { status_reg: shifted(s.status_reg, carry, result), ..s.fetch() }.store_result(
        result,
    )
}

/// ASL: shift left; bit 7 goes to the carry.
pub open spec fn op_asl(s: CpuState) -> CpuState {
    let m = s.operand();
    shift_result(s, m >= 0x80, ((m * 2) % 256) as u8)
}

/// LSR: shift right; bit 0 goes to the carry.
pub open spec fn op_lsr(s: CpuState) -> CpuState {
    let m = s.operand();
    shift_result(s, m % 2 == 1, m / 2)
}

/// ROL: rotate left through the carry.
pub open spec fn op_rol(s: CpuState) -> CpuState {
    let m = s.operand();
    shift_result(s, m >= 0x80, ((m * 2) % 256 + carry_in(s.status_reg)) as u8)
}

/// ROR: rotate right through the carry.
pub open spec fn op_ror(s: CpuState) -> CpuState {
    let m = s.operand();
    shift_result(s, m % 2 == 1, (m / 2 + 128 * carry_in(s.status_reg)) as u8)
}

/// The cycles that a taken branch from `pc` to `target` costs: one, or
/// two where the target lies in another page.
pub open spec fn branch_penalty(pc: u16, target: u16) -> int {
    if same_page(target, pc) {
        1
    } else {
        2
    }
}

/// The state after a branch whose condition is `taken`: a taken branch
/// continues at the operand address and pays its penalty in cycles.
pub open spec fn branch(s: CpuState, taken: bool) -> CpuState {
    if taken {
        CpuState {
            cycles: ((s.cycles + branch_penalty(s.prog_ctr, s.addr_abs)) % 256) as u8,
            prog_ctr: s.addr_abs,
            ..s
        }
    } else {
        s
    }
}

/// Whether the branch `op` is taken with the status byte `p`.
pub open spec fn branch_taken(op: Op, p: u8) -> bool {
    match op {
        Op::BCC => !flag_set(p, Flags6502::C),
        Op::BCS => flag_set(p, Flags6502::C),
        Op::BEQ => flag_set(p, Flags6502::Z),
        Op::BNE => !flag_set(p, Flags6502::Z),
        Op::BMI => flag_set(p, Flags6502::N),
        Op::BPL => !flag_set(p, Flags6502::N),
        Op::BVC => !flag_set(p, Flags6502::V),
        Op::BVS => flag_set(p, Flags6502::V),
        _ => false,
    }
}

/// BIT: Z from A and memory; N and V are bits 7 and 6 of memory.
pub open spec fn op_bit(s: CpuState) -> CpuState {
    let m = s.operand();
    CpuState {
        status_reg: with_flag(
            with_flag(
                with_flag(s.status_reg, Flags6502::Z, s.accumulator & m == 0),
                Flags6502::N,
                flag_set(m, Flags6502::N),
            ),
            Flags6502::V,
            flag_set(m, Flags6502::V),
        ),
        ..s.fetch()
    }
}

/// The state after an interrupt sequence: PC is pushed high byte first,
/// then the status byte with U set and B as `brk` says; B is cleared and
/// U and I are set in the register; PC is loaded from `vector`.
pub open spec fn interrupt(s: CpuState, vector: u16, cycles: u8, brk: bool) -> CpuState {
    let pushed = s.push(hi_byte(s.prog_ctr)).push(lo_byte(s.prog_ctr)).push(
        pushed_status(s.status_reg, brk),
    );
    CpuState {
        status_reg: with_flag(
            with_flag(with_flag(s.status_reg, Flags6502::B, false), Flags6502::U, true),
            Flags6502::I,
            true,
        ),
        addr_abs: vector,
        prog_ctr: pushed.bus.read16(vector),
        cycles,
        ..pushed
    }
}

/// IRQ: an interrupt through `0xFFFE`, unless I is set.
pub open spec fn irq(s: CpuState) -> CpuState {
    if flag_set(s.status_reg, Flags6502::I) {
        s
    } else {
        interrupt(s, 0xFFFE, 7, false)
    }
}

/// NMI: an interrupt through `0xFFFA`.
pub open spec fn nmi(s: CpuState) -> CpuState {
    interrupt(s, 0xFFFA, 8, false)
}

/// BRK: an interrupt through `0xFFFE` that pushes the address after the
/// byte that follows the opcode, and B set.
pub open spec fn op_brk(s: CpuState) -> CpuState {
    interrupt(CpuState { prog_ctr: add16(s.prog_ctr, 1), ..s }, 0xFFFE, 7, true)
}

/// The state after `flag` was forced to `value`.
pub open spec fn set_flag(s: CpuState, flag: Flags6502, value: bool) -> CpuState {
    CpuState { status_reg: with_flag(s.status_reg, flag, value), ..s }
}

/// CMP, CPX, CPY: compare `reg` with memory.
pub open spec fn compare(s: CpuState, reg: u8) -> CpuState {
    CpuState { status_reg: compared(s.status_reg, reg, s.operand()), ..s.fetch() }
}

/// The state after the operand was replaced by `result` in memory, with Z
/// and N describing it.
pub open spec fn modify_memory(s: CpuState, result: u8) -> CpuState {
    CpuState { status_reg: with_zn(s.status_reg, result), ..s.fetch() }.write(s.addr_abs, result)
}

/// DEC: memory minus one.
pub open spec fn op_dec(s: CpuState) -> CpuState {
    modify_memory(s, dec8(s.operand()))
}

/// INC: memory plus one.
pub open spec fn op_inc(s: CpuState) -> CpuState {
    modify_memory(s, inc8(s.operand()))
}

/// JMP: continue at the operand address.
pub open spec fn op_jmp(s: CpuState) -> CpuState {
    CpuState { prog_ctr: s.addr_abs, ..s }
}

/// JSR: push the address of the last byte of this instruction, high byte
/// first, and continue at the operand address.
pub open spec fn op_jsr(s: CpuState) -> CpuState {
    let ret = add16(s.prog_ctr, -1);
    CpuState { prog_ctr: s.addr_abs, ..s.push(hi_byte(ret)).push(lo_byte(ret)) }
}

/// RTS: pull an address, low byte first, and continue after it.
pub open spec fn op_rts(s: CpuState) -> CpuState {
    let lo = s.pull();
    let hi = lo.pull();
    CpuState { prog_ctr: add16(word(lo.top(), hi.top()), 1), ..hi }
}

/// RTI: pull the status byte, then PC, low byte first.
pub open spec fn op_rti(s: CpuState) -> CpuState {
    let p = s.pull();
    let lo = p.pull();
    let hi = lo.pull();
    CpuState {
        status_reg: pulled_status(s.status_reg, p.top()),
        prog_ctr: word(lo.top(), hi.top()),
        ..hi
    }
}

/// PHA: push A.
pub open spec fn op_pha(s: CpuState) -> CpuState {
    s.push(s.accumulator)
}

/// PHP: push the status byte with B and U set.
pub open spec fn op_php(s: CpuState) -> CpuState {
    s.push(pushed_status(s.status_reg, true))
}

/// PLA: pull A.
pub open spec fn op_pla(s: CpuState) -> CpuState {
    load_a(s.pull(), s.pull().top())
}

/// PLP: pull the status byte; bits 4 and 5 of the register stay.
pub open spec fn op_plp(s: CpuState) -> CpuState {
    CpuState { status_reg: pulled_status(s.status_reg, s.pull().top()), ..s.pull() }
}

/// TXS: SP takes the value of X. No flag changes.
pub open spec fn op_txs(s: CpuState) -> CpuState {
    CpuState { stack_ptr: s.x_reg, ..s }
}

/// The state after `op` was carried out on a state whose operand address
/// is worked out.
pub open spec fn operate(op: Op, s: CpuState) -> CpuState {
    match op {
        Op::ADC => op_adc(s),
        Op::AND => op_and(s),
        Op::ASL => op_asl(s),
        Op::BCC | Op::BCS | Op::BEQ | Op::BNE | Op::BMI | Op::BPL | Op::BVC | Op::BVS => branch(
            s,
            branch_taken(op, s.status_reg),
        ),
        Op::BIT => op_bit(s),
        Op::BRK => op_brk(s),
        Op::CLC => set_flag(s, Flags6502::C, false),
        Op::CLD => set_flag(s, Flags6502::D, false),
        Op::CLI => set_flag(s, Flags6502::I, false),
        Op::CLV => set_flag(s, Flags6502::V, false),
        Op::CMP => compare(s, s.accumulator),
        Op::CPX => compare(s, s.x_reg),
        Op::CPY => compare(s, s.y_reg),
        Op::DEC => op_dec(s),
        Op::DEX => load_x(s, dec8(s.x_reg)),
        Op::DEY => load_y(s, dec8(s.y_reg)),
        Op::EOR => op_eor(s),
        Op::INC => op_inc(s),
        Op::INX => load_x(s, inc8(s.x_reg)),
        Op::INY => load_y(s, inc8(s.y_reg)),
        Op::JMP => op_jmp(s),
        Op::JSR => op_jsr(s),
        Op::LDA => load_a(s.fetch(), s.operand()),
        Op::LDX => load_x(s.fetch(), s.operand()),
        Op::LDY => load_y(s.fetch(), s.operand()),
        Op::LSR => op_lsr(s),
        Op::NOP => s,
        Op::ORA => op_ora(s),
        Op::PHA => op_pha(s),
        Op::PHP => op_php(s),
        Op::PLA => op_pla(s),
        Op::PLP => op_plp(s),
        Op::ROL => op_rol(s),
        Op::ROR => op_ror(s),
        Op::RTI => op_rti(s),
        Op::RTS => op_rts(s),
        Op::SBC => op_sbc(s),
        Op::SEC => set_flag(s, Flags6502::C, true),
        Op::SED => set_flag(s, Flags6502::D, true),
        Op::SEI => set_flag(s, Flags6502::I, true),
        Op::STA => s.write(s.addr_abs, s.accumulator),
        Op::STX => s.write(s.addr_abs, s.x_reg),
        Op::STY => s.write(s.addr_abs, s.y_reg),
        Op::TAX => load_x(s, s.accumulator),
        Op::TAY => load_y(s, s.accumulator),
        Op::TSX => load_x(s, s.stack_ptr),
        Op::TXA => load_a(s, s.x_reg),
        Op::TXS => op_txs(s),
        Op::TYA => load_a(s, s.y_reg),
        Op::XXX => s,
    }
}

// ---------------------------------------------------------------------
// Reset, trace and clock
// ---------------------------------------------------------------------
/// The state after a reset: registers cleared, SP at `0xFD`, I and U set,
/// PC loaded from the vector at `0xFFFC`, and eight cycles to go.
pub open spec fn reset(s: CpuState) -> CpuState {
    CpuState {
        accumulator: 0,
        x_reg: 0,
        y_reg: 0,
        stack_ptr: 0xFD,
        prog_ctr: s.bus.read16(0xFFFC),
        status_reg: 0x24,
        fetched_data: 0,
        addr_abs: 0,
        addr_rel: 0,
        opcode: 0,
        cycles: 8,
        ..s
    }
}

/// Two hexadecimal digits for `value`.
pub open spec fn hex2(value: u8) -> Seq<char> {
    hex_upper(seq![value])
}

/// Four hexadecimal digits for `value`.
pub open spec fn hex4(value: u16) -> Seq<char> {
    hex_upper(seq![hi_byte(value), lo_byte(value)])
}

/// The text of operand byte `index` of an instruction of `num_bytes`
/// bytes with operand byte `value`: two blanks where it has none.
pub open spec fn operand_text(num_bytes: u8, index: u8, value: u8) -> Seq<char> {
    if num_bytes > index {
        hex2(value)
    } else {
        "  "@
    }
}

/// The trace line for the instruction that `s` is about to begin: PC, the
/// mnemonic, the operand bytes, and the registers, in upper-case
/// hexadecimal.
pub open spec fn trace_line(s: CpuState) -> Seq<char> {
    let ins = instruction_at(s.opcode);
    hex4(s.prog_ctr) + " "@ + mnemonic(ins.op) + " "@ + operand_text(
        ins.num_bytes,
        1,
        s.read(add16(s.prog_ctr, 1)),
    ) + " "@ + operand_text(ins.num_bytes, 2, s.read(add16(s.prog_ctr, 2))) + "\t\tA:"@ + hex2(
        s.accumulator,
    ) + " X:"@ + hex2(s.x_reg) + " Y:"@ + hex2(s.y_reg) + " P:"@ + hex2(s.status_reg) + " SP:"@
        + hex2(s.stack_ptr) + "\n"@
}

/// The state after the instruction about to begin was logged: its trace
/// line is recorded where tracing is on.
pub open spec fn log_state(s: CpuState) -> CpuState {
    if s.trace_enabled {
        CpuState { trace: s.trace.push(trace_line(s)), ..s }
    } else {
        s
    }
}

/// Whether the processor halts on fetching `opcode`: on an undocumented
/// opcode, and on BRK with an empty stack where that mode is on.
pub open spec fn halts_on(s: CpuState, opcode: u8) -> bool {
    let op = instruction_at(opcode).op;
    op == Op::XXX || (op == Op::BRK && s.halt_on_brk && s.stack_ptr == 0)
}

/// The state after the instruction at PC began: its opcode is fetched,
/// its trace line recorded, PC moved past the opcode, and its base cycles
/// are set.
pub open spec fn start_instruction(s: CpuState) -> CpuState {
    let opcode = s.read(s.prog_ctr);
    CpuState {
        prog_ctr: add16(s.prog_ctr, 1),
        cycles: instruction_at(opcode).cycles,
        ..log_state(CpuState { opcode, ..s })
    }
}

/// The cycle that an instruction takes beyond its base cycles: one where
/// working out its operand address crosses a page and the operation is
/// sensitive to that.
pub open spec fn page_penalty(s: CpuState) -> int {
    let ins = instruction_at(s.opcode);
    if page_crossed(ins.mode, s) && page_sensitive(ins.op) {
        1
    } else {
        0
    }
}

/// The state after the instruction that has begun in `s` was carried
/// out, with its cycles still to be counted down.
pub open spec fn execute(s: CpuState) -> CpuState {
    let ins = instruction_at(s.opcode);
    let done = operate(ins.op, address(ins.mode, s));
    CpuState { cycles: (done.cycles + page_penalty(s)) as u8, ..done }
}

/// The state after the instruction at PC began and was carried out, with
/// its cycles still to be counted down.
pub open spec fn begin_instruction(s: CpuState) -> CpuState {
    execute(start_instruction(s))
}

/// The state one clock cycle later.
///
/// With cycles left the processor only counts down. Otherwise it fetches
/// the opcode at PC. It halts there, leaving PC in place, on an
/// undocumented opcode (which it reports in `fault`) or on a BRK that
/// ends the program. Else it carries out the whole instruction and counts
/// its first cycle.
pub open spec fn clock(s: CpuState) -> CpuState {
    if s.cycles != 0 {
        CpuState { cycles: (s.cycles - 1) as u8, ..s }
    } else {
        let opcode = s.read(s.prog_ctr);
        if instruction_at(opcode).op == Op::XXX {
            CpuState {
                opcode,
                program_complete: true,
                fault: Some(NesError::InvalidOpcode { opcode, pc: s.prog_ctr }),
                ..s
            }
        } else if halts_on(s, opcode) {
            CpuState { opcode, program_complete: true, ..s }
        } else {
            let done = begin_instruction(s);
            CpuState { cycles: (done.cycles - 1) as u8, ..done }
        }
    }
}

/// The state after `n` clock cycles, or fewer where the processor halts
/// before.
pub open spec fn run(s: CpuState, n: nat) -> CpuState
    decreases n,
{
    if n == 0 || s.program_complete {
        s
    } else {
        run(clock(s), (n - 1) as nat)
    }
}

/// The state that `run_program` starts from: the reset vector points at
/// `0x8000`, the processor is reset, and a BRK met with an empty stack
/// will halt it.
pub open spec fn program_start(s: CpuState) -> CpuState {
    CpuState { halt_on_brk: true, ..reset(s.write(0xFFFC, 0x00).write(0xFFFD, 0x80)) }
}

/// The state that `run_automation` starts from: the processor is reset,
/// PC is at `0xC000`, and a BRK met with an empty stack will halt it.
pub open spec fn automation_start(s: CpuState) -> CpuState {
    CpuState { halt_on_brk: true, prog_ctr: 0xC000, ..reset(s) }
}

/// Working out an operand address costs no cycle by itself.
pub proof fn lemma_address_cycles(mode: AddrMode, s: CpuState)
    ensures
        address(mode, s).cycles == s.cycles,
{
}

/// How an operation changes the cycle count: BRK sets it to seven, a
/// branch adds at most two, every other operation leaves it.
pub proof fn lemma_operate_cycles(op: Op, s: CpuState)
    ensures
        op == Op::BRK ==> operate(op, s).cycles == 7,
        is_branch(op) ==> operate(op, s).cycles == s.cycles || operate(op, s).cycles == (s.cycles
            + 1) % 256 || operate(op, s).cycles == (s.cycles + 2) % 256,
        op != Op::BRK && !is_branch(op) ==> operate(op, s).cycles == s.cycles,
{
}

} // verus!
