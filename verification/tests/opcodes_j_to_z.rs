use yane::flags::Flags6502;
use yane::olc6502::{create_olc6502, Olc6502, STACK_BASE};
use yane::opcodes::{JMP, JSR, LDA, LDX, LDY, LSR, ORA, PHA, PHP, PLA, PLP, ROL, ROR, RTS, SBC, SEC, SED, SEI, STA, STX, STY, TAX, TAY, TSX, TXA, TXS, TYA};

#[test]
#[allow(non_snake_case)]
fn op_SBC_positive() {
    let mut o: Olc6502 = create_olc6502();
    o.accumulator = 0x14;
    o.fetched_data = 0x04;
    o.set_flag(Flags6502::C, true);
    SBC(&mut o);
    assert_eq!(o.accumulator, 0x10);
    assert_eq!(o.get_flag(Flags6502::V), 0);
    assert_eq!(o.get_flag(Flags6502::N), 0);
    assert_eq!(o.get_flag(Flags6502::C), 1);
    assert_eq!(o.get_flag(Flags6502::Z), 0);
}

#[test]
#[allow(non_snake_case)]
fn op_SBC_zero() {
    let mut o: Olc6502 = create_olc6502();
    o.accumulator = 0x40;
    o.fetched_data = 0x40;
    o.set_flag(Flags6502::C, true);
    SBC(&mut o);
    assert_eq!(o.accumulator, 0x00);
    assert_eq!(o.get_flag(Flags6502::V), 0);
    assert_eq!(o.get_flag(Flags6502::N), 0);
    assert_eq!(o.get_flag(Flags6502::C), 1);
    assert_eq!(o.get_flag(Flags6502::Z), 1);
}

#[test]
#[allow(non_snake_case)]
fn op_SBC_negative() {
    let mut o: Olc6502 = create_olc6502();
    o.accumulator = 0x14;
    o.fetched_data = 0x15;
    o.set_flag(Flags6502::C, true);
    SBC(&mut o);
    assert_eq!(o.accumulator, 0xFF);
    assert_eq!(o.get_flag(Flags6502::V), 0);
    assert_eq!(o.get_flag(Flags6502::N), 1);
    assert_eq!(o.get_flag(Flags6502::C), 0);
    assert_eq!(o.get_flag(Flags6502::Z), 0);
}

#[test]
#[allow(non_snake_case)]
fn op_SBC_40_minus_0_carry_clear() {
    // taken from line 542 in nestest.log
    let mut o: Olc6502 = create_olc6502();
    o.accumulator = 0x80;
    o.fetched_data = 0x00;
    o.status_reg = 0xA4;
    SBC(&mut o);
    assert_eq!(o.accumulator, 0x7F);
    assert_eq!(o.status_reg, 0x65);
}

#[test]
#[allow(non_snake_case)]
fn op_ORA_negative() {
    let mut o: Olc6502 = create_olc6502();
    o.accumulator = 0xF9;
    o.fetched_data = 0x45;
    ORA(&mut o);
    assert_eq!(o.accumulator, 0xFD);
    assert_eq!(o.get_flag(Flags6502::Z), 0);
    assert_eq!(o.get_flag(Flags6502::N), 1);
}

#[test]
#[allow(non_snake_case)]
fn op_ORA_zero() {
    let mut o: Olc6502 = create_olc6502();
    o.accumulator = 0x00;
    o.fetched_data = 0x00;
    ORA(&mut o);
    assert_eq!(o.accumulator, 0x00);
    assert_eq!(o.get_flag(Flags6502::Z), 1);
    assert_eq!(o.get_flag(Flags6502::N), 0);
}

#[test]
#[allow(non_snake_case)]
fn op_ORA_positive() {
    let mut o: Olc6502 = create_olc6502();
    o.accumulator = 0x0F;
    o.fetched_data = 0x00;
    ORA(&mut o);
    assert_eq!(o.accumulator, 0x0F);
    assert_eq!(o.get_flag(Flags6502::Z), 0);
    assert_eq!(o.get_flag(Flags6502::N), 0);
}

#[test]
#[allow(non_snake_case)]
fn op_PHA() {
    let mut o: Olc6502 = create_olc6502();
    let stack_end: u16 = STACK_BASE | o.stack_ptr as u16;
    let old_stack_ptr = o.stack_ptr;
    o.accumulator = 0x14;
    PHA(&mut o);
    assert_eq!(o.bus.read(stack_end), 0x14);
    assert_eq!(o.stack_ptr, old_stack_ptr - 1);
}

#[test]
#[allow(non_snake_case)]
fn op_PHP() {
    let mut o: Olc6502 = create_olc6502();
    let stack_end: u16 = STACK_BASE | o.stack_ptr as u16;
    let old_stack_ptr = o.stack_ptr;
    o.status_reg = 0x14;
    PHP(&mut o);
    assert_eq!(o.bus.read(stack_end), 0x34); // account for 'B flag' pushed as side effect
    assert_eq!(o.stack_ptr, old_stack_ptr - 1);
}

#[test]
#[allow(non_snake_case)]
fn op_PLA_positive() {
    let mut o: Olc6502 = create_olc6502();
    let stack_end: u16 = STACK_BASE | o.stack_ptr as u16;
    o.bus.write(stack_end, 0x14);
    o.stack_ptr = (stack_end as u8) - 1;
    PLA(&mut o);
    assert_eq!(o.accumulator, 0x14);
    assert_eq!(o.stack_ptr, stack_end as u8);
    assert_eq!(o.get_flag(Flags6502::Z), 0);
    assert_eq!(o.get_flag(Flags6502::N), 0);
}

#[test]
#[allow(non_snake_case)]
fn op_PLA_zero() {
    let mut o: Olc6502 = create_olc6502();
    let stack_end: u16 = STACK_BASE | o.stack_ptr as u16;
    o.bus.write(stack_end, 0x00);
    o.stack_ptr = (stack_end as u8) - 1;
    PLA(&mut o);
    assert_eq!(o.accumulator, 0x00);
    assert_eq!(o.stack_ptr, stack_end as u8);
    assert_eq!(o.get_flag(Flags6502::Z), 1);
    assert_eq!(o.get_flag(Flags6502::N), 0);
}

#[test]
#[allow(non_snake_case)]
fn op_PLA_negative() {
    let mut o: Olc6502 = create_olc6502();
    let stack_end: u16 = STACK_BASE | o.stack_ptr as u16;
    o.bus.write(stack_end, 0xF0);
    o.stack_ptr = (stack_end as u8) - 1;
    PLA(&mut o);
    assert_eq!(o.accumulator, 0xF0);
    assert_eq!(o.stack_ptr, stack_end as u8);
    assert_eq!(o.get_flag(Flags6502::Z), 0);
    assert_eq!(o.get_flag(Flags6502::N), 1);
}

#[test]
#[allow(non_snake_case)]
fn op_PLP() {
    let mut o: Olc6502 = create_olc6502();
    let stack_end: u16 = STACK_BASE | o.stack_ptr as u16;
    o.bus.write(stack_end, 0x14);
    o.stack_ptr = (stack_end as u8) - 1;
    PLP(&mut o);
    assert_eq!(o.status_reg, 0x24); // account for ignoring bits 5 and 4
    assert_eq!(o.stack_ptr, stack_end as u8);
}

#[test]
#[allow(non_snake_case)]
fn op_PLP_flag_by_flag_all_positive() {
    let mut o: Olc6502 = create_olc6502();
    let stack_end: u16 = STACK_BASE | o.stack_ptr as u16;
    o.status_reg = 0x0;
    o.bus.write(stack_end, 0xFF);
    o.stack_ptr = (stack_end as u8) - 1;
    PLP(&mut o);
    assert_eq!(o.status_reg, 0xCF); // account for ignoring bits 5 and 4
    assert_eq!(o.stack_ptr, stack_end as u8);
}

#[test]
#[allow(non_snake_case)]
fn op_PLP_flag_by_flag_all_negative() {
    let mut o: Olc6502 = create_olc6502();
    let stack_end: u16 = STACK_BASE | o.stack_ptr as u16;
    o.status_reg = 0xFF;
    o.bus.write(stack_end, 0x00);
    o.stack_ptr = (stack_end as u8) - 1;
    PLP(&mut o);
    assert_eq!(o.status_reg, 0x30); // account for ignoring bits 5 and 4
    assert_eq!(o.stack_ptr, stack_end as u8);
}

#[test]
#[allow(non_snake_case)]
fn op_JMP() {
    let mut o: Olc6502 = create_olc6502();
    o.addr_abs = 0x100;
    o.prog_ctr = 0xF;
    JMP(&mut o);
    assert_eq!(o.prog_ctr, 0x100);
}

#[test]
#[allow(non_snake_case)]
fn op_JSR() {
    let mut o: Olc6502 = create_olc6502();
    o.addr_abs = 0x1000;
    o.prog_ctr = 0xDEAD;
    JSR(&mut o);
    let lo = o.pop_from_stack();
    let hi = o.pop_from_stack();
    assert_eq!(o.prog_ctr, 0x1000);
    assert_eq!(lo, 0xAC);
    assert_eq!(hi, 0xDE);
}

#[test]
#[allow(non_snake_case)]
fn op_RTS() {
    let mut o: Olc6502 = create_olc6502();
    o.addr_abs = 0x1000;
    o.prog_ctr = 0xDEAD;
    JSR(&mut o);
    assert_eq!(o.prog_ctr, 0x1000);
    RTS(&mut o);
    assert_eq!(o.prog_ctr, 0xDEAD);
}

#[test]
#[allow(non_snake_case)]
fn op_LDA() {
    let mut o: Olc6502 = create_olc6502();
    o.fetched_data = 0x04;
    LDA(&mut o);
    assert_eq!(o.accumulator, 0x04);
    assert_eq!(o.get_flag(Flags6502::Z), 0);
    assert_eq!(o.get_flag(Flags6502::N), 0);
}

#[test]
#[allow(non_snake_case)]
fn op_LDA_negative() {
    let mut o: Olc6502 = create_olc6502();
    o.fetched_data = 0xFA;
    LDA(&mut o);
    assert_eq!(o.accumulator, 0xFA);
    assert_eq!(o.get_flag(Flags6502::Z), 0);
    assert_eq!(o.get_flag(Flags6502::N), 1);
}

#[test]
#[allow(non_snake_case)]
fn op_LDA_zero() {
    let mut o: Olc6502 = create_olc6502();
    o.fetched_data = 0x00;
    LDA(&mut o);
    assert_eq!(o.accumulator, 0x00);
    assert_eq!(o.get_flag(Flags6502::Z), 1);
    assert_eq!(o.get_flag(Flags6502::N), 0);
}

#[test]
#[allow(non_snake_case)]
fn op_LDX() {
    let mut o: Olc6502 = create_olc6502();
    o.fetched_data = 0x04;
    LDX(&mut o);
    assert_eq!(o.x_reg, 0x04);
    assert_eq!(o.get_flag(Flags6502::Z), 0);
    assert_eq!(o.get_flag(Flags6502::N), 0);
}

#[test]
#[allow(non_snake_case)]
fn op_LDX_negative() {
    let mut o: Olc6502 = create_olc6502();
    o.fetched_data = 0xFA;
    LDX(&mut o);
    assert_eq!(o.x_reg, 0xFA);
    assert_eq!(o.get_flag(Flags6502::Z), 0);
    assert_eq!(o.get_flag(Flags6502::N), 1);
}

#[test]
#[allow(non_snake_case)]
fn op_LDX_zero() {
    let mut o: Olc6502 = create_olc6502();
    o.fetched_data = 0x00;
    LDX(&mut o);
    assert_eq!(o.x_reg, 0x00);
    assert_eq!(o.get_flag(Flags6502::Z), 1);
    assert_eq!(o.get_flag(Flags6502::N), 0);
}

#[test]
#[allow(non_snake_case)]
fn op_LDY() {
    let mut o: Olc6502 = create_olc6502();
    o.fetched_data = 0x04;
    LDY(&mut o);
    assert_eq!(o.y_reg, 0x04);
    assert_eq!(o.get_flag(Flags6502::Z), 0);
    assert_eq!(o.get_flag(Flags6502::N), 0);
}

#[test]
#[allow(non_snake_case)]
fn op_LDY_negative() {
    let mut o: Olc6502 = create_olc6502();
    o.fetched_data = 0xFA;
    LDY(&mut o);
    assert_eq!(o.y_reg, 0xFA);
    assert_eq!(o.get_flag(Flags6502::Z), 0);
    assert_eq!(o.get_flag(Flags6502::N), 1);
}

#[test]
#[allow(non_snake_case)]
fn op_LDY_zero() {
    let mut o: Olc6502 = create_olc6502();
    o.fetched_data = 0x00;
    LDY(&mut o);
    assert_eq!(o.y_reg, 0x00);
    assert_eq!(o.get_flag(Flags6502::Z), 1);
    assert_eq!(o.get_flag(Flags6502::N), 0);
}

#[test]
#[allow(non_snake_case)]
fn op_LSR_ACC() {
    let mut o: Olc6502 = create_olc6502();
    o.accumulator = 0x01;
    o.addr_abs = 0x100;
    o.opcode = 0x0A; // to get an ASL with the Accum addressing mode
    LSR(&mut o);
    assert_eq!(o.accumulator, 0x00);
    assert_eq!(o.get_flag(Flags6502::Z), 1);
    assert_eq!(o.get_flag(Flags6502::N), 0);
    assert_eq!(o.get_flag(Flags6502::C), 1);
}

#[test]
#[allow(non_snake_case)]
fn op_LSR_non_ACC() {
    let mut o: Olc6502 = create_olc6502();
    o.fetched_data = 0x44;
    o.addr_abs = 0x100;
    LSR(&mut o);
    assert_eq!(o.bus.read(o.addr_abs), 0x22);
    assert_eq!(o.get_flag(Flags6502::Z), 0);
    assert_eq!(o.get_flag(Flags6502::N), 0);
    assert_eq!(o.get_flag(Flags6502::C), 0);
}

#[test]
#[allow(non_snake_case)]
fn op_ROL_ACC() {
    let mut o: Olc6502 = create_olc6502();
    o.accumulator = 0x80;
    o.addr_abs = 0x100;
    o.opcode = 0x0A; // to get an opcode with the Accum addressing mode
    o.set_flag(Flags6502::C, true);
    ROL(&mut o);
    assert_eq!(o.accumulator, 0x01);
    assert_eq!(o.get_flag(Flags6502::Z), 0);
    assert_eq!(o.get_flag(Flags6502::N), 0);
    assert_eq!(o.get_flag(Flags6502::C), 1);
}

#[test]
#[allow(non_snake_case)]
fn op_ROL_non_ACC() {
    let mut o: Olc6502 = create_olc6502();
    o.fetched_data = 0x45;
    o.addr_abs = 0x100;
    o.set_flag(Flags6502::C, true);
    ROL(&mut o);
    assert_eq!(o.bus.read(o.addr_abs), 0x8B);
    assert_eq!(o.get_flag(Flags6502::Z), 0);
    assert_eq!(o.get_flag(Flags6502::N), 1);
    assert_eq!(o.get_flag(Flags6502::C), 0);
}

#[test]
#[allow(non_snake_case)]
fn op_ROR_ACC() {
    let mut o: Olc6502 = create_olc6502();
    o.accumulator = 0x01;
    o.addr_abs = 0x100;
    o.opcode = 0x0A; // to get an opcode with the Accum addressing mode
    o.set_flag(Flags6502::C, true);
    ROR(&mut o);
    assert_eq!(o.accumulator, 0x80);
    assert_eq!(o.get_flag(Flags6502::Z), 0);
    assert_eq!(o.get_flag(Flags6502::N), 1);
    assert_eq!(o.get_flag(Flags6502::C), 1);
}

#[test]
#[allow(non_snake_case)]
fn op_ROR_non_ACC() {
    let mut o: Olc6502 = create_olc6502();
    o.fetched_data = 0x44;
    o.addr_abs = 0x100;
    o.set_flag(Flags6502::C, true);
    ROR(&mut o);
    assert_eq!(o.bus.read(o.addr_abs), 0xA2);
    assert_eq!(o.get_flag(Flags6502::Z), 0);
    assert_eq!(o.get_flag(Flags6502::N), 1);
    assert_eq!(o.get_flag(Flags6502::C), 0);
}

#[test]
#[allow(non_snake_case)]
fn op_SEC() {
    let mut o: Olc6502 = create_olc6502();
    o.set_flag(Flags6502::C, false);
    SEC(&mut o);
    assert_eq!(o.get_flag(Flags6502::C), 1);
}

#[test]
#[allow(non_snake_case)]
fn op_SED() {
    let mut o: Olc6502 = create_olc6502();
    o.set_flag(Flags6502::D, false);
    SED(&mut o);
    assert_eq!(o.get_flag(Flags6502::D), 1);
}

#[test]
#[allow(non_snake_case)]
fn op_SEI() {
    let mut o: Olc6502 = create_olc6502();
    o.set_flag(Flags6502::I, false);
    SEI(&mut o);
    assert_eq!(o.get_flag(Flags6502::I), 1);
}

#[test]
#[allow(non_snake_case)]
fn op_STA() {
    let mut o: Olc6502 = create_olc6502();
    o.addr_abs = 0x100;
    o.accumulator = 0xDE;
    STA(&mut o);
    assert_eq!(o.bus.read(o.addr_abs), o.accumulator);
}

#[test]
#[allow(non_snake_case)]
fn op_STX() {
    let mut o: Olc6502 = create_olc6502();
    o.addr_abs = 0x100;
    o.x_reg = 0xDE;
    STX(&mut o);
    assert_eq!(o.bus.read(o.addr_abs), o.x_reg);
}

#[test]
#[allow(non_snake_case)]
fn op_STY() {
    let mut o: Olc6502 = create_olc6502();
    o.addr_abs = 0x100;
    o.y_reg = 0xDE;
    STY(&mut o);
    assert_eq!(o.bus.read(o.addr_abs), o.y_reg);
}

#[test]
#[allow(non_snake_case)]
fn op_TAX() {
    let mut o: Olc6502 = create_olc6502();
    o.accumulator = 0xEA;
    TAX(&mut o);
    assert_eq!(o.x_reg, 0xEA);
    assert_eq!(o.get_flag(Flags6502::Z), 0);
    assert_eq!(o.get_flag(Flags6502::N), 1);
}

#[test]
#[allow(non_snake_case)]
fn op_TAY() {
    let mut o: Olc6502 = create_olc6502();
    o.accumulator = 0xEA;
    TAY(&mut o);
    assert_eq!(o.y_reg, 0xEA);
    assert_eq!(o.get_flag(Flags6502::Z), 0);
    assert_eq!(o.get_flag(Flags6502::N), 1);
}

#[test]
#[allow(non_snake_case)]
fn op_TSX() {
    let mut o: Olc6502 = create_olc6502();
    o.stack_ptr = 0xEA;
    TSX(&mut o);
    assert_eq!(o.x_reg, 0xEA);
    assert_eq!(o.get_flag(Flags6502::Z), 0);
    assert_eq!(o.get_flag(Flags6502::N), 1);
}

#[test]
#[allow(non_snake_case)]
fn op_TXA() {
    let mut o: Olc6502 = create_olc6502();
    o.x_reg = 0xEA;
    TXA(&mut o);
    assert_eq!(o.accumulator, 0xEA);
    assert_eq!(o.get_flag(Flags6502::Z), 0);
    assert_eq!(o.get_flag(Flags6502::N), 1);
}

#[test]
#[allow(non_snake_case)]
fn op_TXS() {
    let mut o: Olc6502 = create_olc6502();
    o.x_reg = 0xEA;
    TXS(&mut o);
    assert_eq!(o.stack_ptr, 0xEA);
    assert_eq!(o.get_flag(Flags6502::Z), 0);
    assert_eq!(o.get_flag(Flags6502::N), 0);
}

#[test]
#[allow(non_snake_case)]
fn op_TYA() {
    let mut o: Olc6502 = create_olc6502();
    o.y_reg = 0xEA;
    TYA(&mut o);
    assert_eq!(o.accumulator, 0xEA);
    assert_eq!(o.get_flag(Flags6502::Z), 0);
    assert_eq!(o.get_flag(Flags6502::N), 1);
}
