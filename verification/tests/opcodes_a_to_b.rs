use yane::flags::Flags6502;
use yane::olc6502::{create_olc6502, Olc6502};
use yane::opcodes::{ADC, AND, ASL, BCC, BCS, BEQ, BIT, BMI, BNE, BPL, BVC, BVS};

#[test]
#[allow(non_snake_case)]
fn op_AND() {
    let mut o: Olc6502 = create_olc6502();
    o.accumulator = 0xF9;
    o.fetched_data = 0x45;
    AND(&mut o);
    assert_eq!(o.accumulator, 0x41);
    assert_eq!(o.get_flag(Flags6502::Z), 0);
    assert_eq!(o.get_flag(Flags6502::N), 0);
}

#[test]
#[allow(non_snake_case)]
fn op_AND_zero() {
    let mut o: Olc6502 = create_olc6502();
    o.accumulator = 0xFF;
    o.fetched_data = 0x00;
    AND(&mut o);
    assert_eq!(o.accumulator, 0x00);
    assert_eq!(o.get_flag(Flags6502::Z), 1);
    assert_eq!(o.get_flag(Flags6502::N), 0);
}

#[test]
#[allow(non_snake_case)]
fn op_AND_negative() {
    let mut o: Olc6502 = create_olc6502();
    o.accumulator = 0xFF;
    o.fetched_data = 0xF0;
    AND(&mut o);
    assert_eq!(o.accumulator, 0xF0);
    assert_eq!(o.get_flag(Flags6502::Z), 0);
    assert_eq!(o.get_flag(Flags6502::N), 1);
}

#[test]
#[allow(non_snake_case)]
fn op_ASL_ACC() {
    let mut o: Olc6502 = create_olc6502();
    o.accumulator = 0x80;
    o.addr_abs = 0x100;
    o.opcode = 0x0A; // to get an ASL with the Accum addressing mode
    ASL(&mut o);
    assert_eq!(o.accumulator, 0x00);
    assert_eq!(o.get_flag(Flags6502::Z), 1);
    assert_eq!(o.get_flag(Flags6502::N), 0);
    assert_eq!(o.get_flag(Flags6502::C), 1);
}

#[test]
#[allow(non_snake_case)]
fn op_ASL_non_ACC() {
    let mut o: Olc6502 = create_olc6502();
    o.fetched_data = 0x45;
    o.addr_abs = 0x100;
    ASL(&mut o);
    assert_eq!(o.bus.read(o.addr_abs), 0x8A);
    assert_eq!(o.get_flag(Flags6502::Z), 0);
    assert_eq!(o.get_flag(Flags6502::N), 1);
    assert_eq!(o.get_flag(Flags6502::C), 0);
}

#[test]
#[allow(non_snake_case)]
fn op_ADC_pos_pos_pos() {
    let mut o: Olc6502 = create_olc6502();
    o.accumulator = 0x04;
    o.fetched_data = 0x14;
    ADC(&mut o);
    assert_eq!(o.accumulator, 0x18);
    assert_eq!(o.get_flag(Flags6502::V), 0);
    assert_eq!(o.get_flag(Flags6502::N), 0);
    assert_eq!(o.get_flag(Flags6502::C), 0);
    assert_eq!(o.get_flag(Flags6502::Z), 0);
}

#[test]
#[allow(non_snake_case)]
fn op_ADC_pos_pos_neg() {
    let mut o: Olc6502 = create_olc6502();
    o.accumulator = 0x78;
    o.fetched_data = 0x78;
    ADC(&mut o);
    assert_eq!(o.accumulator, 0xF0);
    assert_eq!(o.get_flag(Flags6502::V), 1);
    assert_eq!(o.get_flag(Flags6502::N), 1);
    assert_eq!(o.get_flag(Flags6502::C), 0);
    assert_eq!(o.get_flag(Flags6502::Z), 0);
}

#[test]
#[allow(non_snake_case)]
fn op_ADC_pos_neg_pos() {
    let mut o: Olc6502 = create_olc6502();
    o.accumulator = 0x78;
    o.fetched_data = 0xEC;
    ADC(&mut o);
    assert_eq!(o.accumulator, 0x64);
    assert_eq!(o.get_flag(Flags6502::V), 0);
    assert_eq!(o.get_flag(Flags6502::N), 0);
    assert_eq!(o.get_flag(Flags6502::C), 1);
    assert_eq!(o.get_flag(Flags6502::Z), 0);
}

#[test]
#[allow(non_snake_case)]
fn op_ADC_pos_neg_neg() {
    let mut o: Olc6502 = create_olc6502();
    o.accumulator = 0x04;
    o.fetched_data = 0xF0;
    ADC(&mut o);
    assert_eq!(o.accumulator, 0xF4);
    assert_eq!(o.get_flag(Flags6502::V), 0);
    assert_eq!(o.get_flag(Flags6502::N), 1);
    assert_eq!(o.get_flag(Flags6502::C), 0);
    assert_eq!(o.get_flag(Flags6502::Z), 0);
}

#[test]
#[allow(non_snake_case)]
fn op_ADC_neg_pos_pos() {
    let mut o: Olc6502 = create_olc6502();
    o.accumulator = 0xFC;
    o.fetched_data = 0x60;
    ADC(&mut o);
    assert_eq!(o.accumulator, 0x5C);
    assert_eq!(o.get_flag(Flags6502::V), 0);
    assert_eq!(o.get_flag(Flags6502::N), 0);
    assert_eq!(o.get_flag(Flags6502::C), 1);
    assert_eq!(o.get_flag(Flags6502::Z), 0);
}

#[test]
#[allow(non_snake_case)]
fn op_ADC_neg_pos_neg() {
    let mut o: Olc6502 = create_olc6502();
    o.accumulator = 0x88;
    o.fetched_data = 0x04;
    ADC(&mut o);
    assert_eq!(o.accumulator, 0x8C);
    assert_eq!(o.get_flag(Flags6502::V), 0);
    assert_eq!(o.get_flag(Flags6502::N), 1);
    assert_eq!(o.get_flag(Flags6502::C), 0);
    assert_eq!(o.get_flag(Flags6502::Z), 0);
}

#[test]
#[allow(non_snake_case)]
fn op_ADC_neg_neg_pos() {
    let mut o: Olc6502 = create_olc6502();
    o.accumulator = 0xD0;
    o.fetched_data = 0x90;
    ADC(&mut o);
    assert_eq!(o.accumulator, 0x60);
    assert_eq!(o.get_flag(Flags6502::V), 1);
    assert_eq!(o.get_flag(Flags6502::N), 0);
    assert_eq!(o.get_flag(Flags6502::C), 1);
    assert_eq!(o.get_flag(Flags6502::Z), 0);
}

#[test]
#[allow(non_snake_case)]
fn op_ADC_neg_neg_neg() {
    let mut o: Olc6502 = create_olc6502();
    o.accumulator = 0xF6;
    o.fetched_data = 0xF6;
    ADC(&mut o);
    assert_eq!(o.accumulator, 0xEC);
    assert_eq!(o.get_flag(Flags6502::V), 0);
    assert_eq!(o.get_flag(Flags6502::N), 1);
    assert_eq!(o.get_flag(Flags6502::C), 1);
    assert_eq!(o.get_flag(Flags6502::Z), 0);
}

#[test]
#[allow(non_snake_case)]
fn op_ADC_zero_out() {
    let mut o: Olc6502 = create_olc6502();
    o.accumulator = 0x14;
    o.fetched_data = 0xEC;
    ADC(&mut o);
    assert_eq!(o.accumulator, 0x00);
    assert_eq!(o.get_flag(Flags6502::V), 0);
    assert_eq!(o.get_flag(Flags6502::N), 0);
    assert_eq!(o.get_flag(Flags6502::C), 1);
    assert_eq!(o.get_flag(Flags6502::Z), 1);
}

#[test]
#[allow(non_snake_case)]
fn op_BCS_carry_unset() {
    let mut o: Olc6502 = create_olc6502();
    let addr: u16 = 0x1000;
    let current_cycles: u8 = 2;
    o.prog_ctr = addr;
    o.addr_abs = addr + 50;
    o.cycles = current_cycles;
    o.set_flag(Flags6502::C, false);
    BCS(&mut o);
    assert_eq!(o.prog_ctr, addr); // no jump
    assert_eq!(o.cycles, current_cycles);
}

#[test]
#[allow(non_snake_case)]
fn op_BCS_short_jump() {
    let mut o: Olc6502 = create_olc6502();
    let addr: u16 = 0x1000;
    let current_cycles: u8 = 2;
    o.prog_ctr = addr;
    o.addr_abs = addr + 0x0F;
    o.cycles = current_cycles;
    o.set_flag(Flags6502::C, true);
    BCS(&mut o);
    assert_eq!(o.prog_ctr, o.addr_abs);
    assert_eq!(o.cycles, current_cycles + 1);
}

#[test]
#[allow(non_snake_case)]
fn op_BCS_jump_page() {
    let mut o: Olc6502 = create_olc6502();
    let addr: u16 = 0x1000;
    let current_cycles: u8 = 2;
    o.prog_ctr = addr;
    o.addr_abs = addr + 0x0F00;
    o.cycles = current_cycles;
    o.set_flag(Flags6502::C, true);
    BCS(&mut o);
    assert_eq!(o.prog_ctr, o.addr_abs);
    assert_eq!(o.cycles, current_cycles + 2);
}

#[test]
#[allow(non_snake_case)]
fn op_BCC_carry_set() {
    let mut o: Olc6502 = create_olc6502();
    let addr: u16 = 0x1000;
    let current_cycles: u8 = 2;
    o.prog_ctr = addr;
    o.addr_abs = addr + 50;
    o.cycles = current_cycles;
    o.set_flag(Flags6502::C, true);
    BCC(&mut o);
    assert_eq!(o.prog_ctr, addr); // no jump
    assert_eq!(o.cycles, current_cycles);
}

#[test]
#[allow(non_snake_case)]
fn op_BCC_short_jump() {
    let mut o: Olc6502 = create_olc6502();
    let addr: u16 = 0x1000;
    let current_cycles: u8 = 2;
    o.prog_ctr = addr;
    o.addr_abs = addr + 0x0F;
    o.cycles = current_cycles;
    o.set_flag(Flags6502::C, false);
    BCC(&mut o);
    assert_eq!(o.prog_ctr, o.addr_abs);
    assert_eq!(o.cycles, current_cycles + 1);
}

#[test]
#[allow(non_snake_case)]
fn op_BCC_jump_page() {
    let mut o: Olc6502 = create_olc6502();
    let addr: u16 = 0x1000;
    let current_cycles: u8 = 2;
    o.prog_ctr = addr;
    o.addr_abs = addr + 0x0F00;
    o.cycles = current_cycles;
    o.set_flag(Flags6502::C, false);
    BCC(&mut o);
    assert_eq!(o.prog_ctr, o.addr_abs);
    assert_eq!(o.cycles, current_cycles + 2);
}

#[test]
#[allow(non_snake_case)]
fn op_BEQ_zero_unset() {
    let mut o: Olc6502 = create_olc6502();
    let addr: u16 = 0x1000;
    let current_cycles: u8 = 2;
    o.prog_ctr = addr;
    o.addr_abs = addr + 50;
    o.cycles = current_cycles;
    o.set_flag(Flags6502::Z, false);
    BEQ(&mut o);
    assert_eq!(o.prog_ctr, addr); // no jump
    assert_eq!(o.cycles, current_cycles);
}

#[test]
#[allow(non_snake_case)]
fn op_BIT() {
    let mut o: Olc6502 = create_olc6502();
    o.accumulator = 0xF0;
    o.fetched_data = 0x0F;
    BIT(&mut o);
    assert_eq!(o.get_flag(Flags6502::Z), 1);
    assert_eq!(o.get_flag(Flags6502::N), 0);
    assert_eq!(o.get_flag(Flags6502::V), 0);
}

#[test]
#[allow(non_snake_case)]
fn op_BIT_negative() {
    let mut o: Olc6502 = create_olc6502();
    o.accumulator = 0xF0;
    o.fetched_data = 0xFF;
    BIT(&mut o);
    assert_eq!(o.get_flag(Flags6502::Z), 0);
    assert_eq!(o.get_flag(Flags6502::N), 1);
    assert_eq!(o.get_flag(Flags6502::V), 1);
}

#[test]
#[allow(non_snake_case)]
fn op_BEQ_short_jump() {
    let mut o: Olc6502 = create_olc6502();
    let addr: u16 = 0x1000;
    let current_cycles: u8 = 2;
    o.prog_ctr = addr;
    o.addr_abs = addr + 0x0F;
    o.cycles = current_cycles;
    o.set_flag(Flags6502::Z, true);
    BEQ(&mut o);
    assert_eq!(o.prog_ctr, o.addr_abs);
    assert_eq!(o.cycles, current_cycles + 1);
}

#[test]
#[allow(non_snake_case)]
fn op_BEQ_jump_page() {
    let mut o: Olc6502 = create_olc6502();
    let addr: u16 = 0x1000;
    let current_cycles: u8 = 2;
    o.prog_ctr = addr;
    o.addr_abs = addr + 0x0F00;
    o.cycles = current_cycles;
    o.set_flag(Flags6502::Z, true);
    BEQ(&mut o);
    assert_eq!(o.prog_ctr, o.addr_abs);
    assert_eq!(o.cycles, current_cycles + 2);
}

#[test]
#[allow(non_snake_case)]
fn op_BNE_zero_set() {
    let mut o: Olc6502 = create_olc6502();
    let addr: u16 = 0x1000;
    let current_cycles: u8 = 2;
    o.prog_ctr = addr;
    o.addr_abs = addr + 50;
    o.cycles = current_cycles;
    o.set_flag(Flags6502::Z, true);
    BNE(&mut o);
    assert_eq!(o.prog_ctr, addr); // no jump
    assert_eq!(o.cycles, current_cycles);
}

#[test]
#[allow(non_snake_case)]
fn op_BNE_short_jump_forward() {
    let mut o: Olc6502 = create_olc6502();
    let addr: u16 = 0x1000;
    let current_cycles: u8 = 2;
    o.prog_ctr = addr;
    o.addr_abs = addr + 0x0F;
    o.cycles = current_cycles;
    o.set_flag(Flags6502::Z, false);
    BNE(&mut o);
    assert_eq!(o.prog_ctr, o.addr_abs);
    assert_eq!(o.cycles, current_cycles + 1);
}

#[test]
#[allow(non_snake_case)]
fn op_BNE_jump_page() {
    let mut o: Olc6502 = create_olc6502();
    let addr: u16 = 0x1000;
    let current_cycles: u8 = 2;
    o.prog_ctr = addr;
    o.addr_abs = addr + 0x0F00;
    o.cycles = current_cycles;
    o.set_flag(Flags6502::Z, false);
    BNE(&mut o);
    assert_eq!(o.prog_ctr, o.addr_abs);
    assert_eq!(o.cycles, current_cycles + 2);
}

#[test]
#[allow(non_snake_case)]
fn op_BMI_negative_unset() {
    let mut o: Olc6502 = create_olc6502();
    let addr: u16 = 0x1000;
    let current_cycles: u8 = 2;
    o.prog_ctr = addr;
    o.addr_abs = addr + 50;
    o.cycles = current_cycles;
    o.set_flag(Flags6502::N, false);
    BMI(&mut o);
    assert_eq!(o.prog_ctr, addr); // no jump
    assert_eq!(o.cycles, current_cycles);
}

#[test]
#[allow(non_snake_case)]
fn op_BMI_short_jump() {
    let mut o: Olc6502 = create_olc6502();
    let addr: u16 = 0x1000;
    let current_cycles: u8 = 2;
    o.prog_ctr = addr;
    o.addr_abs = addr + 0x0F;
    o.cycles = current_cycles;
    o.set_flag(Flags6502::N, true);
    BMI(&mut o);
    assert_eq!(o.prog_ctr, o.addr_abs);
    assert_eq!(o.cycles, current_cycles + 1);
}

#[test]
#[allow(non_snake_case)]
fn op_BMI_jump_page() {
    let mut o: Olc6502 = create_olc6502();
    let addr: u16 = 0x1000;
    let current_cycles: u8 = 2;
    o.prog_ctr = addr;
    o.addr_abs = addr + 0x0F00;
    o.cycles = current_cycles;
    o.set_flag(Flags6502::N, true);
    BMI(&mut o);
    assert_eq!(o.prog_ctr, o.addr_abs);
    assert_eq!(o.cycles, current_cycles + 2);
}

#[test]
#[allow(non_snake_case)]
fn op_BPL_negative_set() {
    let mut o: Olc6502 = create_olc6502();
    let addr: u16 = 0x1000;
    let current_cycles: u8 = 2;
    o.prog_ctr = addr;
    o.addr_abs = addr + 50;
    o.cycles = current_cycles;
    o.set_flag(Flags6502::N, true);
    BPL(&mut o);
    assert_eq!(o.prog_ctr, addr); // no jump
    assert_eq!(o.cycles, current_cycles);
}

#[test]
#[allow(non_snake_case)]
fn op_BPL_short_jump() {
    let mut o: Olc6502 = create_olc6502();
    let addr: u16 = 0x1000;
    let current_cycles: u8 = 2;
    o.prog_ctr = addr;
    o.addr_abs = addr + 0x0F;
    o.cycles = current_cycles;
    o.set_flag(Flags6502::N, false);
    BPL(&mut o);
    assert_eq!(o.prog_ctr, o.addr_abs);
    assert_eq!(o.cycles, current_cycles + 1);
}

#[test]
#[allow(non_snake_case)]
fn op_BPL_jump_page() {
    let mut o: Olc6502 = create_olc6502();
    let addr: u16 = 0x1000;
    let current_cycles: u8 = 2;
    o.prog_ctr = addr;
    o.addr_abs = addr + 0x0F00;
    o.cycles = current_cycles;
    o.set_flag(Flags6502::N, false);
    BPL(&mut o);
    assert_eq!(o.prog_ctr, o.addr_abs);
    assert_eq!(o.cycles, current_cycles + 2);
}

#[test]
#[allow(non_snake_case)]
fn op_BVC_overflow_set() {
    let mut o: Olc6502 = create_olc6502();
    let addr: u16 = 0x1000;
    let current_cycles: u8 = 2;
    o.prog_ctr = addr;
    o.addr_abs = addr + 50;
    o.cycles = current_cycles;
    o.set_flag(Flags6502::V, true);
    BVC(&mut o);
    assert_eq!(o.prog_ctr, addr); // no jump
    assert_eq!(o.cycles, current_cycles);
}

#[test]
#[allow(non_snake_case)]
fn op_BVC_short_jump() {
    let mut o: Olc6502 = create_olc6502();
    let addr: u16 = 0x1000;
    let current_cycles: u8 = 2;
    o.prog_ctr = addr;
    o.addr_abs = addr + 0x0F;
    o.cycles = current_cycles;
    o.set_flag(Flags6502::V, false);
    BVC(&mut o);
    assert_eq!(o.prog_ctr, o.addr_abs);
    assert_eq!(o.cycles, current_cycles + 1);
}

#[test]
#[allow(non_snake_case)]
fn op_BVC_jump_page() {
    let mut o: Olc6502 = create_olc6502();
    let addr: u16 = 0x1000;
    let current_cycles: u8 = 2;
    o.prog_ctr = addr;
    o.addr_abs = addr + 0x0F00;
    o.cycles = current_cycles;
    o.set_flag(Flags6502::V, false);
    BVC(&mut o);
    assert_eq!(o.prog_ctr, o.addr_abs);
    assert_eq!(o.cycles, current_cycles + 2);
}

#[test]
#[allow(non_snake_case)]
fn op_BVS_overflow_unset() {
    let mut o: Olc6502 = create_olc6502();
    let addr: u16 = 0x1000;
    let current_cycles: u8 = 2;
    o.prog_ctr = addr;
    o.addr_abs = addr + 50;
    o.cycles = current_cycles;
    o.set_flag(Flags6502::V, false);
    BVS(&mut o);
    assert_eq!(o.prog_ctr, addr); // no jump
    assert_eq!(o.cycles, current_cycles);
}

#[test]
#[allow(non_snake_case)]
fn op_BVS_short_jump() {
    let mut o: Olc6502 = create_olc6502();
    let addr: u16 = 0x1000;
    let current_cycles: u8 = 2;
    o.prog_ctr = addr;
    o.addr_abs = addr + 0x0F;
    o.cycles = current_cycles;
    o.set_flag(Flags6502::V, true);
    BVS(&mut o);
    assert_eq!(o.prog_ctr, o.addr_abs);
    assert_eq!(o.cycles, current_cycles + 1);
}

#[test]
#[allow(non_snake_case)]
fn op_BVS_jump_page() {
    let mut o: Olc6502 = create_olc6502();
    let addr: u16 = 0x1000;
    let current_cycles: u8 = 2;
    o.prog_ctr = addr;
    o.addr_abs = addr + 0x0F00;
    o.cycles = current_cycles;
    o.set_flag(Flags6502::V, true);
    BVS(&mut o);
    assert_eq!(o.prog_ctr, o.addr_abs);
    assert_eq!(o.cycles, current_cycles + 2);
}
