use yane::flags::Flags6502;
use yane::olc6502::{create_olc6502, Olc6502};
use yane::opcodes::{RTI};

#[test]
fn test_status_reg_read() {
    let mut o: Olc6502 = create_olc6502();
    o.status_reg = 0x55;
    assert_eq!(o.get_flag(Flags6502::C), 1);
    assert_eq!(o.get_flag(Flags6502::Z), 0);
    assert_eq!(o.get_flag(Flags6502::I), 1);
    assert_eq!(o.get_flag(Flags6502::D), 0);
    assert_eq!(o.get_flag(Flags6502::B), 1);
    assert_eq!(o.get_flag(Flags6502::U), 0);
    assert_eq!(o.get_flag(Flags6502::V), 1);
    assert_eq!(o.get_flag(Flags6502::N), 0);
}

#[test]
fn test_status_reg_write() {
    let mut o: Olc6502 = create_olc6502();
    o.status_reg = 0x00;
    o.set_flag(Flags6502::C, true);
    assert_eq!(o.get_flag(Flags6502::C), 1);

    o.set_flag(Flags6502::Z, true);
    assert_eq!(o.get_flag(Flags6502::Z), 1);

    o.set_flag(Flags6502::I, true);
    assert_eq!(o.get_flag(Flags6502::I), 1);

    o.set_flag(Flags6502::D, true);
    assert_eq!(o.get_flag(Flags6502::D), 1);

    o.set_flag(Flags6502::B, true);
    assert_eq!(o.get_flag(Flags6502::B), 1);

    o.set_flag(Flags6502::U, true);
    assert_eq!(o.get_flag(Flags6502::U), 1);

    o.set_flag(Flags6502::V, true);
    assert_eq!(o.get_flag(Flags6502::V), 1);

    o.set_flag(Flags6502::N, true);
    assert_eq!(o.get_flag(Flags6502::N), 1);
}

#[test]
#[allow(non_snake_case)]
fn test_irq_and_RTI() {
    let mut o: Olc6502 = create_olc6502();
    o.prog_ctr = 0x11EC;
    o.status_reg = 0x0B;
    o.bus.write(0xFFFE, 0xAD);
    o.bus.write(0xFFFF, 0xDE);
    let old_pc = o.prog_ctr;
    let old_stack = o.stack_top();
    o.irq();
    assert_eq!(o.bus.read(0x01FD), 0x11);
    assert_eq!(o.bus.read(0x01FC), 0xEC);
    assert_eq!(o.bus.read(0x01FB), 0x2B);
    assert_eq!(o.prog_ctr, 0xDEAD);
    assert_eq!(o.get_flag(Flags6502::I), 1);
    assert_eq!(o.get_flag(Flags6502::B), 0);
    assert_eq!(o.get_flag(Flags6502::U), 1);
    RTI(&mut o);
    assert_eq!(o.prog_ctr, old_pc);
    assert_eq!(o.get_flag(Flags6502::C), 1);
    assert_eq!(o.get_flag(Flags6502::Z), 1);
    assert_eq!(o.get_flag(Flags6502::I), 0);
    assert_eq!(o.get_flag(Flags6502::D), 1);
    assert_eq!(o.get_flag(Flags6502::V), 0);
    assert_eq!(o.get_flag(Flags6502::N), 0);
    assert_eq!(o.stack_top(), old_stack);
}

#[test]
fn test_nmi() {
    let mut o: Olc6502 = create_olc6502();
    o.prog_ctr = 0x11EC;
    o.status_reg = 0x28;
    o.bus.write(0xFFFA, 0xAD);
    o.bus.write(0xFFFB, 0xDE);
    o.nmi();
    assert_eq!(o.bus.read(0x01FD), 0x11);
    assert_eq!(o.bus.read(0x01FC), 0xEC);
    assert_eq!(o.bus.read(0x01FB), 0x28);
    assert_eq!(o.prog_ctr, 0xDEAD);
    assert_eq!(o.get_flag(Flags6502::I), 1);
    assert_eq!(o.get_flag(Flags6502::B), 0);
    assert_eq!(o.get_flag(Flags6502::U), 1);
}
