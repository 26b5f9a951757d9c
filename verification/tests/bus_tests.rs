use yane::bus::{create_bus, Bus};

#[test]
fn test_write() {
    let mut b: Bus = create_bus();
    b.write(0x24, 0x20);
    assert!(b.ram[0x24] == 0x20);
}

#[test]
fn test_read() {
    let mut b: Bus = create_bus();
    b.ram[0x24] = 0x20;
    assert!(b.read(0x24) == 0x20);
}

#[test]
fn write_mirrored_address() {
    let mut b: Bus = create_bus();
    b.write(0x1111, 0xEA);
    assert!(b.ram[0x111] == 0xEA);
}

#[test]
fn mirrored_read() {
    let mut b: Bus = create_bus();
    b.ram[0x0] = 0xEA;
    assert!(b.read(0x800) == 0xEA);
}
