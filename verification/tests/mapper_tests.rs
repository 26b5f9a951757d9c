use yane::mapper::{create_mapper, Mapper};

#[test]
fn map_16k() {
    let nrom = create_mapper(0, 1, 1).unwrap();
    assert!(nrom.map_address(0x0000) == 0x0000);
    assert!(nrom.map_address(0x1000) == 0x1000);
    assert!(nrom.map_address(0x2000) == 0x2000);
    assert!(nrom.map_address(0x3000) == 0x3000);
    assert!(nrom.map_address(0x4000) == 0x0000);
    assert!(nrom.map_address(0x5000) == 0x1000);
    assert!(nrom.map_address(0x6000) == 0x2000);
    assert!(nrom.map_address(0x7000) == 0x3000);
    assert!(nrom.map_address(0x8000) == 0x0000);
    assert!(nrom.map_address(0x9000) == 0x1000);
    assert!(nrom.map_address(0xA000) == 0x2000);
    assert!(nrom.map_address(0xB000) == 0x3000);
    assert!(nrom.map_address(0xC000) == 0x0000);
    assert!(nrom.map_address(0xD000) == 0x1000);
    assert!(nrom.map_address(0xE000) == 0x2000);
    assert!(nrom.map_address(0xF000) == 0x3000);
}

#[test]
fn map_32k() {
    let nrom = create_mapper(0, 2, 1).unwrap();
    assert!(nrom.map_address(0x0000) == 0x0000);
    assert!(nrom.map_address(0x1000) == 0x1000);
    assert!(nrom.map_address(0x2000) == 0x2000);
    assert!(nrom.map_address(0x3000) == 0x3000);
    assert!(nrom.map_address(0x4000) == 0x4000);
    assert!(nrom.map_address(0x5000) == 0x5000);
    assert!(nrom.map_address(0x6000) == 0x6000);
    assert!(nrom.map_address(0x7000) == 0x7000);
    assert!(nrom.map_address(0x8000) == 0x0000);
    assert!(nrom.map_address(0x9000) == 0x1000);
    assert!(nrom.map_address(0xA000) == 0x2000);
    assert!(nrom.map_address(0xB000) == 0x3000);
    assert!(nrom.map_address(0xC000) == 0x4000);
    assert!(nrom.map_address(0xD000) == 0x5000);
    assert!(nrom.map_address(0xE000) == 0x6000);
    assert!(nrom.map_address(0xF000) == 0x7000);
}

#[test]
fn unsupported_mapper_is_refused() {
    assert!(create_mapper(4, 1, 1).is_err());
}
