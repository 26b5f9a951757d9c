use yane::olc2C02::create_olc2C02;

#[test]
fn write_to_and_read_from_cpu_bus() {
    let mut ppu = create_olc2C02();
    ppu.cpu_write(0x24, 0x20);
    assert_eq!(ppu.cpu_read(0x24), 0x20);
}

#[test]
fn dot_and_scanline_wrap() {
    let mut ppu = create_olc2C02();
    for _ in 0..340 {
        ppu.clock();
    }
    assert_eq!((ppu.scanline, ppu.cycle), (0, 340));
    assert_eq!(ppu.pixel_position(), (340, 1));
    ppu.clock();
    assert_eq!((ppu.scanline, ppu.cycle), (1, 0));
    assert!(!ppu.frame_complete);

    ppu.scanline = 260;
    ppu.cycle = 340;
    ppu.clock();
    assert_eq!((ppu.scanline, ppu.cycle), (-1, 0));
    assert!(ppu.frame_complete);
    assert_eq!(ppu.pixel_position(), (0, 0));

    // the mark stays until it is taken
    ppu.clock();
    assert!(ppu.frame_complete);
    assert!(ppu.take_frame_complete());
    assert!(!ppu.frame_complete);
    assert!(!ppu.take_frame_complete());
}
