use yane::cartridge::{CHARACTER_ROM_CHUNK_SIZE, PROGRAM_ROM_CHUNK_SIZE};
use yane::error::NesError;
use yane::nes::create_nes;

/// More cycles than any of these programs needs.
const MAX_CLOCKS: u64 = 1_000_000;

/// An image laid out like the nestest ROM: one program bank that starts
/// with a JMP and ends with `0xC5`, one empty character bank, mapper 0.
fn test_image() -> Vec<u8> {
    let mut image: Vec<u8> = vec![0x4E, 0x45, 0x53, 0x1A, 0x01, 0x01, 0x00, 0x00];
    image.extend_from_slice(&[0x00; 8]);
    let mut program = vec![0xEA; PROGRAM_ROM_CHUNK_SIZE];
    program[0] = 0x4C;
    program[1] = 0xF5;
    program[2] = 0xC5;
    program[PROGRAM_ROM_CHUNK_SIZE - 1] = 0xC5;
    image.extend_from_slice(&program);
    image.extend_from_slice(&vec![0x00; CHARACTER_ROM_CHUNK_SIZE]);
    image
}

#[test]
fn load_and_run_program() {
    // the short loop again, this time through the console, to test
    // that the emulator's cpu and memory are wired up properly
    /* Program listing
      *=$8000
      LDX #$08
      decrement:
      DEX
      STX $0200
      CPX #$03
      BNE decrement
      STX $0201
      NOP
      NOP
      NOP
    */
    let assembled_source: String = "A2 08 CA 8E 00 02 E0 03 D0 F8 8E 01 02 EA EA EA".to_string();
    let mut nes = create_nes();
    nes.ppu.cpu.set_trace(true);
    assert!(nes.load_program(assembled_source));
    let _ = nes.run_program(MAX_CLOCKS);
    assert!(nes.read_cpu_address(0x0201) == 0x03);
}

#[test]
fn read_from_cartridge() {
    let mut nes = create_nes();
    nes.load_rom(&test_image()).unwrap();
    let result = nes.read_cpu_address(0x8000);
    assert!(result == 0x4C);
}

#[test]
fn refused_rom_leaves_the_slot_empty() {
    let mut nes = create_nes();
    nes.write_cpu_address(0x8000, 0x12);
    let mut image = test_image();
    image[6] = 0x20;
    assert_eq!(nes.load_rom(&image), Err(NesError::UnsupportedMapper(2)));
    assert!(nes.ppu.cpu.bus.cartridge.is_none());
    assert_eq!(nes.read_cpu_address(0x8000), 0x12);
}

#[test]
fn processor_is_clocked_on_every_third_tick() {
    let mut nes = create_nes();
    // after reset the processor has 8 cycles to count down
    assert_eq!(nes.ppu.cpu.cycles, 8);
    nes.clock();
    nes.clock();
    assert_eq!(nes.ppu.cpu.cycles, 8);
    assert_eq!(nes.ppu.cycle, 2);
    nes.clock();
    assert_eq!(nes.ppu.cpu.cycles, 7);
    assert_eq!(nes.ppu.cycle, 3);
    for _ in 0..6 {
        nes.clock();
    }
    assert_eq!(nes.ppu.cpu.cycles, 5);
    assert_eq!(nes.ppu.cycle, 9);
}

#[test]
fn a_frame_takes_261_scanlines_of_341_dots() {
    let mut nes = create_nes();
    // the console starts at scanline 0; the pre-render line is not run
    let mut ticks: u32 = 0;
    while !nes.ppu.frame_complete {
        nes.clock();
        ticks += 1;
    }
    assert_eq!(ticks, 261 * 341);
    assert_eq!(nes.ppu.scanline, -1);
    assert_eq!(nes.ppu.cycle, 0);

    let mut again = create_nes();
    again.run_frame();
    assert!(again.ppu.frame_complete);
    assert_eq!(again.ppu.scanline, -1);
    assert_eq!(again.ppu.cycle, 0);
    assert_eq!(again.ppu.cpu.cycles, nes.ppu.cpu.cycles);
    assert_eq!(again.ppu.cpu.prog_ctr, nes.ppu.cpu.prog_ctr);

    // a full frame from the pre-render line on has 262 scanlines
    assert!(nes.ppu.take_frame_complete());
    let mut ticks: u32 = 0;
    while !nes.ppu.frame_complete {
        nes.clock();
        ticks += 1;
    }
    assert_eq!(ticks, 262 * 341);
}

#[test]
fn reset_starts_a_new_frame() {
    let mut nes = create_nes();
    nes.write_cpu_address(0xFFFC, 0x34);
    nes.write_cpu_address(0xFFFD, 0x12);
    for _ in 0..1000 {
        nes.clock();
    }
    nes.reset();
    assert_eq!(nes.ppu.scanline, 0);
    assert_eq!(nes.ppu.cycle, 0);
    assert!(!nes.ppu.frame_complete);
    assert_eq!(nes.phase, 0);
    assert_eq!(nes.ppu.cpu.prog_ctr, 0x1234);
    assert_eq!(nes.ppu.cpu.stack_ptr, 0xFD);
    assert_eq!(nes.ppu.cpu.cycles, 8);
}
