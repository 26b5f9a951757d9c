use yane::cartridge::{
    create_cartridge_from_file, read_header, Cartridge, Header, CHARACTER_ROM_CHUNK_SIZE,
    PROGRAM_ROM_CHUNK_SIZE,
};
use yane::error::NesError;

/// An image laid out like the nestest ROM: one program bank that starts
/// with a JMP and ends with `0xC5`, one empty character bank, mapper 0.
fn test_image() -> Vec<u8> {
    let mut image: Vec<u8> = vec![0x4E, 0x45, 0x53, 0x1A, 0x01, 0x01, 0x00, 0x00];
    image.extend_from_slice(&[0x00; 8]);
    let mut program = vec![0xEA; PROGRAM_ROM_CHUNK_SIZE];
    program[0] = 0x4C;
    program[1] = 0xF5;
    program[2] = 0xC5;
    program[PROGRAM_ROM_CHUNK_SIZE - 1] = 0xC5;
    image.extend_from_slice(&program);
    image.extend_from_slice(&vec![0x00; CHARACTER_ROM_CHUNK_SIZE]);
    image
}

#[test]
fn verify_header_read() {
    let file_buffer = test_image();
    let header: Header = read_header(&file_buffer);

    assert!(header.name == [0x4E, 0x45, 0x53, 0x1A]);
    assert!(header.prg_rom_chunks == 0x01);
    assert!(header.chr_rom_chunks == 0x01);
    assert!(header.mapper1 == 0x00);
    assert!(header.mapper2 == 0x00);
    assert!(header.prg_ram_size == 0x00);
    assert!(header.tv_system1 == 0x00);
    assert!(header.tv_system2 == 0x00);
    assert!(header.unused == [0x00, 0x00, 0x00, 0x00, 0x00]);
}

#[test]
fn verify_program_rom_read() {
    let file_buffer = test_image();
    let cartridge: Box<Cartridge> = create_cartridge_from_file(&file_buffer).unwrap();

    assert!(cartridge.program_rom.len() == PROGRAM_ROM_CHUNK_SIZE);
    assert!(cartridge.program_rom.first() == Some(&0x4C));
    assert!(cartridge.program_rom.last() == Some(&0xC5));
}

#[test]
fn verify_character_rom_read() {
    let file_buffer = test_image();
    let cartridge: Box<Cartridge> = create_cartridge_from_file(&file_buffer).unwrap();

    assert!(cartridge.character_rom.len() == CHARACTER_ROM_CHUNK_SIZE);
    assert!(cartridge.character_rom.first() == Some(&0x00));
    assert!(cartridge.character_rom.last() == Some(&0x00));
}

#[test]
fn image_shorter_than_header_is_a_file_error() {
    let file_buffer = vec![0x4E, 0x45, 0x53, 0x1A, 0x01];
    assert!(matches!(create_cartridge_from_file(&file_buffer), Err(NesError::FileError)));
}

#[test]
fn image_shorter_than_announced_is_a_file_error() {
    let mut file_buffer = test_image();
    file_buffer.pop();
    assert!(matches!(create_cartridge_from_file(&file_buffer), Err(NesError::FileError)));
}

#[test]
fn mapper_other_than_nrom_is_refused() {
    let mut file_buffer = test_image();
    file_buffer[6] = 0x10;
    file_buffer[7] = 0x40;
    assert!(matches!(
        create_cartridge_from_file(&file_buffer),
        Err(NesError::UnsupportedMapper(0x41))
    ));
}

#[test]
fn trainer_block_precedes_program_rom() {
    let mut file_buffer: Vec<u8> = vec![0x4E, 0x45, 0x53, 0x1A, 0x01, 0x00, 0x04, 0x00];
    file_buffer.extend_from_slice(&[0x00; 8]);
    file_buffer.extend_from_slice(&[0x77; 512]);
    let mut program = vec![0x11; PROGRAM_ROM_CHUNK_SIZE];
    program[0] = 0xA9;
    file_buffer.extend_from_slice(&program);
    let cartridge = create_cartridge_from_file(&file_buffer).unwrap();
    assert_eq!(cartridge.program_rom.len(), PROGRAM_ROM_CHUNK_SIZE);
    assert_eq!(cartridge.program_rom[0], 0xA9);
    assert_eq!(cartridge.character_rom.len(), 0);
    assert_eq!(cartridge.mapper_id, 0);
}

#[test]
fn cartridge_reads_through_the_mapper() {
    let cartridge = create_cartridge_from_file(&test_image()).unwrap();
    assert_eq!(cartridge.read_prg(0x8000), 0x4C);
    assert_eq!(cartridge.read_prg(0xC000), 0x4C);
    assert_eq!(cartridge.read_prg(0xFFFF), 0xC5);
    assert_eq!(cartridge.read_prg(0xBFFF), 0xC5);
}
