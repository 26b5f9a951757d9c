//! Cartridges and the iNES image format.

use vstd::prelude::*;
use vstd::slice::{slice_subrange, slice_to_vec};
use crate::error::NesError;
use crate::mapper::{create_mapper, Mapper, NROM};

verus! {

/// Size of one program ROM bank.
pub const PROGRAM_ROM_CHUNK_SIZE: usize = 16384;

/// Size of one character ROM bank.
pub const CHARACTER_ROM_CHUNK_SIZE: usize = 8192;

/// Size of the iNES header.
pub const HEADER_SIZE: usize = 16;

/// Size of the optional trainer block between header and program ROM.
pub const TRAINER_SIZE: usize = 512;

/// The sixteen bytes at the start of an iNES image.
#[derive(Clone, Copy, Debug)]
pub struct Header {
    pub name: [u8; 4],
    /// Program ROM size in 16 KiB units.
    pub prg_rom_chunks: u8,
    /// Character ROM size in 8 KiB units.
    pub chr_rom_chunks: u8,
    pub mapper1: u8,
    pub mapper2: u8,
    pub prg_ram_size: u8,
    pub tv_system1: u8,
    pub tv_system2: u8,
    pub unused: [u8; 5],
}

/// A parsed ROM image.
pub struct Cartridge {
    pub header: Header,
    pub mapper_id: u8,
    pub program_rom: Vec<u8>,
    pub character_rom: Vec<u8>,
    pub mapper: NROM,
}

/// What a cartridge holds, as plain values.
pub struct CartridgeState {
    pub header: Header,
    pub mapper_id: u8,
    pub program_rom: Seq<u8>,
    pub character_rom: Seq<u8>,
    pub mapper: NROM,
}

impl View for Cartridge {
    type V = CartridgeState;

    open spec fn view(&self) -> CartridgeState {
        CartridgeState {
            header: self.header,
            mapper_id: self.mapper_id,
            program_rom: self.program_rom@,
            character_rom: self.character_rom@,
            mapper: self.mapper,
        }
    }
}

impl CartridgeState {
    /// The byte that the processor sees at `addr`: the program ROM byte
    /// that the mapper selects, or 0 where the ROM does not reach.
    pub open spec fn read_prg(self, addr: u16) -> u8 {
        let offset = self.mapper.mapped(addr) as int;
        if offset < self.program_rom.len() {
            self.program_rom[offset]
        } else {
            0
        }
    }
}

impl Cartridge {
    /// The byte that the processor sees at `addr`.
    pub fn read_prg(&self, addr: u16) -> (data: u8)
        ensures
            data == self@.read_prg(addr),
    {
        let offset = self.mapper.map_address(addr) as usize;
        if offset < self.program_rom.len() {
            self.program_rom[offset]
        } else {
            0
        }
    }
}

/// The mapper number that the two flag bytes of a header encode.
pub open spec fn mapper_id_of(mapper1: u8, mapper2: u8) -> u8 {
    ((mapper2 / 16) * 16 + mapper1 / 16) as u8
}

/// Whether the header announces a trainer block.
pub open spec fn has_trainer(mapper1: u8) -> bool {
    (mapper1 / 4) % 2 == 1
}

/// The header that the first sixteen bytes of `bytes` spell.
pub open spec fn header_of(bytes: Seq<u8>) -> Header
    recommends
        bytes.len() >= 16,
{
    Header {
        name: [bytes[0], bytes[1], bytes[2], bytes[3]],
        prg_rom_chunks: bytes[4],
        chr_rom_chunks: bytes[5],
        mapper1: bytes[6],
        mapper2: bytes[7],
        prg_ram_size: bytes[8],
        tv_system1: bytes[9],
        tv_system2: bytes[10],
        unused: [bytes[11], bytes[12], bytes[13], bytes[14], bytes[15]],
    }
}

/// Where the program ROM starts in an image with header `h`.
pub open spec fn prg_start(h: Header) -> int {
    if has_trainer(h.mapper1) {
        528
    } else {
        16
    }
}

/// Where the program ROM ends and the character ROM starts.
pub open spec fn prg_end(h: Header) -> int {
    prg_start(h) + h.prg_rom_chunks * 16384
}

/// Where the character ROM ends.
pub open spec fn chr_end(h: Header) -> int {
    prg_end(h) + h.chr_rom_chunks * 8192
}

/// What loading the image `bytes` gives: the cartridge, `FileError` where
/// the image is shorter than its header says, or `UnsupportedMapper` where
/// it is complete but asks for a mapper other than 0.
pub open spec fn parse_image(bytes: Seq<u8>) -> Result<CartridgeState, NesError> {
    if bytes.len() < 16 {
        Err(NesError::FileError)
    } else {
        let h = header_of(bytes);
        let id = mapper_id_of(h.mapper1, h.mapper2);
        if bytes.len() < chr_end(h) {
            Err(NesError::FileError)
        } else if id != 0 {
            Err(NesError::UnsupportedMapper(id))
        } else {
            Ok(
                CartridgeState {
                    header: h,
                    mapper_id: id,
                    program_rom: bytes.subrange(prg_start(h), prg_end(h)),
                    character_rom: bytes.subrange(prg_end(h), chr_end(h)),
                    mapper: NROM {
                        num_prg_banks: h.prg_rom_chunks,
                        num_chr_banks: h.chr_rom_chunks,
                    },
                },
            )
        }
    }
}

/// Reads the header from the start of a ROM image.
pub fn read_header(file_buffer: &Vec<u8>) -> (header: Header)
    requires
        file_buffer.len() >= 16,
    ensures
        header == header_of(file_buffer@),
{
    let header = Header {
        name: [file_buffer[0], file_buffer[1], file_buffer[2], file_buffer[3]],
        prg_rom_chunks: file_buffer[4],
        chr_rom_chunks: file_buffer[5],
        mapper1: file_buffer[6],
        mapper2: file_buffer[7],
        prg_ram_size: file_buffer[8],
        tv_system1: file_buffer[9],
        tv_system2: file_buffer[10],
        unused: [
            file_buffer[11],
            file_buffer[12],
            file_buffer[13],
            file_buffer[14],
            file_buffer[15],
        ],
    };
    assert(header.name =~= header_of(file_buffer@).name);
    assert(header.unused =~= header_of(file_buffer@).unused);
    header
}

/// The mapper number that the two flag bytes of a header encode.
pub fn mapper_id(mapper1: u8, mapper2: u8) -> (id: u8)
    ensures
        id == mapper_id_of(mapper1, mapper2),
{
    assert((((mapper2 >> 4) << 4) | (mapper1 >> 4)) == ((mapper2 / 16) * 16 + mapper1 / 16) as u8)
        by (bit_vector);
    ((mapper2 >> 4) << 4) | (mapper1 >> 4)
}

/// Builds a cartridge from the contents of an iNES file.
pub fn create_cartridge_from_file(file_buffer: &Vec<u8>) -> (loaded: Result<
    Box<Cartridge>,
    NesError,
>)
    ensures
        match loaded {
            Ok(cartridge) => parse_image(file_buffer@) == Ok::<CartridgeState, NesError>(
                cartridge@,
            ),
            Err(e) => parse_image(file_buffer@) == Err::<CartridgeState, NesError>(e),
        },
{
    if file_buffer.len() < HEADER_SIZE {
        return Err(NesError::FileError);
    }
    let header = read_header(file_buffer);
    let id = mapper_id(header.mapper1, header.mapper2);
    let m1 = header.mapper1;
    assert(((m1 & 0x04) != 0) == ((m1 / 4) % 2 == 1)) by (bit_vector);
    let has_trainer_block = header.mapper1 & 0x04 != 0;
    let prg_starting_index: usize = if has_trainer_block {
        HEADER_SIZE + TRAINER_SIZE
    } else {
        HEADER_SIZE
    };
    let program_rom_len: usize = (header.prg_rom_chunks as usize) * PROGRAM_ROM_CHUNK_SIZE;
    let prg_ending_index: usize = prg_starting_index + program_rom_len;
    let character_rom_len: usize = (header.chr_rom_chunks as usize) * CHARACTER_ROM_CHUNK_SIZE;
    let chr_ending_index: usize = prg_ending_index + character_rom_len;
    if file_buffer.len() < chr_ending_index {
        return Err(NesError::FileError);
    }
    let mapper = match create_mapper(id, header.prg_rom_chunks, header.chr_rom_chunks) {
        Ok(m) => *m,
        Err(e) => {
            return Err(e);
        },
    };
    let program_rom = slice_to_vec(
        slice_subrange(file_buffer.as_slice(), prg_starting_index, prg_ending_index),
    );
    let character_rom = slice_to_vec(
        slice_subrange(file_buffer.as_slice(), prg_ending_index, chr_ending_index),
    );
    Ok(Box::new(Cartridge { header, mapper_id: id, program_rom, character_rom, mapper }))
}

} // verus!
