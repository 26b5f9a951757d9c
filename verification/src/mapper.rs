//! Cartridge mappers. Only NROM, mapper 0, exists.

use vstd::prelude::*;
use crate::error::NesError;

verus! {

/// Cartridge logic that turns an address seen by the processor into an
/// offset into the cartridge's program ROM.
pub trait Mapper {
    /// The offset that `input_addr` maps to.
    spec fn mapped(&self, input_addr: u16) -> u32;

    /// Translates an address seen by the processor.
    fn map_address(&self, input_addr: u16) -> (offset: u32)
        ensures
            offset == self.mapped(input_addr),
    ;
}

/// Mapper 0: one or two fixed 16 KiB program banks.
#[allow(clippy::upper_case_acronyms)]
#[derive(Clone, Copy, Debug, PartialEq, Eq, Structural)]
pub struct NROM {
    pub num_prg_banks: u8,
    pub num_chr_banks: u8,
}

impl Mapper for NROM {
    /// With one bank the 16 KiB repeat through the whole address space;
    /// with more, 32 KiB do.
    open spec fn mapped(&self, input_addr: u16) -> u32 {
        if self.num_prg_banks > 1 {
            (input_addr % 0x8000) as u32
        } else {
            (input_addr % 0x4000) as u32
        }
    }

    fn map_address(&self, input_addr: u16) -> (offset: u32) {
        if self.num_prg_banks > 1 {
            assert(input_addr & 0x7FFF == input_addr % 0x8000) by (bit_vector);
            (input_addr & 0x7FFF) as u32
        } else {
            assert(input_addr & 0x3FFF == input_addr % 0x4000) by (bit_vector);
            (input_addr & 0x3FFF) as u32
        }
    }
}

/// Builds the mapper that a cartridge header asks for. Only mapper 0 exists.
pub fn create_mapper(mapper_id: u8, num_prg_banks: u8, num_chr_banks: u8) -> (made: Result<
    Box<NROM>,
    NesError,
>)
    ensures
        made == (if mapper_id == 0 {
            Ok::<Box<NROM>, NesError>(Box::new(NROM { num_prg_banks, num_chr_banks }))
        } else {
            Err::<Box<NROM>, NesError>(NesError::UnsupportedMapper(mapper_id))
        }),
{
    match mapper_id {
        0 => Ok(Box::new(NROM { num_prg_banks, num_chr_banks })),
        _ => Err(NesError::UnsupportedMapper(mapper_id)),
    }
}

} // verus!
