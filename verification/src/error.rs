//! The errors of loading and running.

use vstd::prelude::*;

verus! {

/// The ways in which loading or running a program can fail.
#[derive(Clone, Copy, Debug, PartialEq, Eq, Structural)]
pub enum NesError {
    /// The ROM image is shorter than its header announces.
    FileError,
    /// The cartridge asks for a mapper other than NROM.
    UnsupportedMapper(u8),
    /// The byte fetched at `pc` is not a documented opcode.
    InvalidOpcode { opcode: u8, pc: u16 },
}

impl NesError {
    /// A one-line description of the error.
    pub fn message(&self) -> (text: &'static str)
        ensures
            text@ == match *self {
                NesError::FileError => "ROM file is too short"@,
                NesError::UnsupportedMapper(_) => "unsupported mapper"@,
                NesError::InvalidOpcode { .. } => "invalid opcode at PC"@,
            },
    {
        match self {
            NesError::FileError => "ROM file is too short",
            NesError::UnsupportedMapper(_) => "unsupported mapper",
            NesError::InvalidOpcode { .. } => "invalid opcode at PC",
        }
    }
}

} // verus!
