//! Core of a NES emulator: the 6502 interpreter, its memory bus, iNES cartridge
//! loading with the NROM mapper, the picture unit's timing counters and the
//! trace format used to compare runs against a Nintendulator log.
//!
//! Every executable function carries a contract over an abstract model of the
//! machine (`CpuState`, `BusState`, ...), and the laws that relate several
//! operations are proved in `laws`.
//!
//! Two functions are believed, not proved, because they call into other
//! crates: `text::encode_upper` (the `hex` crate) and `logline::find_first`
//! (the `regex` crate). What is claimed of each stands in its doc comment.

pub mod error;
pub mod flags;
pub mod mapper;
pub mod cartridge;
pub mod text;
pub mod bus;
pub mod instruction;
pub mod state;
pub mod isa;
pub mod olc6502;
pub mod addressing;
pub mod opcodes;
#[allow(non_snake_case)]
pub mod olc2C02;
pub mod nes;
pub mod logline;
pub mod laws;

