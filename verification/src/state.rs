//! The abstract state of the processor.

use vstd::prelude::*;
use crate::bus::BusState;
use crate::error::NesError;
use crate::instruction::{mode_of, AddrMode};

verus! {

/// The processor and what it is wired to, as plain values.
///
/// This is the abstract machine that the contracts of the interpreter
/// speak of: every operation is a function from one `CpuState` to the next.
pub struct CpuState {
    pub accumulator: u8,
    pub x_reg: u8,
    pub y_reg: u8,
    pub stack_ptr: u8,
    pub prog_ctr: u16,
    pub status_reg: u8,
    pub bus: BusState,
    /// The operand that the current instruction works on.
    pub fetched_data: u8,
    /// The address that the addressing mode computed.
    pub addr_abs: u16,
    pub addr_rel: u16,
    /// The opcode of the current instruction.
    pub opcode: u8,
    /// Cycles left until the current instruction retires.
    pub cycles: u8,
    /// Set once the processor has halted.
    pub program_complete: bool,
    /// Whether a BRK met with an empty stack halts the processor.
    pub halt_on_brk: bool,
    /// Why the processor halted, where an error stopped it.
    pub fault: Option<NesError>,
    /// Whether a trace line is recorded for each instruction.
    pub trace_enabled: bool,
    /// The trace lines recorded so far.
    pub trace: Seq<Seq<char>>,
}

/// `v + 1`, wrapping at 8 bits.
pub open spec fn inc8(v: u8) -> u8 {
    if v == 0xFF {
        0
    } else {
        (v + 1) as u8
    }
}

/// `v - 1`, wrapping at 8 bits.
pub open spec fn dec8(v: u8) -> u8 {
    if v == 0 {
        0xFF
    } else {
        (v - 1) as u8
    }
}

/// `a + n`, wrapping at 16 bits.
pub open spec fn add16(a: u16, n: int) -> u16 {
    ((a + n) % 0x10000) as u16
}

/// The high byte of `w`.
pub open spec fn hi_byte(w: u16) -> u8 {
    (w / 256) as u8
}

/// The low byte of `w`.
pub open spec fn lo_byte(w: u16) -> u8 {
    (w % 256) as u8
}

/// The value of `b` read as a signed byte.
pub open spec fn signed8(b: u8) -> int {
    if b >= 0x80 {
        b - 0x100
    } else {
        b as int
    }
}

/// Whether `a` and `b` lie in the same 256-byte page.
pub open spec fn same_page(a: u16, b: u16) -> bool {
    a / 256 == b / 256
}

/// The address of the stack slot that `sp` points at.
pub open spec fn stack_slot(sp: u8) -> u16 {
    (0x0100 + sp) as u16
}

impl CpuState {
    /// The memories behind the bus have their full size.
    pub open spec fn wf(self) -> bool {
        self.bus.wf()
    }

    /// The byte on the bus at `addr`.
    pub open spec fn read(self, addr: u16) -> u8 {
        self.bus.read(addr)
    }

    /// The state after `data` was written to `addr`.
    pub open spec fn write(self, addr: u16, data: u8) -> CpuState {
        CpuState { bus: self.bus.write(addr, data), ..self }
    }

    /// The address of the stack slot that SP points at.
    pub open spec fn stack_top(self) -> u16 {
        stack_slot(self.stack_ptr)
    }

    /// The state after `data` was pushed: stored at SP, then SP lowered.
    pub open spec fn push(self, data: u8) -> CpuState {
        CpuState {
            bus: self.bus.write(self.stack_top(), data),
            stack_ptr: dec8(self.stack_ptr),
            ..self
        }
    }

    /// The state after a pull: SP raised. The pulled byte is `top()` of
    /// the new state.
    pub open spec fn pull(self) -> CpuState {
        CpuState { stack_ptr: inc8(self.stack_ptr), ..self }
    }

    /// The byte in the stack slot that SP points at.
    pub open spec fn top(self) -> u8 {
        self.bus.read(self.stack_top())
    }

    /// The operand of the current instruction: the accumulator in
    /// accumulator mode, what was fetched before in implied mode, and the
    /// byte at `addr_abs` in every other mode.
    pub open spec fn operand(self) -> u8 {
        match mode_of(self.opcode) {
            AddrMode::ACC => self.accumulator,
            AddrMode::IMP => self.fetched_data,
            _ => self.bus.read(self.addr_abs),
        }
    }

    /// The state after the operand was fetched.
    pub open spec fn fetch(self) -> CpuState {
        CpuState { fetched_data: self.operand(), ..self }
    }

    /// The state after a result was stored where the operand came from:
    /// in the accumulator in accumulator mode, at `addr_abs` otherwise.
    pub open spec fn store_result(self, result: u8) -> CpuState {
        if mode_of(self.opcode) == AddrMode::ACC {
            CpuState { accumulator: result, ..self }
        } else {
            self.write(self.addr_abs, result)
        }
    }

    /// The word that the two bytes at `prog_ctr` spell.
    pub open spec fn operand_word(self) -> u16 {
        self.bus.read16(self.prog_ctr)
    }
}

} // verus!
