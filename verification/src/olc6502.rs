//! The 6502 processor.

use vstd::prelude::*;
use vstd::std_specs::cmp::PartialEqSpecImpl;
use vstd::string::StringExecFns;
use crate::bus::{create_bus, Bus};
use crate::error::NesError;
use crate::flags::{flag_set, push_status, read_flag, write_flag, Flags6502};
use crate::instruction::{
    instruction_at,
    lemma_instruction_bounds,
    lookup,
    AddrMode,
    Instruction,
    Op,
};
use crate::addressing::address;
use crate::isa;
use crate::opcodes::operate;
use crate::state::{hi_byte, lo_byte, CpuState};
use crate::text::encode_upper;

verus! {

/// Base address of the stack page.
pub const STACK_BASE: u16 = 0x0100;

/// Where a loaded program starts.
pub const PROGRAM_BASE: u16 = 0x8000;

/// The 6502 processor with the bus it drives.
pub struct Olc6502 {
    pub accumulator: u8,
    pub x_reg: u8,
    pub y_reg: u8,
    pub stack_ptr: u8,
    pub prog_ctr: u16,
    pub status_reg: u8,
    pub bus: Bus,
    pub fetched_data: u8,
    pub addr_abs: u16,
    pub addr_rel: u16,
    pub opcode: u8,
    pub cycles: u8,
    pub program_complete: bool,
    pub halt_on_brk: bool,
    pub fault: Option<NesError>,
    pub trace_enabled: bool,
    pub trace: Vec<String>,
}

/// The lines that `trace` holds, as plain values.
pub open spec fn lines_of(trace: Seq<String>) -> Seq<Seq<char>> {
    Seq::new(trace.len(), |i: int| trace[i]@)
}

impl View for Olc6502 {
    type V = CpuState;

    open spec fn view(&self) -> CpuState {
        CpuState {
            accumulator: self.accumulator,
            x_reg: self.x_reg,
            y_reg: self.y_reg,
            stack_ptr: self.stack_ptr,
            prog_ctr: self.prog_ctr,
            status_reg: self.status_reg,
            bus: self.bus@,
            fetched_data: self.fetched_data,
            addr_abs: self.addr_abs,
            addr_rel: self.addr_rel,
            opcode: self.opcode,
            cycles: self.cycles,
            program_complete: self.program_complete,
            halt_on_brk: self.halt_on_brk,
            fault: self.fault,
            trace_enabled: self.trace_enabled,
            trace: lines_of(self.trace@),
        }
    }
}

impl PartialEq for Olc6502 {
    /// Two processors are equal when their registers, their scratch
    /// fields and the memories behind their buses are.
    fn eq(&self, other: &Olc6502) -> (same: bool) {
        self.accumulator == other.accumulator && self.x_reg == other.x_reg && self.y_reg
            == other.y_reg && self.stack_ptr == other.stack_ptr && self.prog_ctr == other.prog_ctr
            && self.status_reg == other.status_reg && self.bus == other.bus && self.fetched_data
            == other.fetched_data && self.addr_abs == other.addr_abs && self.addr_rel
            == other.addr_rel && self.opcode == other.opcode && self.cycles == other.cycles
    }
}

impl PartialEqSpecImpl for Olc6502 {
    open spec fn obeys_eq_spec() -> bool {
        true
    }

    open spec fn eq_spec(&self, other: &Olc6502) -> bool {
        self.accumulator == other.accumulator && self.x_reg == other.x_reg && self.y_reg
            == other.y_reg && self.stack_ptr == other.stack_ptr && self.prog_ctr == other.prog_ctr
            && self.status_reg == other.status_reg && self.bus.ram@ == other.bus.ram@
            && self.bus.slot_ram@ == other.bus.slot_ram@ && self.fetched_data
            == other.fetched_data && self.addr_abs == other.addr_abs && self.addr_rel
            == other.addr_rel && self.opcode == other.opcode && self.cycles == other.cycles
    }
}

/// The high byte of `w`.
pub fn high_byte(w: u16) -> (b: u8)
    ensures
        b == hi_byte(w),
{
    assert((w >> 8) == w / 256) by (bit_vector);
    (w >> 8) as u8
}

/// The low byte of `w`.
pub fn low_byte(w: u16) -> (b: u8)
    ensures
        b == lo_byte(w),
{
    assert((w & 0x00FF) == w % 256) by (bit_vector);
    (w & 0x00FF) as u8
}

impl Olc6502 {
    /// Resets the processor: registers cleared, SP at `0xFD`, I and U
    /// set, PC loaded from the vector at `0xFFFC`, eight cycles to go.
    pub fn reset(&mut self)
        ensures
            final(self)@ == isa::reset(old(self)@),
            final(self).stack_ptr == 0xFD,
            final(self).status_reg & 0b0010_0100 == 0b0010_0100,
            final(self).prog_ctr == old(self)@.bus.read16(0xFFFC),
    {
        self.addr_abs = 0xFFFC;
        let pc = self.bus.read16(self.addr_abs);

        self.accumulator = 0;
        self.x_reg = 0;
        self.y_reg = 0;
        self.stack_ptr = 0xFD;
        self.prog_ctr = pc;
        self.status_reg = 0x24;

        self.fetched_data = 0;
        self.addr_abs = 0;
        self.addr_rel = 0;
        self.opcode = 0;
        self.cycles = 8;
        assert(0x24u8 & 0b0010_0100 == 0b0010_0100) by (bit_vector);
    }

    /// Reads the byte on the bus at `addr`.
    pub fn read(&self, addr: u16) -> (data: u8)
        ensures
            data == self@.read(addr),
    {
        self.bus.read(addr)
    }

    /// Writes `data` to the bus at `addr`.
    pub fn write(&mut self, addr: u16, data: u8)
        ensures
            final(self)@ == old(self)@.write(addr, data),
    {
        self.bus.write(addr, data);
    }

    /// Reads `flag` from the status register, as 0 or 1.
    pub fn get_flag(&self, flag: Flags6502) -> (bit: u8)
        ensures
            bit == (if flag_set(self.status_reg, flag) {
                1u8
            } else {
                0u8
            }),
    {
        read_flag(self.status_reg, flag)
    }

    /// Forces `flag` to `v` in the status register.
    pub fn set_flag(&mut self, flag: Flags6502, v: bool)
        ensures
            final(self)@ == isa::set_flag(old(self)@, flag, v),
    {
        self.status_reg = write_flag(self.status_reg, flag, v);
    }

    /// The address of the stack slot that SP points at.
    pub fn stack_top(&self) -> (addr: u16)
        ensures
            addr == self@.stack_top(),
    {
        let sp: u16 = self.stack_ptr as u16;
        STACK_BASE + sp
    }

    /// Pushes `data`: stores it at SP, then lowers SP.
    pub fn push_to_stack(&mut self, data: u8)
        ensures
            final(self)@ == old(self)@.push(data),
    {
        let current_stack_location = self.stack_top();
        self.bus.write(current_stack_location, data);
        self.stack_ptr = self.stack_ptr.wrapping_sub(1);
    }

    /// Pulls a byte: raises SP, then reads at SP.
    pub fn pop_from_stack(&mut self) -> (data: u8)
        ensures
            final(self)@ == old(self)@.pull(),
            data == old(self)@.pull().top(),
    {
        self.stack_ptr = self.stack_ptr.wrapping_add(1);
        let current_stack_location = self.stack_top();
        self.bus.read(current_stack_location)
    }

    /// Runs an interrupt sequence through the vector at `inter_addr`.
    /// The pushed status byte has B set where `b_flag` says so.
    pub fn run_interrupt(&mut self, inter_addr: u16, cycles: u8, b_flag: bool)
        ensures
            final(self)@ == isa::interrupt(old(self)@, inter_addr, cycles, b_flag),
    {
        self.push_to_stack(high_byte(self.prog_ctr));
        self.push_to_stack(low_byte(self.prog_ctr));
        self.push_to_stack(push_status(self.status_reg, b_flag));

        self.set_flag(Flags6502::B, false);
        self.set_flag(Flags6502::U, true);
        self.set_flag(Flags6502::I, true);

        self.addr_abs = inter_addr;
        self.prog_ctr = self.bus.read16(self.addr_abs);

        self.cycles = cycles;
    }

    /// A maskable interrupt request: ignored while I is set.
    pub fn irq(&mut self)
        ensures
            final(self)@ == isa::irq(old(self)@),
    {
        if self.get_flag(Flags6502::I) == 0 {
            self.run_interrupt(0xFFFE, 7, false);
        }
    }

    /// A non-maskable interrupt.
    pub fn nmi(&mut self)
        ensures
            final(self)@ == isa::nmi(old(self)@),
    {
        self.run_interrupt(0xFFFA, 8, false);
    }

    /// Fetches the operand of the current instruction.
    pub fn fetch(&mut self) -> (data: u8)
        ensures
            final(self)@ == old(self)@.fetch(),
            data == old(self)@.operand(),
    {
        match lookup(self.opcode).mode {
            AddrMode::ACC => {
                self.fetched_data = self.accumulator;
            },
            AddrMode::IMP => {},
            _ => {
                self.fetched_data = self.read(self.addr_abs);
            },
        }
        self.fetched_data
    }

    /// Stores `result` where the operand came from.
    pub fn store_result(&mut self, result: u8)
        ensures
            final(self)@ == old(self)@.store_result(result),
    {
        match lookup(self.opcode).mode {
            AddrMode::ACC => {
                self.accumulator = result;
            },
            _ => {
                self.bus.write(self.addr_abs, result);
            },
        }
    }
}

/// Two upper-case hexadecimal digits for `value`.
pub fn hex2_text(value: u8) -> (text: String)
    ensures
        text@ == isa::hex2(value),
{
    let mut bytes: Vec<u8> = Vec::new();
    bytes.push(value);
    assert(bytes@ =~= seq![value]);
    encode_upper(&bytes)
}

/// Four upper-case hexadecimal digits for `value`.
pub fn hex4_text(value: u16) -> (text: String)
    ensures
        text@ == isa::hex4(value),
{
    let mut bytes: Vec<u8> = Vec::new();
    bytes.push(high_byte(value));
    bytes.push(low_byte(value));
    assert(bytes@ =~= seq![hi_byte(value), lo_byte(value)]);
    encode_upper(&bytes)
}

/// The text of operand byte `index` of an instruction of `num_bytes`
/// bytes: two digits, or two blanks where it has no such byte.
fn operand_text(num_bytes: u8, index: u8, value: u8) -> (text: String)
    ensures
        text@ == isa::operand_text(num_bytes, index, value),
{
    if num_bytes > index {
        hex2_text(value)
    } else {
        String::from_str("  ")
    }
}

impl Olc6502 {
    /// The trace line for the instruction about to begin.
    pub fn trace_line(&self) -> (line: String)
        ensures
            line@ == isa::trace_line(self@),
    {
        let instr = lookup(self.opcode);
        let arg0 = operand_text(instr.num_bytes, 1, self.bus.read(self.prog_ctr.wrapping_add(1)));
        let arg1 = operand_text(instr.num_bytes, 2, self.bus.read(self.prog_ctr.wrapping_add(2)));
        let mut line = hex4_text(self.prog_ctr);
        line.append(" ");
        line.append(instr.name());
        line.append(" ");
        line.append(arg0.as_str());
        line.append(" ");
        line.append(arg1.as_str());
        line.append("\t\tA:");
        line.append(hex2_text(self.accumulator).as_str());
        line.append(" X:");
        line.append(hex2_text(self.x_reg).as_str());
        line.append(" Y:");
        line.append(hex2_text(self.y_reg).as_str());
        line.append(" P:");
        line.append(hex2_text(self.status_reg).as_str());
        line.append(" SP:");
        line.append(hex2_text(self.stack_ptr).as_str());
        line.append("\n");
        line
    }

    /// Records the trace line of the instruction about to begin, where
    /// tracing is on.
    pub fn log_state(&mut self)
        ensures
            final(self)@ == isa::log_state(old(self)@),
    {
        if self.trace_enabled {
            let line = self.trace_line();
            self.trace.push(line);
            assert(lines_of(self.trace@) =~= lines_of(old(self).trace@).push(line@));
        }
    }

    /// Turns tracing on or off.
    pub fn set_trace(&mut self, enabled: bool)
        ensures
            final(self)@ == (CpuState { trace_enabled: enabled, ..old(self)@ }),
    {
        self.trace_enabled = enabled;
    }

    /// Hands out the trace lines recorded so far and forgets them.
    pub fn take_trace(&mut self) -> (lines: Vec<String>)
        ensures
            lines_of(lines@) == old(self)@.trace,
            final(self)@ == (CpuState { trace: Seq::empty(), ..old(self)@ }),
    {
        let mut lines: Vec<String> = Vec::new();
        std::mem::swap(&mut lines, &mut self.trace);
        assert(lines_of(self.trace@) =~= Seq::<Seq<char>>::empty());
        lines
    }

    /// Carries out the instruction that has begun: works out its operand
    /// address, performs its operation, and adds the cycle that a page
    /// crossing costs.
    #[verifier::rlimit(50)]
    fn execute(&mut self, instr: Instruction)
        requires
            instr == instruction_at(old(self).opcode),
            old(self).cycles == instr.cycles,
        ensures
            final(self)@ == isa::execute(old(self)@),
            1 <= final(self).cycles <= 10,
    {
        let ghost started = self@;
        proof {
            lemma_instruction_bounds(self.opcode);
            isa::lemma_address_cycles(instr.mode, started);
            isa::lemma_operate_cycles(instr.op, isa::address(instr.mode, started));
        }
        let additional_cycle1: u8 = address(self, instr.mode);
        let additional_cycle2: u8 = operate(self, instr.op);

        // add additional cycles if necessary
        assert(additional_cycle1 & additional_cycle2 == (if additional_cycle1 == 1
            && additional_cycle2 == 1 {
            1u8
        } else {
            0u8
        })) by (bit_vector)
            requires
                additional_cycle1 <= 1,
                additional_cycle2 <= 1,
        ;
        self.cycles += additional_cycle1 & additional_cycle2;
    }

    /// Begins the instruction whose opcode was fetched: records its trace
    /// line, moves PC past the opcode and sets its base cycles.
    fn start_instruction(&mut self, instr: Instruction)
        requires
            old(self).opcode == old(self)@.read(old(self).prog_ctr),
            instr == instruction_at(old(self).opcode),
        ensures
            final(self)@ == isa::start_instruction(old(self)@),
            final(self).opcode == old(self).opcode,
            final(self).cycles == instr.cycles,
    {
        self.log_state();
        self.prog_ctr = self.prog_ctr.wrapping_add(1);

        // Get starting number of cycles
        self.cycles = instr.cycles;
    }

    /// Advances the processor by one clock cycle.
    #[verifier::rlimit(50)]
    pub fn clock(&mut self)
        ensures
            final(self)@ == isa::clock(old(self)@),
    {
        if self.cycles == 0 {
            self.opcode = self.read(self.prog_ctr);
            let instr = lookup(self.opcode);
            if instr.op == Op::BRK && self.halt_on_brk && self.stack_ptr == 0 {
                self.program_complete = true;
                return ;
            }
            if instr.op == Op::XXX {
                self.fault = Some(NesError::InvalidOpcode { opcode: self.opcode, pc: self.prog_ctr });
                self.program_complete = true;
                return ;
            }
            let ghost fetched = self@;
            assert(isa::start_instruction(fetched) == isa::start_instruction(old(self)@));
            self.start_instruction(instr);

            // execute next instruction
            self.execute(instr);
        }
        self.cycles -= 1;
    }

    /// Runs `clock` until the current instruction has retired.
    pub fn step_instruction(&mut self)
        ensures
            final(self)@ == (CpuState { cycles: 0, ..isa::clock(old(self)@) }),
    {
        self.clock();
        while self.cycles > 0
            invariant
                self@ == (CpuState { cycles: self.cycles, ..isa::clock(old(self)@) }),
            decreases self.cycles,
        {
            self.clock();
        }
    }

    /// Runs `clock` until the processor halts, at most `max_clocks`
    /// times. Returns whether it has halted.
    pub fn run(&mut self, max_clocks: u64) -> (halted: bool)
        ensures
            final(self)@ == isa::run(old(self)@, max_clocks as nat),
            halted == final(self).program_complete,
    {
        let mut left = max_clocks;
        while left > 0 && !self.program_complete
            invariant
                isa::run(self@, left as nat) == isa::run(old(self)@, max_clocks as nat),
            decreases left,
        {
            self.clock();
            left -= 1;
        }
        self.program_complete
    }

    /// Writes the bytes that `program` spells in hexadecimal to `0x8000`
    /// and after. Returns `false`, with nothing written, where `program`
    /// does not spell bytes.
    pub fn load_program(&mut self, program: String) -> (loaded: bool)
        ensures
            loaded == crate::text::hex_bytes(program@) is Some,
            loaded ==> final(self)@ == (CpuState {
                bus: old(self)@.bus.write_bytes(0x8000, crate::text::hex_bytes(program@)->0),
                ..old(self)@
            }),
            !loaded ==> final(self)@ == old(self)@,
    {
        let program_address = PROGRAM_BASE;
        self.bus.load_bytes_at(program_address, program)
    }

    /// What a run that has ended reports: the error that halted the
    /// processor, or else whether it has halted.
    fn outcome(&self) -> (result: Result<bool, NesError>)
        ensures
            result == run_outcome(self@),
    {
        match self.fault {
            Some(e) => Err(e),
            None => Ok(self.program_complete),
        }
    }

    /// Runs the program at `0x8000` from reset until the processor halts:
    /// at a BRK met with an empty stack, or at an undocumented opcode. At
    /// most `max_clocks` cycles are run.
    ///
    /// Returns the error that halted the processor, or else whether it
    /// has halted.
    pub fn run_program(&mut self, max_clocks: u64) -> (result: Result<bool, NesError>)
        ensures
            final(self)@ == isa::run(isa::program_start(old(self)@), max_clocks as nat),
            result == run_outcome(final(self)@),
    {
        // set reset vector
        self.bus.write(0xFFFC, 0x00);
        self.bus.write(0xFFFD, 0x80);
        self.reset();
        self.halt_on_brk = true;
        self.run(max_clocks);
        self.outcome()
    }

    /// Runs from reset with PC at `0xC000` until the processor halts, as
    /// the automated mode of a test ROM asks. At most `max_clocks` cycles
    /// are run.
    ///
    /// Returns the error that halted the processor, or else whether it
    /// has halted.
    pub fn run_automation(&mut self, max_clocks: u64) -> (result: Result<bool, NesError>)
        ensures
            final(self)@ == isa::run(isa::automation_start(old(self)@), max_clocks as nat),
            result == run_outcome(final(self)@),
    {
        self.reset();
        self.prog_ctr = 0xC000;
        self.halt_on_brk = true;
        self.run(max_clocks);
        self.outcome()
    }
}

/// What a run that ended in `s` reports: the error that halted the
/// processor, or else whether it has halted.
pub open spec fn run_outcome(s: CpuState) -> Result<bool, NesError> {
    match s.fault {
        Some(e) => Err(e),
        None => Ok(s.program_complete),
    }
}

/// The state of a processor that was just made, before its reset.
pub open spec fn power_on() -> CpuState {
    CpuState {
        accumulator: 0,
        x_reg: 0,
        y_reg: 0,
        stack_ptr: 0,
        prog_ctr: 0,
        status_reg: 0,
        bus: crate::bus::BusState {
            ram: Seq::new(0x0800, |i: int| 0u8),
            slot_ram: Seq::new(0xBFE0, |i: int| 0u8),
            cartridge: None,
        },
        fetched_data: 0,
        addr_abs: 0,
        addr_rel: 0,
        opcode: 0,
        cycles: 0,
        program_complete: false,
        halt_on_brk: false,
        fault: None,
        trace_enabled: false,
        trace: Seq::empty(),
    }
}

/// A processor on a bus with cleared memories and an empty slot, reset.
pub fn create_olc6502() -> (o: Olc6502)
    ensures
        o@ == isa::reset(power_on()),
        o@.wf(),
{
    let mut o = Olc6502 {
        accumulator: 0,
        x_reg: 0,
        y_reg: 0,
        stack_ptr: 0,
        prog_ctr: 0,
        status_reg: 0,
        bus: create_bus(),
        fetched_data: 0,
        addr_abs: 0,
        addr_rel: 0,
        opcode: 0,
        cycles: 0,
        program_complete: false,
        halt_on_brk: false,
        fault: None,
        trace_enabled: false,
        trace: Vec::new(),
    };
    assert(lines_of(o.trace@) =~= Seq::<Seq<char>>::empty());
    o.reset();
    o
}

} // verus!
