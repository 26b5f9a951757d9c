//! The decoding table: what each of the 256 opcodes means.

use vstd::prelude::*;

verus! {

/// How an instruction finds its operand.
#[allow(clippy::upper_case_acronyms)]
#[derive(Clone, Copy, Debug, PartialEq, Eq, Structural)]
pub enum AddrMode {
    /// Implied: no operand.
    IMP,
    /// The accumulator is the operand.
    ACC,
    /// Immediate: the byte after the opcode.
    IMM,
    /// Zero page.
    ZP0,
    /// Zero page, indexed by X.
    ZPX,
    /// Zero page, indexed by Y.
    ZPY,
    /// Absolute.
    ABS,
    /// Absolute, indexed by X.
    ABX,
    /// Absolute, indexed by Y.
    ABY,
    /// Indirect: the operand address is read through a pointer.
    IND,
    /// Indexed indirect: `(zp,X)`.
    IZX,
    /// Indirect indexed: `(zp),Y`.
    IZY,
    /// Relative: a signed offset from the program counter.
    REL,
}

/// What an instruction does. `XXX` stands for every undocumented opcode.
#[allow(clippy::upper_case_acronyms)]
#[derive(Clone, Copy, Debug, PartialEq, Eq, Structural)]
pub enum Op {
    ADC,
    AND,
    ASL,
    BCC,
    BCS,
    BEQ,
    BIT,
    BMI,
    BNE,
    BPL,
    BRK,
    BVC,
    BVS,
    CLC,
    CLD,
    CLI,
    CLV,
    CMP,
    CPX,
    CPY,
    DEC,
    DEX,
    DEY,
    EOR,
    INC,
    INX,
    INY,
    JMP,
    JSR,
    LDA,
    LDX,
    LDY,
    LSR,
    NOP,
    ORA,
    PHA,
    PHP,
    PLA,
    PLP,
    ROL,
    ROR,
    RTI,
    RTS,
    SBC,
    SEC,
    SED,
    SEI,
    STA,
    STX,
    STY,
    TAX,
    TAY,
    TSX,
    TXA,
    TXS,
    TYA,
    XXX,
}

/// One entry of the decoding table.
#[derive(Clone, Copy, Debug, PartialEq, Eq, Structural)]
pub struct Instruction {
    pub op: Op,
    pub mode: AddrMode,
    /// Length of the instruction in bytes, the opcode included.
    pub num_bytes: u8,
    /// Cycles that the instruction takes at least.
    pub cycles: u8,
}

/// The operation that `opcode` encodes.
pub open spec fn op_of(opcode: u8) -> Op {
    match opcode {
        0x61 | 0x65 | 0x69 | 0x6D | 0x71 | 0x75 | 0x79 | 0x7D => Op::ADC,
        0x21 | 0x25 | 0x29 | 0x2D | 0x31 | 0x35 | 0x39 | 0x3D => Op::AND,
        0x06 | 0x0A | 0x0E | 0x16 | 0x1E => Op::ASL,
        0x90 => Op::BCC,
        0xB0 => Op::BCS,
        0xF0 => Op::BEQ,
        0x24 | 0x2C => Op::BIT,
        0x30 => Op::BMI,
        0xD0 => Op::BNE,
        0x10 => Op::BPL,
        0x00 => Op::BRK,
        0x50 => Op::BVC,
        0x70 => Op::BVS,
        0x18 => Op::CLC,
        0xD8 => Op::CLD,
        0x58 => Op::CLI,
        0xB8 => Op::CLV,
        0xC1 | 0xC5 | 0xC9 | 0xCD | 0xD1 | 0xD5 | 0xD9 | 0xDD => Op::CMP,
        0xE0 | 0xE4 | 0xEC => Op::CPX,
        0xC0 | 0xC4 | 0xCC => Op::CPY,
        0xC6 | 0xCE | 0xD6 | 0xDE => Op::DEC,
        0xCA => Op::DEX,
        0x88 => Op::DEY,
        0x41 | 0x45 | 0x49 | 0x4D | 0x51 | 0x55 | 0x59 | 0x5D => Op::EOR,
        0xE6 | 0xEE | 0xF6 | 0xFE => Op::INC,
        0xE8 => Op::INX,
        0xC8 => Op::INY,
        0x4C | 0x6C => Op::JMP,
        0x20 => Op::JSR,
        0xA1 | 0xA5 | 0xA9 | 0xAD | 0xB1 | 0xB5 | 0xB9 | 0xBD => Op::LDA,
        0xA2 | 0xA6 | 0xAE | 0xB6 | 0xBE => Op::LDX,
        0xA0 | 0xA4 | 0xAC | 0xB4 | 0xBC => Op::LDY,
        0x46 | 0x4A | 0x4E | 0x56 | 0x5E => Op::LSR,
        0xEA => Op::NOP,
        0x01 | 0x05 | 0x09 | 0x0D | 0x11 | 0x15 | 0x19 | 0x1D => Op::ORA,
        0x48 => Op::PHA,
        0x08 => Op::PHP,
        0x68 => Op::PLA,
        0x28 => Op::PLP,
        0x26 | 0x2A | 0x2E | 0x36 | 0x3E => Op::ROL,
        0x66 | 0x6A | 0x6E | 0x76 | 0x7E => Op::ROR,
        0x40 => Op::RTI,
        0x60 => Op::RTS,
        0xE1 | 0xE5 | 0xE9 | 0xED | 0xF1 | 0xF5 | 0xF9 | 0xFD => Op::SBC,
        0x38 => Op::SEC,
        0xF8 => Op::SED,
        0x78 => Op::SEI,
        0x81 | 0x85 | 0x8D | 0x91 | 0x95 | 0x99 | 0x9D => Op::STA,
        0x86 | 0x8E | 0x96 => Op::STX,
        0x84 | 0x8C | 0x94 => Op::STY,
        0xAA => Op::TAX,
        0xA8 => Op::TAY,
        0xBA => Op::TSX,
        0x8A => Op::TXA,
        0x9A => Op::TXS,
        0x98 => Op::TYA,
        _ => Op::XXX,
    }
}

/// The addressing mode that `opcode` encodes.
pub open spec fn mode_of(opcode: u8) -> AddrMode {
    match opcode {
        0x0A | 0x2A | 0x4A | 0x6A => AddrMode::ACC,
        0x09 | 0x29 | 0x49 | 0x69 | 0xA0 | 0xA2 | 0xA9 | 0xC0 | 0xC9 | 0xE0 | 0xE9 => AddrMode::IMM,
        0x05 | 0x06 | 0x24 | 0x25 | 0x26 | 0x45 | 0x46 | 0x65 | 0x66 | 0x84 | 0x85 | 0x86 | 0xA4 | 0xA5 | 0xA6 | 0xC4 | 0xC5 | 0xC6 | 0xE4 | 0xE5 | 0xE6 => AddrMode::ZP0,
        0x15 | 0x16 | 0x35 | 0x36 | 0x55 | 0x56 | 0x75 | 0x76 | 0x94 | 0x95 | 0xB4 | 0xB5 | 0xD5 | 0xD6 | 0xF5 | 0xF6 => AddrMode::ZPX,
        0x96 | 0xB6 => AddrMode::ZPY,
        0x0D | 0x0E | 0x20 | 0x2C | 0x2D | 0x2E | 0x4C | 0x4D | 0x4E | 0x6D | 0x6E | 0x8C | 0x8D | 0x8E | 0xAC | 0xAD | 0xAE | 0xCC | 0xCD | 0xCE | 0xEC | 0xED | 0xEE => AddrMode::ABS,
        0x1D | 0x1E | 0x3D | 0x3E | 0x5D | 0x5E | 0x7D | 0x7E | 0x9D | 0xBC | 0xBD | 0xDD | 0xDE | 0xFD | 0xFE => AddrMode::ABX,
        0x19 | 0x39 | 0x59 | 0x79 | 0x99 | 0xB9 | 0xBE | 0xD9 | 0xF9 => AddrMode::ABY,
        0x6C => AddrMode::IND,
        0x01 | 0x21 | 0x41 | 0x61 | 0x81 | 0xA1 | 0xC1 | 0xE1 => AddrMode::IZX,
        0x11 | 0x31 | 0x51 | 0x71 | 0x91 | 0xB1 | 0xD1 | 0xF1 => AddrMode::IZY,
        0x10 | 0x30 | 0x50 | 0x70 | 0x90 | 0xB0 | 0xD0 | 0xF0 => AddrMode::REL,
        _ => AddrMode::IMP,
    }
}

/// The cycles that the instruction at `opcode` takes at least.
pub open spec fn cycles_of(opcode: u8) -> u8 {
    match opcode {
        0x05 | 0x08 | 0x24 | 0x25 | 0x45 | 0x48 | 0x4C | 0x65 | 0x84 | 0x85 | 0x86 | 0xA4 | 0xA5 | 0xA6 | 0xC4 | 0xC5 | 0xE4 | 0xE5 => 3,
        0x0D | 0x15 | 0x19 | 0x1D | 0x28 | 0x2C | 0x2D | 0x35 | 0x39 | 0x3D | 0x4D | 0x55 | 0x59 | 0x5D | 0x68 | 0x6D | 0x75 | 0x79 | 0x7D | 0x8C | 0x8D | 0x8E | 0x94 | 0x95 | 0x96 | 0xAC | 0xAD | 0xAE | 0xB4 | 0xB5 | 0xB6 | 0xB9 | 0xBC | 0xBD | 0xBE | 0xCC | 0xCD | 0xD5 | 0xD9 | 0xDD | 0xEC | 0xED | 0xF5 | 0xF9 | 0xFD => 4,
        0x06 | 0x11 | 0x26 | 0x31 | 0x46 | 0x51 | 0x66 | 0x6C | 0x71 | 0x91 | 0x99 | 0x9D | 0xB1 | 0xC6 | 0xD1 | 0xE6 | 0xF1 => 5,
        0x01 | 0x0E | 0x16 | 0x20 | 0x21 | 0x2E | 0x36 | 0x40 | 0x41 | 0x4E | 0x56 | 0x60 | 0x61 | 0x6E | 0x76 | 0x81 | 0xA1 | 0xC1 | 0xCE | 0xD6 | 0xE1 | 0xEE | 0xF6 => 6,
        0x00 | 0x1E | 0x3E | 0x5E | 0x7E | 0xDE | 0xFE => 7,
        _ => 2,
    }
}

/// The length in bytes of an instruction: the opcode and the operand bytes
/// that its addressing mode reads. An undocumented opcode has length 0.
pub open spec fn length_of(op: Op, mode: AddrMode) -> u8 {
    if op == Op::XXX {
        0
    } else {
        match mode {
            AddrMode::IMP | AddrMode::ACC => 1,
            AddrMode::ABS | AddrMode::ABX | AddrMode::ABY | AddrMode::IND => 3,
            _ => 2,
        }
    }
}

/// The table entry for `opcode`.
pub open spec fn instruction_at(opcode: u8) -> Instruction {
    Instruction {
        op: op_of(opcode),
        mode: mode_of(opcode),
        num_bytes: length_of(op_of(opcode), mode_of(opcode)),
        cycles: cycles_of(opcode),
    }
}

/// The three letters that name `op` in a listing; `???` for `XXX`.
pub open spec fn mnemonic(op: Op) -> Seq<char> {
    match op {
        Op::ADC => "ADC"@,
        Op::AND => "AND"@,
        Op::ASL => "ASL"@,
        Op::BCC => "BCC"@,
        Op::BCS => "BCS"@,
        Op::BEQ => "BEQ"@,
        Op::BIT => "BIT"@,
        Op::BMI => "BMI"@,
        Op::BNE => "BNE"@,
        Op::BPL => "BPL"@,
        Op::BRK => "BRK"@,
        Op::BVC => "BVC"@,
        Op::BVS => "BVS"@,
        Op::CLC => "CLC"@,
        Op::CLD => "CLD"@,
        Op::CLI => "CLI"@,
        Op::CLV => "CLV"@,
        Op::CMP => "CMP"@,
        Op::CPX => "CPX"@,
        Op::CPY => "CPY"@,
        Op::DEC => "DEC"@,
        Op::DEX => "DEX"@,
        Op::DEY => "DEY"@,
        Op::EOR => "EOR"@,
        Op::INC => "INC"@,
        Op::INX => "INX"@,
        Op::INY => "INY"@,
        Op::JMP => "JMP"@,
        Op::JSR => "JSR"@,
        Op::LDA => "LDA"@,
        Op::LDX => "LDX"@,
        Op::LDY => "LDY"@,
        Op::LSR => "LSR"@,
        Op::NOP => "NOP"@,
        Op::ORA => "ORA"@,
        Op::PHA => "PHA"@,
        Op::PHP => "PHP"@,
        Op::PLA => "PLA"@,
        Op::PLP => "PLP"@,
        Op::ROL => "ROL"@,
        Op::ROR => "ROR"@,
        Op::RTI => "RTI"@,
        Op::RTS => "RTS"@,
        Op::SBC => "SBC"@,
        Op::SEC => "SEC"@,
        Op::SED => "SED"@,
        Op::SEI => "SEI"@,
        Op::STA => "STA"@,
        Op::STX => "STX"@,
        Op::STY => "STY"@,
        Op::TAX => "TAX"@,
        Op::TAY => "TAY"@,
        Op::TSX => "TSX"@,
        Op::TXA => "TXA"@,
        Op::TXS => "TXS"@,
        Op::TYA => "TYA"@,
        Op::XXX => "???"@,
    }
}

/// Whether `op` takes one cycle more when its operand address crosses a
/// page.
pub open spec fn page_sensitive(op: Op) -> bool {
    match op {
        Op::ADC | Op::AND | Op::CMP | Op::CPX | Op::CPY | Op::EOR | Op::LDA | Op::LDX | Op::LDY
        | Op::ORA | Op::SBC => true,
        _ => false,
    }
}

/// Whether `op` is one of the eight conditional branches.
pub open spec fn is_branch(op: Op) -> bool {
    match op {
        Op::BCC | Op::BCS | Op::BEQ | Op::BNE | Op::BMI | Op::BPL | Op::BVC | Op::BVS => true,
        _ => false,
    }
}

fn i(op: Op, mode: AddrMode, num_bytes: u8, cycles: u8) -> (ins: Instruction)
    ensures
        ins == (Instruction { op, mode, num_bytes, cycles }),
{
    Instruction { op, mode, num_bytes, cycles }
}

impl Instruction {
    /// The three letters that name the instruction in a listing.
    pub fn name(&self) -> (text: &'static str)
        ensures
            text@ == mnemonic(self.op),
    {
        match self.op {
            Op::ADC => "ADC",
            Op::AND => "AND",
            Op::ASL => "ASL",
            Op::BCC => "BCC",
            Op::BCS => "BCS",
            Op::BEQ => "BEQ",
            Op::BIT => "BIT",
            Op::BMI => "BMI",
            Op::BNE => "BNE",
            Op::BPL => "BPL",
            Op::BRK => "BRK",
            Op::BVC => "BVC",
            Op::BVS => "BVS",
            Op::CLC => "CLC",
            Op::CLD => "CLD",
            Op::CLI => "CLI",
            Op::CLV => "CLV",
            Op::CMP => "CMP",
            Op::CPX => "CPX",
            Op::CPY => "CPY",
            Op::DEC => "DEC",
            Op::DEX => "DEX",
            Op::DEY => "DEY",
            Op::EOR => "EOR",
            Op::INC => "INC",
            Op::INX => "INX",
            Op::INY => "INY",
            Op::JMP => "JMP",
            Op::JSR => "JSR",
            Op::LDA => "LDA",
            Op::LDX => "LDX",
            Op::LDY => "LDY",
            Op::LSR => "LSR",
            Op::NOP => "NOP",
            Op::ORA => "ORA",
            Op::PHA => "PHA",
            Op::PHP => "PHP",
            Op::PLA => "PLA",
            Op::PLP => "PLP",
            Op::ROL => "ROL",
            Op::ROR => "ROR",
            Op::RTI => "RTI",
            Op::RTS => "RTS",
            Op::SBC => "SBC",
            Op::SEC => "SEC",
            Op::SED => "SED",
            Op::SEI => "SEI",
            Op::STA => "STA",
            Op::STX => "STX",
            Op::STY => "STY",
            Op::TAX => "TAX",
            Op::TAY => "TAY",
            Op::TSX => "TSX",
            Op::TXA => "TXA",
            Op::TXS => "TXS",
            Op::TYA => "TYA",
            Op::XXX => "???",
        }
    }
}

/// Decodes the opcodes `0x00..=0x0F`.
fn lookup_row_0(opcode: u8) -> (ins: Instruction)
    requires
        0x00 <= opcode <= 0x0F,
    ensures
        ins == instruction_at(opcode),
{
    match opcode {
        0x00 => i(Op::BRK, AddrMode::IMP, 1, 7),
        0x01 => i(Op::ORA, AddrMode::IZX, 2, 6),
        0x05 => i(Op::ORA, AddrMode::ZP0, 2, 3),
        0x06 => i(Op::ASL, AddrMode::ZP0, 2, 5),
        0x08 => i(Op::PHP, AddrMode::IMP, 1, 3),
        0x09 => i(Op::ORA, AddrMode::IMM, 2, 2),
        0x0A => i(Op::ASL, AddrMode::ACC, 1, 2),
        0x0D => i(Op::ORA, AddrMode::ABS, 3, 4),
        0x0E => i(Op::ASL, AddrMode::ABS, 3, 6),
        _ => i(Op::XXX, AddrMode::IMP, 0, 2),
    }
}

/// Decodes the opcodes `0x10..=0x1F`.
fn lookup_row_1(opcode: u8) -> (ins: Instruction)
    requires
        0x10 <= opcode <= 0x1F,
    ensures
        ins == instruction_at(opcode),
{
    match opcode {
        0x10 => i(Op::BPL, AddrMode::REL, 2, 2),
        0x11 => i(Op::ORA, AddrMode::IZY, 2, 5),
        0x15 => i(Op::ORA, AddrMode::ZPX, 2, 4),
        0x16 => i(Op::ASL, AddrMode::ZPX, 2, 6),
        0x18 => i(Op::CLC, AddrMode::IMP, 1, 2),
        0x19 => i(Op::ORA, AddrMode::ABY, 3, 4),
        0x1D => i(Op::ORA, AddrMode::ABX, 3, 4),
        0x1E => i(Op::ASL, AddrMode::ABX, 3, 7),
        _ => i(Op::XXX, AddrMode::IMP, 0, 2),
    }
}

/// Decodes the opcodes `0x20..=0x2F`.
fn lookup_row_2(opcode: u8) -> (ins: Instruction)
    requires
        0x20 <= opcode <= 0x2F,
    ensures
        ins == instruction_at(opcode),
{
    match opcode {
        0x20 => i(Op::JSR, AddrMode::ABS, 3, 6),
        0x21 => i(Op::AND, AddrMode::IZX, 2, 6),
        0x24 => i(Op::BIT, AddrMode::ZP0, 2, 3),
        0x25 => i(Op::AND, AddrMode::ZP0, 2, 3),
        0x26 => i(Op::ROL, AddrMode::ZP0, 2, 5),
        0x28 => i(Op::PLP, AddrMode::IMP, 1, 4),
        0x29 => i(Op::AND, AddrMode::IMM, 2, 2),
        0x2A => i(Op::ROL, AddrMode::ACC, 1, 2),
        0x2C => i(Op::BIT, AddrMode::ABS, 3, 4),
        0x2D => i(Op::AND, AddrMode::ABS, 3, 4),
        0x2E => i(Op::ROL, AddrMode::ABS, 3, 6),
        _ => i(Op::XXX, AddrMode::IMP, 0, 2),
    }
}

/// Decodes the opcodes `0x30..=0x3F`.
fn lookup_row_3(opcode: u8) -> (ins: Instruction)
    requires
        0x30 <= opcode <= 0x3F,
    ensures
        ins == instruction_at(opcode),
{
    match opcode {
        0x30 => i(Op::BMI, AddrMode::REL, 2, 2),
        0x31 => i(Op::AND, AddrMode::IZY, 2, 5),
        0x35 => i(Op::AND, AddrMode::ZPX, 2, 4),
        0x36 => i(Op::ROL, AddrMode::ZPX, 2, 6),
        0x38 => i(Op::SEC, AddrMode::IMP, 1, 2),
        0x39 => i(Op::AND, AddrMode::ABY, 3, 4),
        0x3D => i(Op::AND, AddrMode::ABX, 3, 4),
        0x3E => i(Op::ROL, AddrMode::ABX, 3, 7),
        _ => i(Op::XXX, AddrMode::IMP, 0, 2),
    }
}

/// Decodes the opcodes `0x40..=0x4F`.
fn lookup_row_4(opcode: u8) -> (ins: Instruction)
    requires
        0x40 <= opcode <= 0x4F,
    ensures
        ins == instruction_at(opcode),
{
    match opcode {
        0x40 => i(Op::RTI, AddrMode::IMP, 1, 6),
        0x41 => i(Op::EOR, AddrMode::IZX, 2, 6),
        0x45 => i(Op::EOR, AddrMode::ZP0, 2, 3),
        0x46 => i(Op::LSR, AddrMode::ZP0, 2, 5),
        0x48 => i(Op::PHA, AddrMode::IMP, 1, 3),
        0x49 => i(Op::EOR, AddrMode::IMM, 2, 2),
        0x4A => i(Op::LSR, AddrMode::ACC, 1, 2),
        0x4C => i(Op::JMP, AddrMode::ABS, 3, 3),
        0x4D => i(Op::EOR, AddrMode::ABS, 3, 4),
        0x4E => i(Op::LSR, AddrMode::ABS, 3, 6),
        _ => i(Op::XXX, AddrMode::IMP, 0, 2),
    }
}

/// Decodes the opcodes `0x50..=0x5F`.
fn lookup_row_5(opcode: u8) -> (ins: Instruction)
    requires
        0x50 <= opcode <= 0x5F,
    ensures
        ins == instruction_at(opcode),
{
    match opcode {
        0x50 => i(Op::BVC, AddrMode::REL, 2, 2),
        0x51 => i(Op::EOR, AddrMode::IZY, 2, 5),
        0x55 => i(Op::EOR, AddrMode::ZPX, 2, 4),
        0x56 => i(Op::LSR, AddrMode::ZPX, 2, 6),
        0x58 => i(Op::CLI, AddrMode::IMP, 1, 2),
        0x59 => i(Op::EOR, AddrMode::ABY, 3, 4),
        0x5D => i(Op::EOR, AddrMode::ABX, 3, 4),
        0x5E => i(Op::LSR, AddrMode::ABX, 3, 7),
        _ => i(Op::XXX, AddrMode::IMP, 0, 2),
    }
}

/// Decodes the opcodes `0x60..=0x6F`.
fn lookup_row_6(opcode: u8) -> (ins: Instruction)
    requires
        0x60 <= opcode <= 0x6F,
    ensures
        ins == instruction_at(opcode),
{
    match opcode {
        0x60 => i(Op::RTS, AddrMode::IMP, 1, 6),
        0x61 => i(Op::ADC, AddrMode::IZX, 2, 6),
        0x65 => i(Op::ADC, AddrMode::ZP0, 2, 3),
        0x66 => i(Op::ROR, AddrMode::ZP0, 2, 5),
        0x68 => i(Op::PLA, AddrMode::IMP, 1, 4),
        0x69 => i(Op::ADC, AddrMode::IMM, 2, 2),
        0x6A => i(Op::ROR, AddrMode::ACC, 1, 2),
        0x6C => i(Op::JMP, AddrMode::IND, 3, 5),
        0x6D => i(Op::ADC, AddrMode::ABS, 3, 4),
        0x6E => i(Op::ROR, AddrMode::ABS, 3, 6),
        _ => i(Op::XXX, AddrMode::IMP, 0, 2),
    }
}

/// Decodes the opcodes `0x70..=0x7F`.
fn lookup_row_7(opcode: u8) -> (ins: Instruction)
    requires
        0x70 <= opcode <= 0x7F,
    ensures
        ins == instruction_at(opcode),
{
    match opcode {
        0x70 => i(Op::BVS, AddrMode::REL, 2, 2),
        0x71 => i(Op::ADC, AddrMode::IZY, 2, 5),
        0x75 => i(Op::ADC, AddrMode::ZPX, 2, 4),
        0x76 => i(Op::ROR, AddrMode::ZPX, 2, 6),
        0x78 => i(Op::SEI, AddrMode::IMP, 1, 2),
        0x79 => i(Op::ADC, AddrMode::ABY, 3, 4),
        0x7D => i(Op::ADC, AddrMode::ABX, 3, 4),
        0x7E => i(Op::ROR, AddrMode::ABX, 3, 7),
        _ => i(Op::XXX, AddrMode::IMP, 0, 2),
    }
}

/// Decodes the opcodes `0x80..=0x8F`.
fn lookup_row_8(opcode: u8) -> (ins: Instruction)
    requires
        0x80 <= opcode <= 0x8F,
    ensures
        ins == instruction_at(opcode),
{
    match opcode {
        0x81 => i(Op::STA, AddrMode::IZX, 2, 6),
        0x84 => i(Op::STY, AddrMode::ZP0, 2, 3),
        0x85 => i(Op::STA, AddrMode::ZP0, 2, 3),
        0x86 => i(Op::STX, AddrMode::ZP0, 2, 3),
        0x88 => i(Op::DEY, AddrMode::IMP, 1, 2),
        0x8A => i(Op::TXA, AddrMode::IMP, 1, 2),
        0x8C => i(Op::STY, AddrMode::ABS, 3, 4),
        0x8D => i(Op::STA, AddrMode::ABS, 3, 4),
        0x8E => i(Op::STX, AddrMode::ABS, 3, 4),
        _ => i(Op::XXX, AddrMode::IMP, 0, 2),
    }
}

/// Decodes the opcodes `0x90..=0x9F`.
fn lookup_row_9(opcode: u8) -> (ins: Instruction)
    requires
        0x90 <= opcode <= 0x9F,
    ensures
        ins == instruction_at(opcode),
{
    match opcode {
        0x90 => i(Op::BCC, AddrMode::REL, 2, 2),
        0x91 => i(Op::STA, AddrMode::IZY, 2, 5),
        0x94 => i(Op::STY, AddrMode::ZPX, 2, 4),
        0x95 => i(Op::STA, AddrMode::ZPX, 2, 4),
        0x96 => i(Op::STX, AddrMode::ZPY, 2, 4),
        0x98 => i(Op::TYA, AddrMode::IMP, 1, 2),
        0x99 => i(Op::STA, AddrMode::ABY, 3, 5),
        0x9A => i(Op::TXS, AddrMode::IMP, 1, 2),
        0x9D => i(Op::STA, AddrMode::ABX, 3, 5),
        _ => i(Op::XXX, AddrMode::IMP, 0, 2),
    }
}

/// Decodes the opcodes `0xA0..=0xAF`.
fn lookup_row_a(opcode: u8) -> (ins: Instruction)
    requires
        0xA0 <= opcode <= 0xAF,
    ensures
        ins == instruction_at(opcode),
{
    match opcode {
        0xA0 => i(Op::LDY, AddrMode::IMM, 2, 2),
        0xA1 => i(Op::LDA, AddrMode::IZX, 2, 6),
        0xA2 => i(Op::LDX, AddrMode::IMM, 2, 2),
        0xA4 => i(Op::LDY, AddrMode::ZP0, 2, 3),
        0xA5 => i(Op::LDA, AddrMode::ZP0, 2, 3),
        0xA6 => i(Op::LDX, AddrMode::ZP0, 2, 3),
        0xA8 => i(Op::TAY, AddrMode::IMP, 1, 2),
        0xA9 => i(Op::LDA, AddrMode::IMM, 2, 2),
        0xAA => i(Op::TAX, AddrMode::IMP, 1, 2),
        0xAC => i(Op::LDY, AddrMode::ABS, 3, 4),
        0xAD => i(Op::LDA, AddrMode::ABS, 3, 4),
        0xAE => i(Op::LDX, AddrMode::ABS, 3, 4),
        _ => i(Op::XXX, AddrMode::IMP, 0, 2),
    }
}

/// Decodes the opcodes `0xB0..=0xBF`.
fn lookup_row_b(opcode: u8) -> (ins: Instruction)
    requires
        0xB0 <= opcode <= 0xBF,
    ensures
        ins == instruction_at(opcode),
{
    match opcode {
        0xB0 => i(Op::BCS, AddrMode::REL, 2, 2),
        0xB1 => i(Op::LDA, AddrMode::IZY, 2, 5),
        0xB4 => i(Op::LDY, AddrMode::ZPX, 2, 4),
        0xB5 => i(Op::LDA, AddrMode::ZPX, 2, 4),
        0xB6 => i(Op::LDX, AddrMode::ZPY, 2, 4),
        0xB8 => i(Op::CLV, AddrMode::IMP, 1, 2),
        0xB9 => i(Op::LDA, AddrMode::ABY, 3, 4),
        0xBA => i(Op::TSX, AddrMode::IMP, 1, 2),
        0xBC => i(Op::LDY, AddrMode::ABX, 3, 4),
        0xBD => i(Op::LDA, AddrMode::ABX, 3, 4),
        0xBE => i(Op::LDX, AddrMode::ABY, 3, 4),
        _ => i(Op::XXX, AddrMode::IMP, 0, 2),
    }
}

/// Decodes the opcodes `0xC0..=0xCF`.
fn lookup_row_c(opcode: u8) -> (ins: Instruction)
    requires
        0xC0 <= opcode <= 0xCF,
    ensures
        ins == instruction_at(opcode),
{
    match opcode {
        0xC0 => i(Op::CPY, AddrMode::IMM, 2, 2),
        0xC1 => i(Op::CMP, AddrMode::IZX, 2, 6),
        0xC4 => i(Op::CPY, AddrMode::ZP0, 2, 3),
        0xC5 => i(Op::CMP, AddrMode::ZP0, 2, 3),
        0xC6 => i(Op::DEC, AddrMode::ZP0, 2, 5),
        0xC8 => i(Op::INY, AddrMode::IMP, 1, 2),
        0xC9 => i(Op::CMP, AddrMode::IMM, 2, 2),
        0xCA => i(Op::DEX, AddrMode::IMP, 1, 2),
        0xCC => i(Op::CPY, AddrMode::ABS, 3, 4),
        0xCD => i(Op::CMP, AddrMode::ABS, 3, 4),
        0xCE => i(Op::DEC, AddrMode::ABS, 3, 6),
        _ => i(Op::XXX, AddrMode::IMP, 0, 2),
    }
}

/// Decodes the opcodes `0xD0..=0xDF`.
fn lookup_row_d(opcode: u8) -> (ins: Instruction)
    requires
        0xD0 <= opcode <= 0xDF,
    ensures
        ins == instruction_at(opcode),
{
    match opcode {
        0xD0 => i(Op::BNE, AddrMode::REL, 2, 2),
        0xD1 => i(Op::CMP, AddrMode::IZY, 2, 5),
        0xD5 => i(Op::CMP, AddrMode::ZPX, 2, 4),
        0xD6 => i(Op::DEC, AddrMode::ZPX, 2, 6),
        0xD8 => i(Op::CLD, AddrMode::IMP, 1, 2),
        0xD9 => i(Op::CMP, AddrMode::ABY, 3, 4),
        0xDD => i(Op::CMP, AddrMode::ABX, 3, 4),
        0xDE => i(Op::DEC, AddrMode::ABX, 3, 7),
        _ => i(Op::XXX, AddrMode::IMP, 0, 2),
    }
}

/// Decodes the opcodes `0xE0..=0xEF`.
fn lookup_row_e(opcode: u8) -> (ins: Instruction)
    requires
        0xE0 <= opcode <= 0xEF,
    ensures
        ins == instruction_at(opcode),
{
    match opcode {
        0xE0 => i(Op::CPX, AddrMode::IMM, 2, 2),
        0xE1 => i(Op::SBC, AddrMode::IZX, 2, 6),
        0xE4 => i(Op::CPX, AddrMode::ZP0, 2, 3),
        0xE5 => i(Op::SBC, AddrMode::ZP0, 2, 3),
        0xE6 => i(Op::INC, AddrMode::ZP0, 2, 5),
        0xE8 => i(Op::INX, AddrMode::IMP, 1, 2),
        0xE9 => i(Op::SBC, AddrMode::IMM, 2, 2),
        0xEA => i(Op::NOP, AddrMode::IMP, 1, 2),
        0xEC => i(Op::CPX, AddrMode::ABS, 3, 4),
        0xED => i(Op::SBC, AddrMode::ABS, 3, 4),
        0xEE => i(Op::INC, AddrMode::ABS, 3, 6),
        _ => i(Op::XXX, AddrMode::IMP, 0, 2),
    }
}

/// Decodes the opcodes `0xF0..=0xFF`.
fn lookup_row_f(opcode: u8) -> (ins: Instruction)
    requires
        0xF0 <= opcode <= 0xFF,
    ensures
        ins == instruction_at(opcode),
{
    match opcode {
        0xF0 => i(Op::BEQ, AddrMode::REL, 2, 2),
        0xF1 => i(Op::SBC, AddrMode::IZY, 2, 5),
        0xF5 => i(Op::SBC, AddrMode::ZPX, 2, 4),
        0xF6 => i(Op::INC, AddrMode::ZPX, 2, 6),
        0xF8 => i(Op::SED, AddrMode::IMP, 1, 2),
        0xF9 => i(Op::SBC, AddrMode::ABY, 3, 4),
        0xFD => i(Op::SBC, AddrMode::ABX, 3, 4),
        0xFE => i(Op::INC, AddrMode::ABX, 3, 7),
        _ => i(Op::XXX, AddrMode::IMP, 0, 2),
    }
}

/// Decodes `opcode`.
pub fn lookup(opcode: u8) -> (ins: Instruction)
    ensures
        ins == instruction_at(opcode),
{
    match opcode / 16 {
        0 => lookup_row_0(opcode),
        1 => lookup_row_1(opcode),
        2 => lookup_row_2(opcode),
        3 => lookup_row_3(opcode),
        4 => lookup_row_4(opcode),
        5 => lookup_row_5(opcode),
        6 => lookup_row_6(opcode),
        7 => lookup_row_7(opcode),
        8 => lookup_row_8(opcode),
        9 => lookup_row_9(opcode),
        10 => lookup_row_a(opcode),
        11 => lookup_row_b(opcode),
        12 => lookup_row_c(opcode),
        13 => lookup_row_d(opcode),
        14 => lookup_row_e(opcode),
        _ => lookup_row_f(opcode),
    }
}

/// No instruction is longer than three bytes or takes fewer than two or
/// more than seven cycles before penalties, and the branches are the
/// instructions with relative addressing.
pub proof fn lemma_instruction_bounds(opcode: u8)
    ensures
        instruction_at(opcode).num_bytes <= 3,
        2 <= instruction_at(opcode).cycles <= 7,
        instruction_at(opcode).mode == AddrMode::REL <==> is_branch(instruction_at(opcode).op),
{
}

} // verus!
