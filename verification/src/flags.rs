//! The processor status register `P` and its eight flags.

use vstd::prelude::*;

verus! {

/// The bits of the processor status register `P`.
#[derive(Clone, Copy, Debug, PartialEq, Eq, Structural)]
pub enum Flags6502 {
    /// Carry.
    C,
    /// Zero.
    Z,
    /// Interrupt disable.
    I,
    /// Decimal mode (without effect on this processor).
    D,
    /// Break: exists only in pushed copies of `P`.
    B,
    /// Unused; reads as set in pushed copies of `P`.
    U,
    /// Overflow.
    V,
    /// Negative.
    N,
}

/// The bit that `flag` occupies in `P`, as the power of two that it
/// stands for.
pub open spec fn flag_mask(flag: Flags6502) -> u8 {
    match flag {
        Flags6502::C => 0x01,
        Flags6502::Z => 0x02,
        Flags6502::I => 0x04,
        Flags6502::D => 0x08,
        Flags6502::B => 0x10,
        Flags6502::U => 0x20,
        Flags6502::V => 0x40,
        Flags6502::N => 0x80,
    }
}

/// Whether `flag` is set in the status byte `p`.
pub open spec fn flag_set(p: u8, flag: Flags6502) -> bool {
    match flag {
        Flags6502::C => p % 2 == 1,
        Flags6502::Z => (p / 2) % 2 == 1,
        Flags6502::I => (p / 4) % 2 == 1,
        Flags6502::D => (p / 8) % 2 == 1,
        Flags6502::B => (p / 16) % 2 == 1,
        Flags6502::U => (p / 32) % 2 == 1,
        Flags6502::V => (p / 64) % 2 == 1,
        Flags6502::N => p / 128 == 1,
    }
}

/// The status byte `p` with `flag` forced to `value`.
pub open spec fn with_flag(p: u8, flag: Flags6502, value: bool) -> u8 {
    if flag_set(p, flag) == value {
        p
    } else if value {
        (p + flag_mask(flag)) as u8
    } else {
        (p - flag_mask(flag)) as u8
    }
}

/// The status byte `p` with Z and N describing `value`.
pub open spec fn with_zn(p: u8, value: u8) -> u8 {
    with_flag(with_flag(p, Flags6502::Z, value == 0), Flags6502::N, value >= 0x80)
}

/// Bits 4 and 5 of `p`, the places of B and U, as a number below 4.
pub open spec fn break_bits(p: u8) -> int {
    (p as int / 16) % 4
}

/// The status byte with bits 4 and 5 of `p` replaced by `bits`.
pub open spec fn with_break_bits(p: u8, bits: int) -> u8 {
    (p - break_bits(p) * 16 + bits * 16) as u8
}

/// The status byte that results from pulling `pulled` into `p`:
/// bits 4 and 5 keep their value, the six others come from `pulled`.
pub open spec fn pulled_status(p: u8, pulled: u8) -> u8 {
    with_break_bits(pulled, break_bits(p))
}

/// The copy of `p` that is pushed: U set, and B where `brk` says so.
pub open spec fn pushed_status(p: u8, brk: bool) -> u8 {
    with_break_bits(
        p,
        if brk {
            3
        } else {
            2
        },
    )
}

/// The bit that `flag` occupies in `P`.
pub fn flag_bit(flag: Flags6502) -> (mask: u8)
    ensures
        mask == flag_mask(flag),
{
    match flag {
        Flags6502::C => 0x01,
        Flags6502::Z => 0x02,
        Flags6502::I => 0x04,
        Flags6502::D => 0x08,
        Flags6502::B => 0x10,
        Flags6502::U => 0x20,
        Flags6502::V => 0x40,
        Flags6502::N => 0x80,
    }
}

/// Whether `m` is one of the eight bits of a status byte.
pub open spec fn single_bit(m: u8) -> bool {
    m == 1 || m == 2 || m == 4 || m == 8 || m == 16 || m == 32 || m == 64 || m == 128
}

/// Masking with its bit tells whether a flag is set, and forcing a flag
/// is setting or clearing its bit.
pub proof fn lemma_flag_bits(p: u8, flag: Flags6502)
    ensures
        single_bit(flag_mask(flag)),
        flag_set(p, flag) == (p & flag_mask(flag) > 0),
        with_flag(p, flag, true) == p | flag_mask(flag),
        with_flag(p, flag, false) == p & !flag_mask(flag),
{
    let m = flag_mask(flag);
    assert({
        &&& (p & 0x01 > 0) == (p % 2 == 1)
        &&& (p & 0x02 > 0) == ((p / 2) % 2 == 1)
        &&& (p & 0x04 > 0) == ((p / 4) % 2 == 1)
        &&& (p & 0x08 > 0) == ((p / 8) % 2 == 1)
        &&& (p & 0x10 > 0) == ((p / 16) % 2 == 1)
        &&& (p & 0x20 > 0) == ((p / 32) % 2 == 1)
        &&& (p & 0x40 > 0) == ((p / 64) % 2 == 1)
        &&& (p & 0x80 > 0) == (p / 128 == 1)
    }) by (bit_vector);
    assert((p | m) == (if p & m > 0 {
        p as int
    } else {
        p + m
    }) && (p & !m) == (if p & m > 0 {
        p - m
    } else {
        p as int
    })) by (bit_vector)
        requires
            m == 1 || m == 2 || m == 4 || m == 8 || m == 16 || m == 32 || m == 64 || m == 128,
    ;
}

/// Reads `flag` from `p`, as 0 or 1.
pub fn read_flag(p: u8, flag: Flags6502) -> (bit: u8)
    ensures
        bit == (if flag_set(p, flag) {
            1u8
        } else {
            0u8
        }),
{
    proof {
        lemma_flag_bits(p, flag);
    }
    if (p & flag_bit(flag)) > 0 {
        1
    } else {
        0
    }
}

/// Returns `p` with `flag` forced to `value`.
pub fn write_flag(p: u8, flag: Flags6502, value: bool) -> (out: u8)
    ensures
        out == with_flag(p, flag, value),
{
    proof {
        lemma_flag_bits(p, flag);
    }
    let mask = flag_bit(flag);
    if value {
        p | mask
    } else {
        p & !mask
    }
}

/// Returns `p` with Z and N describing `value`.
pub fn write_zn(p: u8, value: u8) -> (out: u8)
    ensures
        out == with_zn(p, value),
{
    let z = write_flag(p, Flags6502::Z, value == 0);
    write_flag(z, Flags6502::N, value >= 0x80)
}

/// Returns what pulling `pulled` into `p` gives: bits 4 and 5 of `p`,
/// the six other bits of `pulled`.
pub fn pull_status(p: u8, pulled: u8) -> (out: u8)
    ensures
        out == pulled_status(p, pulled),
{
    assert(((pulled & 0xCF) | (p & 0x30)) == pulled - ((pulled / 16) % 4) * 16 + ((p / 16) % 4)
        * 16) by (bit_vector);
    (pulled & 0xCF) | (p & 0x30)
}

/// Returns the copy of `p` that is pushed: U set, and B where `brk`
/// says so.
pub fn push_status(p: u8, brk: bool) -> (out: u8)
    ensures
        out == pushed_status(p, brk),
{
    assert({
        &&& (p | 0x30) == p - ((p / 16) % 4) * 16 + 48
        &&& ((p | 0x20) & 0xEF) == p - ((p / 16) % 4) * 16 + 32
    }) by (bit_vector);
    if brk {
        p | 0x30
    } else {
        (p | 0b0010_0000) & 0b1110_1111
    }
}

/// A flag that was just written reads back as written.
pub proof fn lemma_flag_written(p: u8, flag: Flags6502, value: bool)
    ensures
        flag_set(with_flag(p, flag, value), flag) == value,
{
    let m = flag_mask(flag);
    let q = with_flag(p, flag, value);
    lemma_flag_bits(p, flag);
    lemma_flag_bits(q, flag);
    assert((p | m) & m > 0 && !((p & !m) & m > 0)) by (bit_vector)
        requires
            m == 1 || m == 2 || m == 4 || m == 8 || m == 16 || m == 32 || m == 64 || m == 128,
    ;
}

/// Writing one flag leaves every other flag as it was.
pub proof fn lemma_flag_kept(p: u8, flag: Flags6502, value: bool, other: Flags6502)
    requires
        flag != other,
    ensures
        flag_set(with_flag(p, flag, value), other) == flag_set(p, other),
{
    let m = flag_mask(flag);
    let n = flag_mask(other);
    let q = with_flag(p, flag, value);
    lemma_flag_bits(p, flag);
    lemma_flag_bits(p, other);
    lemma_flag_bits(q, other);
    assert(((p | m) & n > 0) == (p & n > 0) && ((p & !m) & n > 0) == (p & n > 0)) by (bit_vector)
        requires
            m == 1 || m == 2 || m == 4 || m == 8 || m == 16 || m == 32 || m == 64 || m == 128,
            n == 1 || n == 2 || n == 4 || n == 8 || n == 16 || n == 32 || n == 64 || n == 128,
            m != n,
    ;
}

/// Pulling a status byte takes C, Z, I, D, V and N from the pulled byte
/// and B and U from the register.
pub proof fn lemma_pulled_status(p: u8, pulled: u8, flag: Flags6502)
    ensures
        flag_set(pulled_status(p, pulled), flag) == (if flag == Flags6502::B || flag
            == Flags6502::U {
            flag_set(p, flag)
        } else {
            flag_set(pulled, flag)
        }),
{
    let m = flag_mask(flag);
    let q = pulled_status(p, pulled);
    lemma_flag_bits(p, flag);
    lemma_flag_bits(pulled, flag);
    lemma_flag_bits(q, flag);
    assert(((pulled & 0xCF) | (p & 0x30)) == pulled - ((pulled / 16) % 4) * 16 + ((p / 16) % 4)
        * 16) by (bit_vector);
    assert((((pulled & 0xCF) | (p & 0x30)) & m > 0) == (if m == 16 || m == 32 {
        p & m > 0
    } else {
        pulled & m > 0
    })) by (bit_vector)
        requires
            m == 1 || m == 2 || m == 4 || m == 8 || m == 16 || m == 32 || m == 64 || m == 128,
    ;
}

/// The pushed copy of `P` has U set, B as asked, and the other flags of `p`.
pub proof fn lemma_pushed_status(p: u8, brk: bool, flag: Flags6502)
    ensures
        flag_set(pushed_status(p, brk), flag) == (if flag == Flags6502::U {
            true
        } else if flag == Flags6502::B {
            brk
        } else {
            flag_set(p, flag)
        }),
{
    let m = flag_mask(flag);
    let q = pushed_status(p, brk);
    lemma_flag_bits(p, flag);
    lemma_flag_bits(q, flag);
    assert({
        &&& (p | 0x30) == p - ((p / 16) % 4) * 16 + 48
        &&& ((p | 0x20) & 0xEF) == p - ((p / 16) % 4) * 16 + 32
    }) by (bit_vector);
    assert({
        &&& ((p | 0x30) & m > 0) == (m == 16 || m == 32 || p & m > 0)
        &&& (((p | 0x20) & 0xEF) & m > 0) == (m == 32 || (m != 16 && p & m > 0))
    }) by (bit_vector)
        requires
            m == 1 || m == 2 || m == 4 || m == 8 || m == 16 || m == 32 || m == 64 || m == 128,
    ;
}

} // verus!
