//! The thirteen addressing modes. Each works out the operand address
//! of the current instruction and returns 1 where that crossed a page.

use vstd::prelude::*;
use crate::bus::{lemma_word_parts, make_word, word};
use crate::instruction::AddrMode;
use crate::isa;
use crate::olc6502::{high_byte, Olc6502};
use crate::state::add16;

verus! {

/// Whether an address with high byte `page` lies in another page than
/// `addr`, as 1 or 0.
fn leaves_page(addr: u16, page: u8) -> (crossed: u8)
    ensures
        crossed == (if addr / 256 != page {
            1u8
        } else {
            0u8
        }),
{
    if high_byte(addr) != page {
        1
    } else {
        0
    }
}

/// Reads the byte at PC and moves PC past it.
fn next_byte(o: &mut Olc6502) -> (data: u8)
    ensures
        data == old(o)@.read(old(o).prog_ctr),
        final(o)@ == (crate::state::CpuState { prog_ctr: add16(old(o).prog_ctr, 1), ..old(o)@ }),
{
    let data = o.read(o.prog_ctr);
    o.prog_ctr = o.prog_ctr.wrapping_add(1);
    data
}

/// Accumulator addressing.
#[allow(non_snake_case)]
pub fn ACC(o: &mut Olc6502) -> (extra: u8)
    ensures
        final(o)@ == isa::am_acc(old(o)@),
        extra == 0,
{
    o.fetched_data = o.accumulator;
    0
}

/// Immediate addressing.
#[allow(non_snake_case)]
pub fn IMM(o: &mut Olc6502) -> (extra: u8)
    ensures
        final(o)@ == isa::am_imm(old(o)@),
        extra == 0,
{
    o.addr_abs = o.prog_ctr;
    o.prog_ctr = o.prog_ctr.wrapping_add(1);
    0
}

/// Absolute addressing.
#[allow(non_snake_case)]
pub fn ABS(o: &mut Olc6502) -> (extra: u8)
    ensures
        final(o)@ == isa::am_abs(old(o)@),
        extra == 0,
{
    let lo = next_byte(o);
    let hi = next_byte(o);
    o.addr_abs = make_word(lo, hi);
    0
}

/// Zero page addressing.
#[allow(non_snake_case)]
pub fn ZP0(o: &mut Olc6502) -> (extra: u8)
    ensures
        final(o)@ == isa::am_zp0(old(o)@),
        extra == 0,
{
    let fetched_addr = next_byte(o);
    o.addr_abs = make_word(fetched_addr, 0);
    0
}

/// Zero page addressing indexed by X.
#[allow(non_snake_case)]
pub fn ZPX(o: &mut Olc6502) -> (extra: u8)
    ensures
        final(o)@ == isa::am_zpx(old(o)@),
        extra == 0,
{
    let fetched_addr = next_byte(o);
    o.addr_abs = make_word(fetched_addr.wrapping_add(o.x_reg), 0);
    0
}

/// Zero page addressing indexed by Y.
#[allow(non_snake_case)]
pub fn ZPY(o: &mut Olc6502) -> (extra: u8)
    ensures
        final(o)@ == isa::am_zpy(old(o)@),
        extra == 0,
{
    let fetched_addr = next_byte(o);
    o.addr_abs = make_word(fetched_addr.wrapping_add(o.y_reg), 0);
    0
}

/// Absolute addressing indexed by X. Returns 1 where the index carries
/// into the high byte of the address.
#[allow(non_snake_case)]
pub fn ABX(o: &mut Olc6502) -> (extra: u8)
    ensures
        final(o)@ == isa::am_abx(old(o)@),
        extra == (if isa::page_crossed(AddrMode::ABX, old(o)@) {
            1u8
        } else {
            0u8
        }),
{
    proof {
    }
    let lo = next_byte(o);
    let hi = next_byte(o);
    let base = make_word(lo, hi);
    let index: u16 = o.x_reg as u16;
    proof {
        lemma_word_parts(lo, hi);
        assert(base == old(o)@.operand_word());
        assert(base.wrapping_add(index) == add16(base, index as int));
    }
    o.addr_abs = base.wrapping_add(index);
    leaves_page(o.addr_abs, hi)
}

/// Absolute addressing indexed by Y. Returns 1 where the index carries
/// into the high byte of the address.
#[allow(non_snake_case)]
pub fn ABY(o: &mut Olc6502) -> (extra: u8)
    ensures
        final(o)@ == isa::am_aby(old(o)@),
        extra == (if isa::page_crossed(AddrMode::ABY, old(o)@) {
            1u8
        } else {
            0u8
        }),
{
    proof {
    }
    let lo = next_byte(o);
    let hi = next_byte(o);
    let base = make_word(lo, hi);
    let index: u16 = o.y_reg as u16;
    proof {
        lemma_word_parts(lo, hi);
        assert(base == old(o)@.operand_word());
        assert(base.wrapping_add(index) == add16(base, index as int));
    }
    o.addr_abs = base.wrapping_add(index);
    leaves_page(o.addr_abs, hi)
}

/// Implied addressing: nothing to work out.
#[allow(non_snake_case)]
pub fn IMP(o: &mut Olc6502) -> (extra: u8)
    ensures
        *final(o) == *old(o),
        extra == 0,
{
    0
}

/// Relative addressing: the target of a branch.
#[allow(non_snake_case)]
pub fn REL(o: &mut Olc6502) -> (extra: u8)
    ensures
        final(o)@ == isa::am_rel(old(o)@),
        extra == 0,
{
    let offset = next_byte(o);
    let mut argument: u16 = offset as u16;
    if offset >= 0x80 {
        assert(argument | 0xFF00 == argument + 0xFF00) by (bit_vector)
            requires
                argument < 0x100,
        ;
        argument |= 0xFF00;
    }
    o.addr_abs = o.prog_ctr.wrapping_add(argument);
    0
}

/// Indexed indirect addressing, `(zp,X)`.
#[allow(non_snake_case)]
pub fn IZX(o: &mut Olc6502) -> (extra: u8)
    ensures
        final(o)@ == isa::am_izx(old(o)@),
        extra == 0,
{
    let t = next_byte(o);
    let lo_addr = t.wrapping_add(o.x_reg);
    let hi_addr = lo_addr.wrapping_add(1);
    let lo = o.read(make_word(lo_addr, 0));
    let hi = o.read(make_word(hi_addr, 0));
    o.addr_abs = make_word(lo, hi);
    0
}

/// Indirect indexed addressing, `(zp),Y`. Returns 1 where the index
/// carries into the high byte of the address.
#[allow(non_snake_case)]
pub fn IZY(o: &mut Olc6502) -> (extra: u8)
    ensures
        final(o)@ == isa::am_izy(old(o)@),
        extra == (if isa::page_crossed(AddrMode::IZY, old(o)@) {
            1u8
        } else {
            0u8
        }),
{
    proof {
    }
    let t = next_byte(o);
    let lo = o.read(make_word(t, 0));
    let hi = o.read(make_word(t.wrapping_add(1), 0));
    let index: u16 = o.y_reg as u16;
    o.addr_abs = make_word(lo, hi).wrapping_add(index);
    leaves_page(o.addr_abs, hi)
}

/// Indirect addressing. A pointer in the last byte of a page has its
/// high byte read from the start of the same page, as the hardware does.
#[allow(non_snake_case)]
pub fn IND(o: &mut Olc6502) -> (extra: u8)
    ensures
        final(o)@ == isa::am_ind(old(o)@),
        extra == 0,
        old(o)@.operand_word() % 256 == 0xFF ==> final(o).addr_abs == word(
            old(o)@.read(old(o)@.operand_word()),
            old(o)@.read((old(o)@.operand_word() - 0xFF) as u16),
        ),
{
    let ptr_lo = next_byte(o);
    let ptr_hi = next_byte(o);
    let ptr = make_word(ptr_lo, ptr_hi);
    let hi_addr = if ptr_lo == 0xFF {
        make_word(0x00, ptr_hi)
    } else {
        ptr + 1
    };
    o.addr_abs = make_word(o.read(ptr), o.read(hi_addr));
    0
}

/// Works out the operand address in `mode`. Returns 1 where that
/// crossed a page.
pub fn address(o: &mut Olc6502, mode: AddrMode) -> (extra: u8)
    ensures
        final(o)@ == isa::address(mode, old(o)@),
        extra == (if isa::page_crossed(mode, old(o)@) {
            1u8
        } else {
            0u8
        }),
{
    proof {
    }
    match mode {
        AddrMode::IMP => IMP(o),
        AddrMode::ACC => ACC(o),
        AddrMode::IMM => IMM(o),
        AddrMode::ZP0 => ZP0(o),
        AddrMode::ZPX => ZPX(o),
        AddrMode::ZPY => ZPY(o),
        AddrMode::ABS => ABS(o),
        AddrMode::ABX => ABX(o),
        AddrMode::ABY => ABY(o),
        AddrMode::IND => IND(o),
        AddrMode::IZX => IZX(o),
        AddrMode::IZY => IZY(o),
        AddrMode::REL => REL(o),
    }
}

} // verus!
