//! The processor's bus: work RAM, the register windows and the
//! cartridge window.

use vstd::prelude::*;
use vstd::std_specs::cmp::PartialEqSpecImpl;
use crate::cartridge::{Cartridge, CartridgeState};
use crate::text::{encode_upper, hex_bytes, hex_upper, parse_hex_bytes};

verus! {

/// First address of the cartridge window.
pub const SLOT_BASE: u16 = 0x4020;

/// The processor's 16-bit address space.
///
/// `ram` is the 2 KiB of work RAM. While no cartridge is connected,
/// `slot_ram` stands in for the cartridge window, so that a program can
/// be written there and run.
pub struct Bus {
    pub ram: [u8; 2048],
    pub slot_ram: [u8; 49120],
    pub cartridge: Option<Box<Cartridge>>,
}

/// What a bus holds, as plain values.
pub struct BusState {
    pub ram: Seq<u8>,
    pub slot_ram: Seq<u8>,
    pub cartridge: Option<CartridgeState>,
}

impl View for Bus {
    type V = BusState;

    open spec fn view(&self) -> BusState {
        BusState {
            ram: self.ram@,
            slot_ram: self.slot_ram@,
            cartridge: match self.cartridge {
                Some(c) => Some(c@),
                None => None,
            },
        }
    }
}

/// The address after `addr`, wrapping at the end of the address space.
pub open spec fn next_addr(addr: u16) -> u16 {
    if addr == 0xFFFF {
        0
    } else {
        (addr + 1) as u16
    }
}

/// The address `offset` bytes after `addr`, wrapping at the end of the
/// address space.
pub open spec fn offset_addr(addr: u16, offset: int) -> u16 {
    ((addr + offset) % 0x10000) as u16
}

/// The 16-bit word with low byte `lo` and high byte `hi`.
pub open spec fn word(lo: u8, hi: u8) -> u16 {
    (hi * 256 + lo) as u16
}

impl BusState {
    /// Both memories have their full size.
    pub open spec fn wf(self) -> bool {
        self.ram.len() == 0x0800 && self.slot_ram.len() == 0xBFE0
    }

    /// The byte at `addr`.
    ///
    /// Work RAM repeats every 2 KiB up to `0x1FFF`. The eight picture
    /// unit registers repeat up to `0x3FFF`; each reads as its own number.
    /// `0x4000..=0x401F` reads as 0. From `0x4020` on the cartridge
    /// answers, or `slot_ram` while there is none.
    pub open spec fn read(self, addr: u16) -> u8 {
        if addr <= 0x1FFF {
            self.ram[addr as int % 0x0800]
        } else if addr <= 0x3FFF {
            (addr % 8) as u8
        } else if addr < 0x4020 {
            0
        } else {
            match self.cartridge {
                Some(c) => c.read_prg(addr),
                None => self.slot_ram[addr - 0x4020],
            }
        }
    }

    /// The bus after `data` was written to `addr`.
    ///
    /// Only work RAM and `slot_ram` take a write; a connected cartridge is
    /// read-only, and the register windows ignore what is written.
    pub open spec fn write(self, addr: u16, data: u8) -> BusState {
        if addr <= 0x1FFF {
            BusState { ram: self.ram.update(addr as int % 0x0800, data), ..self }
        } else if addr >= 0x4020 && self.cartridge is None {
            BusState { slot_ram: self.slot_ram.update(addr - 0x4020, data), ..self }
        } else {
            self
        }
    }

    /// The little-endian word at `addr`.
    pub open spec fn read16(self, addr: u16) -> u16 {
        word(self.read(addr), self.read(next_addr(addr)))
    }

    /// The `n` bytes from `addr` on. After `0xFFFF` comes `0x0000`.
    pub open spec fn read_bytes(self, addr: u16, n: nat) -> Seq<u8> {
        Seq::new(n, |i: int| self.read(offset_addr(addr, i)))
    }

    /// The bus after `bytes` were written to `addr`, `addr + 1`, ...,
    /// one after the other. After `0xFFFF` comes `0x0000`.
    pub open spec fn write_bytes(self, addr: u16, bytes: Seq<u8>) -> BusState
        decreases bytes.len(),
    {
        if bytes.len() == 0 {
            self
        } else {
            self.write_bytes(addr, bytes.drop_last()).write(
                offset_addr(addr, bytes.len() - 1),
                bytes.last(),
            )
        }
    }
}

/// Whether two arrays hold the same bytes.
fn same_bytes<const N: usize>(a: &[u8; N], b: &[u8; N]) -> (same: bool)
    ensures
        same == (a@ == b@),
{
    let mut i: usize = 0;
    while i < N
        invariant
            i <= N,
            forall|k: int| 0 <= k < i ==> a@[k] == b@[k],
        decreases N - i,
    {
        if a[i] != b[i] {
            return false;
        }
        i += 1;
    }
    assert(a@ =~= b@);
    true
}

impl PartialEq for Bus {
    /// Two buses are equal when their memories hold the same bytes.
    fn eq(&self, other: &Bus) -> (same: bool) {
        same_bytes(&self.ram, &other.ram) && same_bytes(&self.slot_ram, &other.slot_ram)
    }
}

impl PartialEqSpecImpl for Bus {
    open spec fn obeys_eq_spec() -> bool {
        true
    }

    open spec fn eq_spec(&self, other: &Bus) -> bool {
        self.ram@ == other.ram@ && self.slot_ram@ == other.slot_ram@
    }
}

impl Bus {
    /// Clears both memories. A connected cartridge stays.
    pub fn reset_ram(&mut self)
        ensures
            final(self)@.cartridge == old(self)@.cartridge,
            final(self)@.ram == Seq::new(0x0800, |i: int| 0u8),
            final(self)@.slot_ram == Seq::new(0xBFE0, |i: int| 0u8),
    {
        self.ram = [0x00;2048];
        self.slot_ram = [0x00;49120];
        assert(self.ram@ =~= Seq::new(0x0800, |i: int| 0u8));
        assert(self.slot_ram@ =~= Seq::new(0xBFE0, |i: int| 0u8));
    }

    /// Writes `data` to `addr`.
    pub fn write(&mut self, addr: u16, data: u8)
        ensures
            final(self)@ == old(self)@.write(addr, data),
    {
        if addr <= 0x1FFF {
            // 8 KiB of addresses, 2 KiB of memory: the RAM repeats four times
            assert(addr & 0x7FF == addr % 0x800) by (bit_vector);
            self.ram[(addr & 0x7FF) as usize] = data;
        } else if addr <= 0x3FFF {
            assert(addr & 0x0007 < 8) by (bit_vector);
            self.write_to_ppu(addr & 0x0007, data);
        } else if addr >= SLOT_BASE {
            if self.cartridge.is_none() {
                self.slot_ram[(addr - SLOT_BASE) as usize] = data;
            }
        }
    }

    /// Reads the byte at `addr`. Reading changes nothing.
    pub fn read(&self, addr: u16) -> (data: u8)
        ensures
            data == self@.read(addr),
    {
        if addr <= 0x1FFF {
            assert(addr & 0x7FF == addr % 0x800) by (bit_vector);
            self.ram[(addr & 0x7FF) as usize]
        } else if addr <= 0x3FFF {
            assert(addr & 0x0007 == addr % 8) by (bit_vector);
            self.read_from_ppu(addr & 0x0007)
        } else if addr >= SLOT_BASE {
            match &self.cartridge {
                Some(cartridge) => cartridge.read_prg(addr),
                None => self.slot_ram[(addr - SLOT_BASE) as usize],
            }
        } else {
            0x00
        }
    }

    /// The little-endian word at `addr`.
    pub fn read16(&self, addr: u16) -> (value: u16)
        ensures
            value == self@.read16(addr),
    {
        let lo = self.read(addr);
        let hi = self.read(addr.wrapping_add(1));
        make_word(lo, hi)
    }

    /// Writes the bytes that `data` spells, as whitespace-separated
    /// hexadecimal, to `addr` and the addresses after it.
    ///
    /// Nothing is written, and `false` returned, where `data` does not
    /// spell bytes.
    pub fn load_bytes_at(&mut self, addr: u16, data: String) -> (loaded: bool)
        ensures
            loaded == hex_bytes(data@) is Some,
            loaded ==> final(self)@ == old(self)@.write_bytes(addr, hex_bytes(data@)->0),
            !loaded ==> final(self)@ == old(self)@,
    {
        let bytes = match parse_hex_bytes(data.as_str()) {
            Some(bytes) => bytes,
            None => {
                return false;
            },
        };
        let mut offset: usize = 0;
        let mut abs_addr: u16 = addr;
        assert(bytes@.take(0) =~= Seq::<u8>::empty());
        while offset < bytes.len()
            invariant
                offset <= bytes@.len(),
                abs_addr == offset_addr(addr, offset as int),
                self@ == old(self)@.write_bytes(addr, bytes@.take(offset as int)),
            decreases bytes@.len() - offset,
        {
            self.write(abs_addr, bytes[offset]);
            assert(bytes@.take(offset + 1).drop_last() =~= bytes@.take(offset as int));
            abs_addr = abs_addr.wrapping_add(1);
            offset += 1;
        }
        assert(bytes@.take(bytes@.len() as int) =~= bytes@);
        true
    }

    /// The `num_bytes` bytes from `addr` on, in upper-case hexadecimal.
    pub fn read_bytes_at(&self, addr: u16, num_bytes: usize) -> (text: String)
        ensures
            text@ == hex_upper(self@.read_bytes(addr, num_bytes as nat)),
    {
        let mut result: Vec<u8> = Vec::new();
        let mut offset: usize = 0;
        let mut abs_addr: u16 = addr;
        while offset < num_bytes
            invariant
                offset <= num_bytes,
                abs_addr == offset_addr(addr, offset as int),
                result@ == self@.read_bytes(addr, offset as nat),
            decreases num_bytes - offset,
        {
            result.push(self.read(abs_addr));
            assert(result@ =~= self@.read_bytes(addr, (offset + 1) as nat));
            abs_addr = abs_addr.wrapping_add(1);
            offset += 1;
        }
        encode_upper(&result)
    }

    /// A write to picture unit register `addr`. The registers are not
    /// modelled: nothing changes.
    pub fn write_to_ppu(&mut self, addr: u16, _data: u8)
        requires
            addr <= 7,
        ensures
            *final(self) == *old(self),
    {
        match addr {
            // Control
            0x0000 => {},
            // Mask
            0x0001 => {},
            // Status
            0x0002 => {},
            // OAM Address
            0x0003 => {},
            // OAM Data
            0x0004 => {},
            // Scroll
            0x0005 => {},
            // PPU Address
            0x0006 => {},
            // PPU Data
            _ => {},
        }
    }

    /// A read of picture unit register `addr`. The registers are not
    /// modelled: each reads as its own number.
    pub fn read_from_ppu(&self, addr: u16) -> (data: u8)
        requires
            addr <= 7,
        ensures
            data == addr,
    {
        match addr {
            // Control
            0x0000 => 0x0,
            // Mask
            0x0001 => 0x1,
            // Status
            0x0002 => 0x2,
            // OAM Address
            0x0003 => 0x3,
            // OAM Data
            0x0004 => 0x4,
            // Scroll
            0x0005 => 0x5,
            // PPU Address
            0x0006 => 0x6,
            // PPU Data
            _ => 0x7,
        }
    }

    /// Puts `cartridge` into the slot. From then on the cartridge window
    /// shows its program ROM.
    pub fn connect_cartridge(&mut self, cartridge: Box<Cartridge>)
        ensures
            final(self)@ == (BusState { cartridge: Some(cartridge@), ..old(self)@ }),
    {
        self.cartridge = Some(cartridge);
    }
}

/// The 16-bit word with low byte `lo` and high byte `hi`.
pub fn make_word(lo: u8, hi: u8) -> (value: u16)
    ensures
        value == word(lo, hi),
{
    assert((((hi as u16) << 8) | (lo as u16)) == (hi as u16) * 256 + (lo as u16)) by (bit_vector);
    ((hi as u16) << 8) | (lo as u16)
}

/// A word is made of its two bytes.
pub proof fn lemma_word_parts(lo: u8, hi: u8)
    ensures
        word(lo, hi) == hi * 256 + lo,
        word(lo, hi) / 256 == hi,
        word(lo, hi) % 256 == lo,
{
}

/// A bus with cleared memories and an empty slot.
pub fn create_bus() -> (bus: Bus)
    ensures
        bus@.wf(),
        bus@.cartridge is None,
        bus@.ram == Seq::new(0x0800, |i: int| 0u8),
        bus@.slot_ram == Seq::new(0xBFE0, |i: int| 0u8),
{
    let bus = Bus { ram: [0x0;2048], slot_ram: [0x0;49120], cartridge: None };
    assert(bus.ram@ =~= Seq::new(0x0800, |i: int| 0u8));
    assert(bus.slot_ram@ =~= Seq::new(0xBFE0, |i: int| 0u8));
    bus
}

} // verus!
