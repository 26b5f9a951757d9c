//! The picture unit, reduced to the counters that pace a frame.

use vstd::prelude::*;
use crate::olc6502::{create_olc6502, power_on, Olc6502};
use crate::isa;

verus! {

/// Dots in a scanline.
pub const DOTS_PER_SCANLINE: i16 = 341;

/// The scanline after the last one of a frame.
pub const SCANLINES_PER_FRAME: i16 = 261;

/// The picture unit's position in the frame, as plain values.
pub struct Timing {
    pub scanline: int,
    pub cycle: int,
    pub frame_complete: bool,
}

impl Timing {
    /// The counters are in range: `scanline` in `-1..=260`, `cycle` in
    /// `0..=340`.
    pub open spec fn wf(self) -> bool {
        -1 <= self.scanline <= 260 && 0 <= self.cycle <= 340
    }

    /// The position one dot later. After dot 340 the next scanline
    /// starts; after scanline 260 the pre-render line -1 starts and the
    /// frame is complete. `frame_complete` stays set once it is.
    pub open spec fn tick(self) -> Timing {
        if self.cycle < 340 {
            Timing { cycle: self.cycle + 1, ..self }
        } else if self.scanline < 260 {
            Timing { cycle: 0, scanline: self.scanline + 1, ..self }
        } else {
            Timing { cycle: 0, scanline: -1, frame_complete: true }
        }
    }

    /// The dots from `self` to the end of the frame.
    pub open spec fn dots_left(self) -> int {
        (260 - self.scanline) * 341 + (341 - self.cycle)
    }
}

/// The picture unit, reduced to its timing, with the processor it
/// clocks.
pub struct Olc2C02 {
    pub cpu: Olc6502,
    pub nametables: [[u8; 1024]; 2],
    pub palettes: [u8; 32],
    pub scanline: i16,
    pub cycle: i16,
    pub frame_complete: bool,
}

impl Olc2C02 {
    /// The position in the frame.
    pub open spec fn timing(&self) -> Timing {
        Timing {
            scanline: self.scanline as int,
            cycle: self.cycle as int,
            frame_complete: self.frame_complete,
        }
    }

    /// The counters are in range.
    pub open spec fn wf(&self) -> bool {
        self.timing().wf()
    }

    /// Advances the picture unit by one dot.
    pub fn clock(&mut self)
        requires
            old(self).wf(),
        ensures
            final(self).wf(),
            final(self).timing() == old(self).timing().tick(),
            final(self).cpu == old(self).cpu,
            final(self).nametables == old(self).nametables,
            final(self).palettes == old(self).palettes,
    {
        self.cycle += 1;
        if self.cycle >= DOTS_PER_SCANLINE {
            self.cycle = 0;
            self.scanline += 1;

            if self.scanline >= SCANLINES_PER_FRAME {
                self.scanline = -1;
                self.frame_complete = true;
            }
        }
    }

    /// Where the dot of this tick lies on the screen: the pre-render
    /// line is row 0.
    pub fn pixel_position(&self) -> (at: (i32, i32))
        ensures
            at.0 == self.cycle,
            at.1 == self.scanline + 1,
    {
        let x: i32 = self.cycle as i32;
        let y: i32 = self.scanline as i32;
        (x, y + 1)
    }

    /// Reports whether a frame was completed since the last call, and
    /// clears the mark.
    pub fn take_frame_complete(&mut self) -> (complete: bool)
        ensures
            complete == old(self).frame_complete,
            *final(self) == (Olc2C02 { frame_complete: false, ..*old(self) }),
    {
        let complete = self.frame_complete;
        self.frame_complete = false;
        complete
    }

    /// Reads from the processor's bus.
    pub fn cpu_read(&self, addr: u16) -> (data: u8)
        ensures
            data == self.cpu@.read(addr),
    {
        self.cpu.bus.read(addr)
    }

    /// Writes to the processor's bus.
    pub fn cpu_write(&mut self, addr: u16, data: u8)
        ensures
            final(self).cpu@ == old(self).cpu@.write(addr, data),
            final(self).timing() == old(self).timing(),
            final(self).nametables == old(self).nametables,
            final(self).palettes == old(self).palettes,
    {
        self.cpu.bus.write(addr, data);
    }
}

/// A picture unit at the first dot of scanline 0, with a processor that
/// was just reset.
#[allow(non_snake_case)]
pub fn create_olc2C02() -> (ppu: Olc2C02)
    ensures
        ppu.wf(),
        ppu.timing() == (Timing { scanline: 0, cycle: 0, frame_complete: false }),
        ppu.cpu@ == isa::reset(power_on()),
        ppu.cpu@.wf(),
        forall|t: int, i: int| 0 <= t < 2 && 0 <= i < 1024 ==> ppu.nametables@[t]@[i] == 0,
        forall|i: int| 0 <= i < 32 ==> ppu.palettes@[i] == 0,
{
    Olc2C02 {
        cpu: create_olc6502(),
        nametables: [[0x0;1024];2],
        palettes: [0x0;32],
        scanline: 0,
        cycle: 0,
        frame_complete: false,
    }
}

} // verus!
