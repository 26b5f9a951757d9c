//! The console: picture unit and processor on one clock.

use vstd::prelude::*;
use crate::bus::BusState;
use crate::cartridge::{create_cartridge_from_file, parse_image};
use crate::error::NesError;
use crate::isa;
use crate::olc2C02::{create_olc2C02, Olc2C02, Timing};
use crate::olc6502::{power_on, run_outcome};
use crate::state::CpuState;

verus! {

/// The whole console: the picture unit, which holds the processor, and
/// the clock divider between them.
pub struct Nes {
    pub ppu: Olc2C02,
    /// Picture unit ticks since the processor was last clocked.
    pub phase: u8,
}

/// The console's state, as plain values.
pub struct NesState {
    pub cpu: CpuState,
    pub timing: Timing,
    pub phase: int,
    pub nametables: [[u8; 1024]; 2],
    pub palettes: [u8; 32],
}

impl View for Nes {
    type V = NesState;

    open spec fn view(&self) -> NesState {
        NesState {
            cpu: self.ppu.cpu@,
            timing: self.ppu.timing(),
            phase: self.phase as int,
            nametables: self.ppu.nametables,
            palettes: self.ppu.palettes,
        }
    }
}

impl NesState {
    /// The counters are in range.
    pub open spec fn wf(self) -> bool {
        self.timing.wf() && 0 <= self.phase < 3
    }

    /// The state one system tick later: the picture unit advances by a
    /// dot, and on every third tick the processor is clocked after it.
    pub open spec fn tick(self) -> NesState {
        if self.phase >= 2 {
            NesState { cpu: isa::clock(self.cpu), timing: self.timing.tick(), phase: 0, ..self }
        } else {
            NesState { timing: self.timing.tick(), phase: self.phase + 1, ..self }
        }
    }

    /// The state after a reset: the processor is reset, the picture unit
    /// starts a new frame, and the divider starts over.
    pub open spec fn reset(self) -> NesState {
        NesState {
            cpu: isa::reset(self.cpu),
            timing: Timing { scanline: 0, cycle: 0, frame_complete: false },
            phase: 0,
            ..self
        }
    }
}

impl Nes {
    /// Loads the iNES image `file_buffer` and connects it as cartridge.
    /// On an error nothing changes.
    pub fn load_rom(&mut self, file_buffer: &Vec<u8>) -> (loaded: Result<(), NesError>)
        ensures
            match parse_image(file_buffer@) {
                Ok(cartridge) => loaded is Ok && final(self)@ == (NesState {
                    cpu: CpuState {
                        bus: BusState { cartridge: Some(cartridge), ..old(self)@.cpu.bus },
                        ..old(self)@.cpu
                    },
                    ..old(self)@
                }),
                Err(e) => loaded == Err::<(), NesError>(e) && final(self)@ == old(self)@,
            },
    {
        match create_cartridge_from_file(file_buffer) {
            Ok(cartridge) => {
                self.ppu.cpu.bus.connect_cartridge(cartridge);
                Ok(())
            },
            Err(e) => Err(e),
        }
    }

    /// Resets the console.
    pub fn reset(&mut self)
        ensures
            final(self)@ == old(self)@.reset(),
            final(self)@.wf(),
    {
        self.ppu.cpu.reset();
        self.ppu.scanline = 0;
        self.ppu.cycle = 0;
        self.ppu.frame_complete = false;
        self.phase = 0;
    }

    /// Advances the console by one system tick.
    pub fn clock(&mut self)
        requires
            old(self)@.timing.wf(),
        ensures
            final(self)@ == old(self)@.tick(),
            final(self)@.wf(),
    {
        self.ppu.clock();
        if self.phase >= 2 {
            self.ppu.cpu.clock();
            self.phase = 0;
        } else {
            self.phase += 1;
        }
    }

    /// Ticks until the picture unit has completed a frame. Returns at
    /// once where a completed frame is still marked.
    pub fn run_frame(&mut self)
        requires
            old(self)@.timing.wf(),
        ensures
            final(self)@.timing.wf(),
            final(self)@.timing.frame_complete,
            old(self)@.timing.frame_complete ==> final(self)@ == old(self)@,
            !old(self)@.timing.frame_complete ==> final(self)@ == ticks(
                old(self)@,
                old(self)@.timing.dots_left() as nat,
            ),
    {
        let ghost mut done: nat = 0;
        while !self.ppu.frame_complete
            invariant
                self@.timing.wf(),
                old(self)@.timing.wf(),
                self@ == ticks(old(self)@, done),
                !self@.timing.frame_complete ==> !old(self)@.timing.frame_complete && done
                    + self@.timing.dots_left() == old(self)@.timing.dots_left(),
                self@.timing.frame_complete && done > 0 ==> !old(self)@.timing.frame_complete
                    && done == old(self)@.timing.dots_left(),
                done == 0 ==> self@ == old(self)@,
            decreases
                    (if self.ppu.frame_complete {
                        0
                    } else {
                        self@.timing.dots_left()
                    }),
        {
            self.clock();
            proof {
                done = done + 1;
            }
        }
    }

    /// Loads a program, spelled in hexadecimal, at `0x8000`.
    pub fn load_program(&mut self, program: String) -> (loaded: bool)
        ensures
            loaded == crate::text::hex_bytes(program@) is Some,
            loaded ==> final(self)@ == (NesState {
                cpu: CpuState {
                    bus: old(self)@.cpu.bus.write_bytes(
                        0x8000,
                        crate::text::hex_bytes(program@)->0,
                    ),
                    ..old(self)@.cpu
                },
                ..old(self)@
            }),
            !loaded ==> final(self)@ == old(self)@,
    {
        self.ppu.cpu.load_program(program)
    }

    /// Runs the program at `0x8000` on the processor alone, from reset
    /// until it halts, for at most `max_clocks` cycles.
    pub fn run_program(&mut self, max_clocks: u64) -> (result: Result<bool, NesError>)
        ensures
            final(self)@ == (NesState {
                cpu: isa::run(isa::program_start(old(self)@.cpu), max_clocks as nat),
                ..old(self)@
            }),
            result == run_outcome(final(self)@.cpu),
    {
        self.ppu.cpu.run_program(max_clocks)
    }

    /// Reads from the processor's bus.
    pub fn read_cpu_address(self, addr: u16) -> (data: u8)
        ensures
            data == self@.cpu.read(addr),
    {
        self.ppu.cpu.bus.read(addr)
    }

    /// Writes to the processor's bus.
    pub fn write_cpu_address(&mut self, addr: u16, data: u8)
        ensures
            final(self)@ == (NesState { cpu: old(self)@.cpu.write(addr, data), ..old(self)@ }),
    {
        self.ppu.cpu.bus.write(addr, data);
    }
}

/// The state `n` system ticks after `s`.
pub open spec fn ticks(s: NesState, n: nat) -> NesState
    decreases n,
{
    if n == 0 {
        s
    } else {
        ticks(s, (n - 1) as nat).tick()
    }
}

/// A console with an empty cartridge slot, just reset.
pub fn create_nes() -> (nes: Nes)
    ensures
        nes@.wf(),
        nes@.cpu == isa::reset(power_on()),
        nes@.timing == (Timing { scanline: 0, cycle: 0, frame_complete: false }),
        nes@.phase == 0,
        forall|t: int, i: int| 0 <= t < 2 && 0 <= i < 1024 ==> nes@.nametables@[t]@[i] == 0,
        forall|i: int| 0 <= i < 32 ==> nes@.palettes@[i] == 0,
{
    Nes { ppu: create_olc2C02(), phase: 0 }
}

} // verus!
