//! The machine: one processor, one memory and the character-generator ROM,
//! with the fetch-execute step, the composition of a video frame and the
//! decisions of the run loop.
//!
//! Nothing here opens a window or reads a file. The host hands in program
//! and ROM images as bytes, asks for one turn of the loop at a time, and
//! shows the frames it is given.

use vstd::prelude::*;
use vstd::arithmetic::div_mod::lemma_fundamental_div_mod_converse;
use crate::bits::{add16, bit_of};
use crate::cpu::Cpu;
use crate::mmu::{zeroed, Mmu, MAX_MMU_RAM};

verus! {

/// Width of a frame in pixels: 52 characters of 8 pixels.
pub const VID_WIDTH: usize = 52 * 8;

/// Height of a frame in pixels: 24 rows of 10 scanlines.
pub const VID_HEIGHT: usize = 24 * 10;

/// Largest character-generator ROM, in bytes.
pub const MAX_CHAR_ROM_SIZE: usize = 0x800;

/// Address of the character code in the top left corner of the screen.
pub const VIDEO_BASE: u16 = 0xF000;

/// Distance in memory between two text rows, and in the ROM between two
/// scanlines of the character set.
pub const ROW_STRIDE: usize = 128;

/// Address at which execution starts after a reset.
pub const RESET_VECTOR: u16 = 0x0000;

/// A frame is shown once in this many instructions.
pub const FRAME_PERIOD: u16 = 1024;

/// Colour of a pixel that is lit, as 0x00RRGGBB.
pub const PIXEL_ON: u32 = 0x00FF_FFFF;

/// The machine.
pub struct Z80 {
    pub cpu: Cpu,
    pub mmu: Mmu,
    pub char_rom: [u8; MAX_CHAR_ROM_SIZE],
}

/// What the run loop remembers from one turn to the next.
pub struct RunState {
    /// Cleared by the instruction that halts the run.
    pub running: bool,
    /// Instructions since the last frame was shown, modulo `FRAME_PERIOD`.
    pub since_frame: u16,
}

/// What the host has to do after a turn of the run loop.
pub enum Turn {
    /// The run is over. Nothing was executed in this turn.
    Stop,
    /// One instruction was executed; nothing is to be shown.
    Idle,
    /// One instruction was executed; this frame is to be shown.
    Present(Vec<u32>),
}

/// `base` with `image` laid over it from index 0.
pub open spec fn overlay(base: Seq<u8>, image: Seq<u8>) -> Seq<u8> {
    Seq::new(
        base.len(),
        |i: int|
            if i < image.len() {
                image[i]
            } else {
                base[i]
            },
    )
}

/// Loading `image` into a store that holds `base`: an image that fits is
/// laid over the store from index 0; one that is longer than the store is
/// refused and the store is left as it was.
pub open spec fn poked(base: Seq<u8>, image: Seq<u8>) -> (Seq<u8>, bool) {
    if image.len() <= base.len() {
        (overlay(base, image), true)
    } else {
        (base, false)
    }
}

/// The four bytes at `pc`, the first in the most significant place.
/// Addresses wrap at the end of the memory.
pub open spec fn window_at(mem: Seq<u8>, pc: u16) -> u32 {
    (0x1000000 * mem[pc as int] + 0x10000 * mem[add16(pc, 1) as int] + 0x100 * mem[add16(
        pc,
        2,
    ) as int] + mem[add16(pc, 3) as int]) as u32
}

/// The colour of the pixel in column `px` of line `py`. The character code
/// of its cell is read from video memory, one byte per cell and
/// `ROW_STRIDE` bytes per text row; the ROM gives the eight pixels of that
/// character on that scanline, the leftmost in bit 7.
pub open spec fn pixel(mem: Seq<u8>, rom: Seq<u8>, px: int, py: int) -> u32 {
    let column = px / 8;
    let text_row = py / 10;
    let scanline = py % 10;
    let code = mem[VIDEO_BASE + column + text_row * ROW_STRIDE];
    let dots = rom[code + scanline * ROW_STRIDE];
    if bit_of(dots, 7 - px % 8) {
        PIXEL_ON
    } else {
        0
    }
}

/// The frame: `VID_HEIGHT` lines of `VID_WIDTH` pixels, line after line.
pub open spec fn frame_of(mem: Seq<u8>, rom: Seq<u8>) -> Seq<u32> {
    Seq::new(
        (VID_WIDTH * VID_HEIGHT) as nat,
        |k: int| pixel(mem, rom, k % (VID_WIDTH as int), k / (VID_WIDTH as int)),
    )
}

/// The frame counter after one more instruction.
pub open spec fn next_since_frame(since_frame: u16) -> u16 {
    if since_frame >= FRAME_PERIOD - 1 {
        0
    } else {
        (since_frame + 1) as u16
    }
}

/// A dot tested by shifting is the bit of that weight.
proof fn lemma_dot(dots: u8, shift: u8)
    by (bit_vector)
    requires
        shift < 8,
    ensures
        shift == 0 ==> ((dots >> shift) & 1 == 1) == ((dots / 1) % 2 == 1),
        shift == 1 ==> ((dots >> shift) & 1 == 1) == ((dots / 2) % 2 == 1),
        shift == 2 ==> ((dots >> shift) & 1 == 1) == ((dots / 4) % 2 == 1),
        shift == 3 ==> ((dots >> shift) & 1 == 1) == ((dots / 8) % 2 == 1),
        shift == 4 ==> ((dots >> shift) & 1 == 1) == ((dots / 16) % 2 == 1),
        shift == 5 ==> ((dots >> shift) & 1 == 1) == ((dots / 32) % 2 == 1),
        shift == 6 ==> ((dots >> shift) & 1 == 1) == ((dots / 64) % 2 == 1),
        shift == 7 ==> ((dots >> shift) & 1 == 1) == ((dots / 128) % 2 == 1),
        (dots >> shift) & 1 == 0 || (dots >> shift) & 1 == 1,
{
}

/// The same level in red, green and blue.
proof fn lemma_grey(level: u32)
    by (bit_vector)
    requires
        level == 0 || level == 0xFF,
    ensures
        level == 0 ==> (level << 16 | level << 8 | level) == 0,
        level == 0xFF ==> (level << 16 | level << 8 | level) == 0x00FF_FFFF,
{
}

/// Four bytes joined by shifts make the number with those digits.
proof fn lemma_window_bytes(b0: u32, b1: u32, b2: u32, b3: u32)
    by (bit_vector)
    requires
        b0 <= 0xFF,
        b1 <= 0xFF,
        b2 <= 0xFF,
        b3 <= 0xFF,
    ensures
        b0 << 24 | b1 << 16 | b2 << 8 | b3 == 0x1000000 * b0 + 0x10000 * b1 + 0x100 * b2 + b3,
{
}

impl RunState {
    /// The state at the start of a run.
    pub fn new() -> (run: RunState)
        ensures
            run.running,
            run.since_frame == 0,
    {
        RunState { running: true, since_frame: 0 }
    }
}

impl Z80 {
    /// A machine after power-on: registers reset, memory and ROM all zero.
    pub fn new() -> (z80: Z80)
        ensures
            z80.cpu == Cpu::reset(),
            z80.mmu@ == zeroed(),
            z80.char_rom@ == Seq::new(MAX_CHAR_ROM_SIZE as nat, |i: int| 0u8),
    {
        let z80 = Z80 { cpu: Cpu::new(), mmu: Mmu::new(), char_rom: [0u8; MAX_CHAR_ROM_SIZE] };
        assert(z80.char_rom@ =~= Seq::new(MAX_CHAR_ROM_SIZE as nat, |i: int| 0u8));
        z80
    }

    /// Loads the character-generator ROM. An image of more than
    /// `MAX_CHAR_ROM_SIZE` bytes is refused, and nothing changes.
    pub fn poke_char_rom(&mut self, data: &[u8]) -> (ok: bool)
        ensures
            ok == (data@.len() <= MAX_CHAR_ROM_SIZE),
            final(self).char_rom@ == poked(old(self).char_rom@, data@).0,
            ok == poked(old(self).char_rom@, data@).1,
            final(self).cpu == old(self).cpu,
            final(self).mmu == old(self).mmu,
    {
        if data.len() > MAX_CHAR_ROM_SIZE {
            return false;
        }
        let ghost before = self.char_rom@;
        let mut i: usize = 0;
        while i < data.len()
            invariant
                i <= data@.len() <= MAX_CHAR_ROM_SIZE,
                self.cpu == old(self).cpu,
                self.mmu == old(self).mmu,
                before == old(self).char_rom@,
                forall|j: int| 0 <= j < i ==> self.char_rom@[j] == data@[j],
                forall|j: int| i <= j < MAX_CHAR_ROM_SIZE ==> self.char_rom@[j] == before[j],
            decreases data@.len() - i,
        {
            self.char_rom[i] = data[i];
            i += 1;
        }
        assert(self.char_rom@ =~= overlay(before, data@));
        true
    }

    /// Loads a program image at address 0. An image of more than
    /// `MAX_MMU_RAM` bytes is refused, and nothing changes.
    pub fn poke_com_file(&mut self, data: &[u8]) -> (ok: bool)
        ensures
            ok == (data@.len() <= MAX_MMU_RAM),
            final(self).mmu@ == poked(old(self).mmu@, data@).0,
            ok == poked(old(self).mmu@, data@).1,
            final(self).cpu == old(self).cpu,
            final(self).char_rom == old(self).char_rom,
    {
        broadcast use crate::mmu::lemma_mmu_size;

        if data.len() > MAX_MMU_RAM {
            return false;
        }
        let ghost before = self.mmu@;
        let mut i: usize = 0;
        while i < data.len()
            invariant
                i <= data@.len() <= MAX_MMU_RAM,
                self.cpu == old(self).cpu,
                self.char_rom == old(self).char_rom,
                before == old(self).mmu@,
                self.mmu@.len() == MAX_MMU_RAM,
                forall|j: int| 0 <= j < i ==> self.mmu@[j] == data@[j],
                forall|j: int| i <= j < MAX_MMU_RAM ==> self.mmu@[j] == before[j],
            decreases data@.len() - i,
        {
            self.mmu.write_mem(i as u16, data[i]);
            i += 1;
        }
        assert(self.mmu@ =~= overlay(before, data@));
        true
    }

    /// Puts the program counter at the reset vector.
    pub fn hard_reset(&mut self)
        ensures
            final(self).cpu == (Cpu { reg_pc: RESET_VECTOR, ..old(self).cpu }),
            final(self).mmu == old(self).mmu,
            final(self).char_rom == old(self).char_rom,
    {
        self.cpu.set_pc(RESET_VECTOR);
    }

    /// Reads the four bytes at the program counter. Bytes behind the end of
    /// the memory are read from its start.
    pub fn fetch(&self) -> (instr: u32)
        ensures
            instr == window_at(self.mmu@, self.cpu.reg_pc),
    {
        let pc: u16 = self.cpu.reg_pc();
        let b0: u32 = self.mmu.read_mem(pc) as u32;
        let b1: u32 = self.mmu.read_mem(pc.wrapping_add(1)) as u32;
        let b2: u32 = self.mmu.read_mem(pc.wrapping_add(2)) as u32;
        let b3: u32 = self.mmu.read_mem(pc.wrapping_add(3)) as u32;
        proof {
            lemma_window_bytes(b0, b1, b2, b3);
        }
        b0 << 24 | b1 << 16 | b2 << 8 | b3
    }

    /// Fetches and executes one instruction. Returns whether the run goes
    /// on.
    pub fn step(&mut self) -> (running: bool)
        ensures
            final(self).cpu == old(self).cpu.stepped(
                old(self).mmu@,
                window_at(old(self).mmu@, old(self).cpu.reg_pc),
            ).0,
            final(self).mmu@ == old(self).cpu.stepped(
                old(self).mmu@,
                window_at(old(self).mmu@, old(self).cpu.reg_pc),
            ).1,
            running == old(self).cpu.stepped(
                old(self).mmu@,
                window_at(old(self).mmu@, old(self).cpu.reg_pc),
            ).2,
            final(self).char_rom == old(self).char_rom,
    {
        let instr: u32 = self.fetch();
        self.cpu.do_instruction(instr, &mut self.mmu)
    }

    /// The colour of one pixel of the frame.
    fn pixel_at(&self, px: usize, py: usize) -> (colour: u32)
        requires
            px < VID_WIDTH,
            py < VID_HEIGHT,
        ensures
            colour == pixel(self.mmu@, self.char_rom@, px as int, py as int),
    {
        let column: usize = px / 8;
        let text_row: usize = py / 10;
        let scanline: usize = py % 10;
        let cell: usize = VIDEO_BASE as usize + column + text_row * ROW_STRIDE;
        let code: u8 = self.mmu.read_mem(cell as u16);
        let dots: u8 = self.char_rom[code as usize + scanline * ROW_STRIDE];
        let shift: u8 = 7 - (px % 8) as u8;
        let level: u32 = ((dots >> shift) & 1) as u32 * 0xFF;
        proof {
            lemma_dot(dots, shift);
            lemma_grey(level);
        }
        level << 16 | level << 8 | level
    }

    /// Composes the frame that the video memory and the ROM describe.
    pub fn render(&self) -> (frame: Vec<u32>)
        ensures
            frame@ == frame_of(self.mmu@, self.char_rom@),
    {
        let mut frame: Vec<u32> = Vec::with_capacity(VID_WIDTH * VID_HEIGHT);
        let mut py: usize = 0;
        while py < VID_HEIGHT
            invariant
                py <= VID_HEIGHT,
                frame@.len() == py * VID_WIDTH,
                forall|k: int|
                    0 <= k < frame@.len() ==> frame@[k] == pixel(
                        self.mmu@,
                        self.char_rom@,
                        k % (VID_WIDTH as int),
                        k / (VID_WIDTH as int),
                    ),
            decreases VID_HEIGHT - py,
        {
            let mut px: usize = 0;
            while px < VID_WIDTH
                invariant
                    py < VID_HEIGHT,
                    px <= VID_WIDTH,
                    frame@.len() == py * VID_WIDTH + px,
                    forall|k: int|
                        0 <= k < frame@.len() ==> frame@[k] == pixel(
                            self.mmu@,
                            self.char_rom@,
                            k % (VID_WIDTH as int),
                            k / (VID_WIDTH as int),
                        ),
                decreases VID_WIDTH - px,
            {
                let colour: u32 = self.pixel_at(px, py);
                proof {
                    // The pixel goes to index py * VID_WIDTH + px, which
                    // `frame_of` reads back as column px of line py.
                    lemma_fundamental_div_mod_converse(
                        frame@.len() as int,
                        VID_WIDTH as int,
                        py as int,
                        px as int,
                    );
                }
                frame.push(colour);
                px += 1;
            }
            assert((py + 1) * VID_WIDTH == py * VID_WIDTH + VID_WIDTH) by (nonlinear_arith);
            py += 1;
        }
        assert(frame@.len() == VID_WIDTH * VID_HEIGHT) by (nonlinear_arith)
            requires
                frame@.len() == VID_HEIGHT * VID_WIDTH,
        ;
        assert(frame@ =~= frame_of(self.mmu@, self.char_rom@));
        frame
    }

    /// One turn of the run loop. The run is over once an instruction has
    /// halted it or the host asks for a stop; a stop is only looked at
    /// between instructions. Otherwise one instruction is executed, and
    /// every `FRAME_PERIOD` turns, beginning with the first, the frame as it
    /// is after that instruction is handed out.
    pub fn turn(&mut self, run: &mut RunState, stop_requested: bool) -> (turn: Turn)
        ensures
            !old(run).running || stop_requested ==> {
                &&& turn is Stop
                &&& *final(self) == *old(self)
                &&& *final(run) == *old(run)
            },
            old(run).running && !stop_requested ==> {
                let after = old(self).cpu.stepped(
                    old(self).mmu@,
                    window_at(old(self).mmu@, old(self).cpu.reg_pc),
                );
                &&& final(self).cpu == after.0
                &&& final(self).mmu@ == after.1
                &&& final(self).char_rom == old(self).char_rom
                &&& final(run).running == after.2
                &&& final(run).since_frame == next_since_frame(old(run).since_frame)
                &&& old(run).since_frame == 0 ==> (turn matches Turn::Present(frame) && frame@
                    == frame_of(after.1, old(self).char_rom@))
                &&& old(run).since_frame != 0 ==> turn is Idle
            },
    {
        if !run.running || stop_requested {
            return Turn::Stop;
        }
        run.running = self.step();
        let due: bool = run.since_frame == 0;
        run.since_frame = if run.since_frame >= FRAME_PERIOD - 1 {
            0
        } else {
            run.since_frame + 1
        };
        if due {
            Turn::Present(self.render())
        } else {
            Turn::Idle
        }
    }
}

/// An image that fits is read back byte for byte after loading, whatever
/// the memory held before. An image that is longer than the memory is
/// refused, and a memory that was all zero stays all zero.
pub proof fn lemma_load_then_read(mem: Seq<u8>, image: Seq<u8>)
    requires
        mem.len() == MAX_MMU_RAM,
    ensures
        image.len() <= MAX_MMU_RAM ==> {
            &&& poked(mem, image).1
            &&& forall|addr: int| 0 <= addr < image.len() ==> poked(mem, image).0[addr] == image[addr]
        },
        image.len() > MAX_MMU_RAM ==> !poked(mem, image).1 && poked(mem, image).0 == mem,
        image.len() > MAX_MMU_RAM ==> poked(zeroed(), image).0 == zeroed(),
{
}

} // verus!
