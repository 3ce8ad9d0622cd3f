//! The machine state: memory, registers, stack, timers, keypad and
//! framebuffer, with the host-facing accessors, the ROM loader and the
//! timer tick.
//!
//! The framebuffer backing store always holds 128 * 64 cells; the active
//! region is the first `width * height` cells of it, row-major, where the
//! dimensions follow the extended-mode flag (64 * 32 standard, 128 * 64
//! extended).  Toggling the mode never reshapes the stored pixels.

use vstd::prelude::*;

verus! {

use crate::EngineError;
use vstd::pervasive::VecAdditionalExecFns;

/// The machine state as mathematics: each component a sequence or a plain
/// value.
pub ghost struct MachineState {
    pub mem: Seq<u8>,
    pub v: Seq<u8>,
    pub i: u16,
    pub pc: u16,
    pub gfx: Seq<u8>,
    pub ext: bool,
    pub dt: u8,
    pub st: u8,
    pub stack: Seq<u16>,
    pub sp: u16,
    pub key: Seq<u8>,
}

/// The active framebuffer width under a screen mode.
pub open spec fn spec_width(ext: bool) -> int {
    if ext { 128 } else { 64 }
}

/// The active framebuffer height under a screen mode.
pub open spec fn spec_height(ext: bool) -> int {
    if ext { 64 } else { 32 }
}

impl MachineState {
    /// Well-formedness: the arena sizes are fixed, every pixel and key
    /// latch is a single bit, every stack entry and the address registers
    /// stay inside the 4096-byte address space, and the stack pointer
    /// counts at most 16 frames.
    pub open spec fn wf(self) -> bool {
        &&& self.mem.len() == 4096
        &&& self.v.len() == 16
        &&& self.gfx.len() == 8192
        &&& (forall|j: int| 0 <= j < 8192 ==> #[trigger] self.gfx[j] <= 1)
        &&& self.stack.len() == 16
        &&& (forall|j: int| 0 <= j < 16 ==> #[trigger] self.stack[j] < 4096)
        &&& self.key.len() == 16
        &&& (forall|j: int| 0 <= j < 16 ==> #[trigger] self.key[j] <= 1)
        &&& self.sp <= 16
        &&& self.pc < 4096
        &&& self.i < 4096
    }
}

/// The built-in font: sixteen 5-byte small glyphs for the digits 0-F,
/// followed by sixteen 10-byte large glyphs, 240 bytes in all, preloaded
/// at address 0.
pub open spec fn spec_fontset() -> Seq<u8> {
    seq![
        0xF0u8, 0x90u8, 0x90u8, 0x90u8, 0xF0u8, 0x20u8, 0x60u8, 0x20u8, 0x20u8, 0x70u8,
        0xF0u8, 0x10u8, 0xF0u8, 0x80u8, 0xF0u8, 0xF0u8, 0x10u8, 0xF0u8, 0x10u8, 0xF0u8,
        0x90u8, 0x90u8, 0xF0u8, 0x10u8, 0x10u8, 0xF0u8, 0x80u8, 0xF0u8, 0x10u8, 0xF0u8,
        0xF0u8, 0x80u8, 0xF0u8, 0x90u8, 0xF0u8, 0xF0u8, 0x10u8, 0x20u8, 0x40u8, 0x40u8,
        0xF0u8, 0x90u8, 0xF0u8, 0x90u8, 0xF0u8, 0xF0u8, 0x90u8, 0xF0u8, 0x10u8, 0xF0u8,
        0xF0u8, 0x90u8, 0xF0u8, 0x90u8, 0x90u8, 0xE0u8, 0x90u8, 0xE0u8, 0x90u8, 0xE0u8,
        0xF0u8, 0x80u8, 0x80u8, 0x80u8, 0xF0u8, 0xE0u8, 0x90u8, 0x90u8, 0x90u8, 0xE0u8,
        0xF0u8, 0x80u8, 0xF0u8, 0x80u8, 0xF0u8, 0xF0u8, 0x80u8, 0xF0u8, 0x80u8, 0x80u8,
        0xF0u8, 0xF0u8, 0x90u8, 0x90u8, 0x90u8, 0x90u8, 0x90u8, 0x90u8, 0xF0u8, 0xF0u8,
        0x20u8, 0x20u8, 0x60u8, 0x60u8, 0x20u8, 0x20u8, 0x20u8, 0x20u8, 0x70u8, 0x70u8,
        0xF0u8, 0xF0u8, 0x10u8, 0x10u8, 0xF0u8, 0xF0u8, 0x80u8, 0x80u8, 0xF0u8, 0xF0u8,
        0xF0u8, 0xF0u8, 0x10u8, 0x10u8, 0xF0u8, 0xF0u8, 0x10u8, 0x10u8, 0xF0u8, 0xF0u8,
        0x90u8, 0x90u8, 0x90u8, 0x90u8, 0xF0u8, 0xF0u8, 0x10u8, 0x10u8, 0x10u8, 0x10u8,
        0xF0u8, 0xF0u8, 0x80u8, 0x80u8, 0xF0u8, 0xF0u8, 0x10u8, 0x10u8, 0xF0u8, 0xF0u8,
        0xF0u8, 0xF0u8, 0x80u8, 0x80u8, 0xF0u8, 0xF0u8, 0x90u8, 0x90u8, 0xF0u8, 0xF0u8,
        0xF0u8, 0xF0u8, 0x10u8, 0x10u8, 0x20u8, 0x20u8, 0x40u8, 0x40u8, 0x40u8, 0x40u8,
        0xF0u8, 0xF0u8, 0x90u8, 0x90u8, 0xF0u8, 0xF0u8, 0x90u8, 0x90u8, 0xF0u8, 0xF0u8,
        0xF0u8, 0xF0u8, 0x90u8, 0x90u8, 0xF0u8, 0xF0u8, 0x10u8, 0x10u8, 0xF0u8, 0xF0u8,
        0xF0u8, 0xF0u8, 0x90u8, 0x90u8, 0xF0u8, 0xF0u8, 0x90u8, 0x90u8, 0x90u8, 0x90u8,
        0xE0u8, 0xE0u8, 0x90u8, 0x90u8, 0xE0u8, 0xE0u8, 0x90u8, 0x90u8, 0xE0u8, 0xE0u8,
        0xF0u8, 0xF0u8, 0x80u8, 0x80u8, 0x80u8, 0x80u8, 0x80u8, 0x80u8, 0xF0u8, 0xF0u8,
        0xE0u8, 0xE0u8, 0x90u8, 0x90u8, 0x90u8, 0x90u8, 0x90u8, 0x90u8, 0xE0u8, 0xE0u8,
        0xF0u8, 0xF0u8, 0x80u8, 0x80u8, 0xF0u8, 0xF0u8, 0x80u8, 0x80u8, 0xF0u8, 0xF0u8,
        0xF0u8, 0xF0u8, 0x80u8, 0x80u8, 0xF0u8, 0xF0u8, 0x80u8, 0x80u8, 0x80u8, 0x80u8,
    ]
}

/// Memory as created: the font at address 0, zeroes everywhere else.
pub open spec fn spec_initial_memory() -> Seq<u8> {
    spec_fontset() + Seq::new(3856, |j: int| 0u8)
}

/// The state as created: fonts preloaded, the program counter at 0x200,
/// everything else zeroed.
pub open spec fn spec_initial_state() -> MachineState {
    MachineState {
        mem: spec_initial_memory(),
        v: Seq::new(16, |j: int| 0u8),
        i: 0,
        pc: 0x200,
        gfx: Seq::new(8192, |j: int| 0u8),
        ext: false,
        dt: 0,
        st: 0,
        stack: Seq::new(16, |j: int| 0u16),
        sp: 0,
        key: Seq::new(16, |j: int| 0u8),
    }
}

/// Memory after a ROM of the given bytes is copied in at address 0x200.
pub open spec fn spec_loaded_memory(mem: Seq<u8>, rom: Seq<u8>) -> Seq<u8> {
    Seq::new(4096, |a: int| if 0x200 <= a < 0x200 + rom.len() { rom[a - 0x200] } else { mem[a] })
}

fn font_vec() -> (r: Vec<u8>)
    ensures
        r@ == spec_fontset(),
{
    let arr: [u8; 240] = [
        0xF0, 0x90, 0x90, 0x90, 0xF0, 0x20, 0x60, 0x20, 0x20, 0x70,
        0xF0, 0x10, 0xF0, 0x80, 0xF0, 0xF0, 0x10, 0xF0, 0x10, 0xF0,
        0x90, 0x90, 0xF0, 0x10, 0x10, 0xF0, 0x80, 0xF0, 0x10, 0xF0,
        0xF0, 0x80, 0xF0, 0x90, 0xF0, 0xF0, 0x10, 0x20, 0x40, 0x40,
        0xF0, 0x90, 0xF0, 0x90, 0xF0, 0xF0, 0x90, 0xF0, 0x10, 0xF0,
        0xF0, 0x90, 0xF0, 0x90, 0x90, 0xE0, 0x90, 0xE0, 0x90, 0xE0,
        0xF0, 0x80, 0x80, 0x80, 0xF0, 0xE0, 0x90, 0x90, 0x90, 0xE0,
        0xF0, 0x80, 0xF0, 0x80, 0xF0, 0xF0, 0x80, 0xF0, 0x80, 0x80,
        0xF0, 0xF0, 0x90, 0x90, 0x90, 0x90, 0x90, 0x90, 0xF0, 0xF0,
        0x20, 0x20, 0x60, 0x60, 0x20, 0x20, 0x20, 0x20, 0x70, 0x70,
        0xF0, 0xF0, 0x10, 0x10, 0xF0, 0xF0, 0x80, 0x80, 0xF0, 0xF0,
        0xF0, 0xF0, 0x10, 0x10, 0xF0, 0xF0, 0x10, 0x10, 0xF0, 0xF0,
        0x90, 0x90, 0x90, 0x90, 0xF0, 0xF0, 0x10, 0x10, 0x10, 0x10,
        0xF0, 0xF0, 0x80, 0x80, 0xF0, 0xF0, 0x10, 0x10, 0xF0, 0xF0,
        0xF0, 0xF0, 0x80, 0x80, 0xF0, 0xF0, 0x90, 0x90, 0xF0, 0xF0,
        0xF0, 0xF0, 0x10, 0x10, 0x20, 0x20, 0x40, 0x40, 0x40, 0x40,
        0xF0, 0xF0, 0x90, 0x90, 0xF0, 0xF0, 0x90, 0x90, 0xF0, 0xF0,
        0xF0, 0xF0, 0x90, 0x90, 0xF0, 0xF0, 0x10, 0x10, 0xF0, 0xF0,
        0xF0, 0xF0, 0x90, 0x90, 0xF0, 0xF0, 0x90, 0x90, 0x90, 0x90,
        0xE0, 0xE0, 0x90, 0x90, 0xE0, 0xE0, 0x90, 0x90, 0xE0, 0xE0,
        0xF0, 0xF0, 0x80, 0x80, 0x80, 0x80, 0x80, 0x80, 0xF0, 0xF0,
        0xE0, 0xE0, 0x90, 0x90, 0x90, 0x90, 0x90, 0x90, 0xE0, 0xE0,
        0xF0, 0xF0, 0x80, 0x80, 0xF0, 0xF0, 0x80, 0x80, 0xF0, 0xF0,
        0xF0, 0xF0, 0x80, 0x80, 0xF0, 0xF0, 0x80, 0x80, 0x80, 0x80,
    ];
    let r = vstd::slice::slice_to_vec(arr.as_slice());
    proof {
        assert(arr@ == spec_fontset());
    }
    r
}

pub(crate) fn filled_vec<T: Copy>(len: usize, val: T) -> (r: Vec<T>)
    ensures
        r@ == Seq::new(len as nat, |j: int| val),
{
    let mut r: Vec<T> = Vec::new();
    while r.len() < len
        invariant
            r@.len() <= len,
            r@ == Seq::new(r@.len(), |j: int| val),
        decreases len - r@.len(),
    {
        r.push(val);
        proof {
            assert(r@ =~= Seq::new(r@.len(), |j: int| val));
        }
    }
    r
}

/// The machine: a 4096-byte memory image, sixteen 8-bit registers, the
/// index register, the program counter, a 16-frame call stack, two
/// countdown timers, a 16-key input latch, and the framebuffer.
pub struct Chip8 {
    pub memory: Vec<u8>,
    pub v: Vec<u8>,
    pub i: u16,
    pub pc: u16,
    pub gfx: Vec<u8>,
    pub extended_gfx_mode: bool,
    pub delay_timer: u8,
    pub sound_timer: u8,
    pub stack: Vec<u16>,
    pub sp: u16,
    pub key: Vec<u8>,
}

impl View for Chip8 {
    type V = MachineState;

    open spec fn view(&self) -> MachineState {
        MachineState {
            mem: self.memory@,
            v: self.v@,
            i: self.i,
            pc: self.pc,
            gfx: self.gfx@,
            ext: self.extended_gfx_mode,
            dt: self.delay_timer,
            st: self.sound_timer,
            stack: self.stack@,
            sp: self.sp,
            key: self.key@,
        }
    }
}

impl Chip8 {
    /// Create a machine with the fonts preloaded and every other component
    /// zeroed; the program counter starts at 0x200.
    pub fn new() -> (c: Self)
        ensures
            c@ == spec_initial_state(),
            c@.wf(),
    {
        let mut memory = font_vec();
        while memory.len() < 4096
            invariant
                240 <= memory@.len() <= 4096,
                memory@ == spec_fontset() + Seq::new((memory@.len() - 240) as nat, |j: int| 0u8),
            decreases 4096 - memory@.len(),
        {
            memory.push(0);
            proof {
                assert(memory@ =~= spec_fontset() + Seq::new((memory@.len() - 240) as nat, |j: int| 0u8));
            }
        }
        let c = Chip8 {
            memory,
            v: filled_vec(16, 0u8),
            i: 0,
            pc: 0x200,
            gfx: filled_vec(8192, 0u8),
            extended_gfx_mode: false,
            delay_timer: 0,
            sound_timer: 0,
            stack: filled_vec(16, 0u16),
            sp: 0,
            key: filled_vec(16, 0u8),
        };
        proof {
            assert(c@.mem =~= spec_initial_memory());
            assert(forall|j: int| 0 <= j < 8192 ==> #[trigger] c@.gfx[j] <= 1);
        }
        c
    }

    /// Copy a ROM into program space, starting at address 0x200.  A ROM
    /// over 3584 bytes does not fit and is rejected unwritten.
    pub fn load_game(&mut self, game: Vec<u8>) -> (r: Result<(), EngineError>)
        requires
            old(self)@.wf(),
        ensures
            final(self)@.wf(),
            game@.len() <= 3584 ==> (r is Ok && final(self)@ == (MachineState {
                mem: spec_loaded_memory(old(self)@.mem, game@),
                ..old(self)@
            })),
            game@.len() > 3584 ==> (r matches Err(e) && e == EngineError::RomTooLarge
                && final(self)@ == old(self)@),
    {
        if game.len() > 3584 {
            return Err(EngineError::RomTooLarge);
        }
        let ghost m0 = self.memory@;
        let mut k: usize = 0;
        while k < game.len()
            invariant
                self@.wf(),
                k <= game@.len() <= 3584,
                self.memory@ == Seq::new(
                    4096,
                    |a: int| if 0x200 <= a < 0x200 + k { game@[a - 0x200] } else { m0[a] },
                ),
                self.v@ == old(self)@.v,
                self.i == old(self)@.i,
                self.pc == old(self)@.pc,
                self.gfx@ == old(self)@.gfx,
                self.extended_gfx_mode == old(self)@.ext,
                self.delay_timer == old(self)@.dt,
                self.sound_timer == old(self)@.st,
                self.stack@ == old(self)@.stack,
                self.sp == old(self)@.sp,
                self.key@ == old(self)@.key,
                m0 == old(self)@.mem,
            decreases game@.len() - k,
        {
            let b = game[k];
            self.memory.set(0x200 + k, b);
            k += 1;
            proof {
                assert(self.memory@ =~= Seq::new(
                    4096,
                    |a: int| if 0x200 <= a < 0x200 + k { game@[a - 0x200] } else { m0[a] },
                ));
            }
        }
        proof {
            assert(self.memory@ =~= spec_loaded_memory(old(self)@.mem, game@));
        }
        Ok(())
    }

    /// Count one unit of timer time: each timer goes down by one and
    /// saturates at zero; nothing else moves.
    pub fn tick_timers(&mut self)
        requires
            old(self)@.wf(),
        ensures
            final(self)@.wf(),
            final(self)@ == (MachineState {
                dt: if old(self)@.dt > 0 { (old(self)@.dt - 1) as u8 } else { 0u8 },
                st: if old(self)@.st > 0 { (old(self)@.st - 1) as u8 } else { 0u8 },
                ..old(self)@
            }),
    {
        if self.delay_timer > 0 {
            self.delay_timer = self.delay_timer - 1;
        }
        if self.sound_timer > 0 {
            self.sound_timer = self.sound_timer - 1;
        }
    }

    /// Press or release one of the sixteen keys.
    pub fn set_key(&mut self, key: u8, state: bool)
        requires
            old(self)@.wf(),
            key < 16,
        ensures
            final(self)@.wf(),
            final(self)@ == (MachineState {
                key: old(self)@.key.update(key as int, if state { 1u8 } else { 0u8 }),
                ..old(self)@
            }),
    {
        self.key.set(key as usize, if state { 1 } else { 0 });
    }

    /// Whether one of the sixteen keys is pressed.
    pub fn get_key(&self, key: u8) -> (r: bool)
        requires
            self@.wf(),
            key < 16,
        ensures
            r == (self@.key[key as int] == 1),
    {
        self.key[key as usize] == 1
    }

    /// The framebuffer backing store.  The active region is the first
    /// `gfx_width() * gfx_height()` cells, row-major.
    pub fn get_gfx(&self) -> (r: &[u8])
        ensures
            r@ == self@.gfx,
    {
        self.gfx.as_slice()
    }

    /// The active framebuffer width under the current screen mode.
    pub fn gfx_width(&self) -> (r: usize)
        ensures
            r == spec_width(self@.ext),
    {
        if self.extended_gfx_mode { 128 } else { 64 }
    }

    /// The active framebuffer height under the current screen mode.
    pub fn gfx_height(&self) -> (r: usize)
        ensures
            r == spec_height(self@.ext),
    {
        if self.extended_gfx_mode { 64 } else { 32 }
    }

    /// The whole memory image.
    pub fn get_memory(&self) -> (r: &[u8])
        ensures
            r@ == self@.mem,
    {
        self.memory.as_slice()
    }

    /// One memory cell.
    pub fn get_mem(&self, addr: u16) -> (r: u8)
        requires
            self@.wf(),
            addr < 4096,
        ensures
            r == self@.mem[addr as int],
    {
        self.memory[addr as usize]
    }

    /// Write one memory cell.
    pub fn set_mem(&mut self, addr: u16, val: u8)
        requires
            old(self)@.wf(),
            addr < 4096,
        ensures
            final(self)@.wf(),
            final(self)@ == (MachineState { mem: old(self)@.mem.update(addr as int, val), ..old(self)@ }),
    {
        self.memory.set(addr as usize, val);
    }

    /// One general-purpose register.
    pub fn get_v(&self, x: u8) -> (r: u8)
        requires
            self@.wf(),
            x < 16,
        ensures
            r == self@.v[x as int],
    {
        self.v[x as usize]
    }

    /// Write one general-purpose register.
    pub fn set_v(&mut self, x: u8, val: u8)
        requires
            old(self)@.wf(),
            x < 16,
        ensures
            final(self)@.wf(),
            final(self)@ == (MachineState { v: old(self)@.v.update(x as int, val), ..old(self)@ }),
    {
        self.v.set(x as usize, val);
    }

    /// The program counter.
    pub fn get_pc(&self) -> (r: u16)
        ensures
            r == self@.pc,
    {
        self.pc
    }

    /// Set the program counter; addresses live in [0, 4096).
    pub fn set_pc(&mut self, pc: u16)
        requires
            old(self)@.wf(),
            pc < 4096,
        ensures
            final(self)@.wf(),
            final(self)@ == (MachineState { pc: pc, ..old(self)@ }),
    {
        self.pc = pc;
    }

    /// The index register.
    pub fn get_i(&self) -> (r: u16)
        ensures
            r == self@.i,
    {
        self.i
    }

    /// Set the index register; addresses live in [0, 4096).
    pub fn set_i(&mut self, i: u16)
        requires
            old(self)@.wf(),
            i < 4096,
        ensures
            final(self)@.wf(),
            final(self)@ == (MachineState { i: i, ..old(self)@ }),
    {
        self.i = i;
    }

    /// The stack pointer: how many call frames are live.
    pub fn get_sp(&self) -> (r: u16)
        ensures
            r == self@.sp,
    {
        self.sp
    }

    /// Set the stack pointer; at most 16 frames exist.
    pub fn set_sp(&mut self, sp: u16)
        requires
            old(self)@.wf(),
            sp <= 16,
        ensures
            final(self)@.wf(),
            final(self)@ == (MachineState { sp: sp, ..old(self)@ }),
    {
        self.sp = sp;
    }

    /// One call-stack entry.
    pub fn get_stack_entry(&self, idx: u8) -> (r: u16)
        requires
            self@.wf(),
            idx < 16,
        ensures
            r == self@.stack[idx as int],
    {
        self.stack[idx as usize]
    }

    /// Write one call-stack entry; return addresses live in [0, 4096).
    pub fn set_stack_entry(&mut self, idx: u8, val: u16)
        requires
            old(self)@.wf(),
            idx < 16,
            val < 4096,
        ensures
            final(self)@.wf(),
            final(self)@ == (MachineState {
                stack: old(self)@.stack.update(idx as int, val),
                ..old(self)@
            }),
    {
        self.stack.set(idx as usize, val);
    }

    /// The delay timer.
    pub fn get_delay_timer(&self) -> (r: u8)
        ensures
            r == self@.dt,
    {
        self.delay_timer
    }

    /// Set the delay timer.
    pub fn set_delay_timer(&mut self, val: u8)
        requires
            old(self)@.wf(),
        ensures
            final(self)@.wf(),
            final(self)@ == (MachineState { dt: val, ..old(self)@ }),
    {
        self.delay_timer = val;
    }

    /// The sound timer.
    pub fn get_sound_timer(&self) -> (r: u8)
        ensures
            r == self@.st,
    {
        self.sound_timer
    }

    /// Set the sound timer.
    pub fn set_sound_timer(&mut self, val: u8)
        requires
            old(self)@.wf(),
        ensures
            final(self)@.wf(),
            final(self)@ == (MachineState { st: val, ..old(self)@ }),
    {
        self.sound_timer = val;
    }

    /// Whether extended (128 * 64) screen mode is on.
    pub fn get_extended_mode(&self) -> (r: bool)
        ensures
            r == self@.ext,
    {
        self.extended_gfx_mode
    }

    /// Switch the screen mode flag; the stored pixels are left as they are.
    pub fn set_extended_mode(&mut self, ext: bool)
        requires
            old(self)@.wf(),
        ensures
            final(self)@.wf(),
            final(self)@ == (MachineState { ext: ext, ..old(self)@ }),
    {
        self.extended_gfx_mode = ext;
    }

    /// Fill the whole framebuffer backing store with one pixel value.
    pub fn fill_gfx(&mut self, val: u8)
        requires
            old(self)@.wf(),
            val <= 1,
        ensures
            final(self)@.wf(),
            final(self)@ == (MachineState { gfx: Seq::new(8192, |j: int| val), ..old(self)@ }),
    {
        self.gfx = filled_vec(8192, val);
    }
}

} // verus!
