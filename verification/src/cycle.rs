//! The execution engine: one fetch-decode-execute cycle per call.
//!
//! `spec_step` is the machine's transition function: it fetches the two
//! bytes at the program counter, advances the counter, decodes the opcode
//! through the shared table, and maps the decoded instruction to the next
//! state.  `Chip8::emulate_cycle` is proved to follow it exactly; only the
//! random-draw instruction leaves a byte open, and the contract then holds
//! for some byte.
//!
//! All program-counter and memory-address arithmetic wraps around the
//! 4096-byte address space.  Arithmetic flags are computed from the operand
//! registers' values before the instruction writes anything.

use vstd::prelude::*;

verus! {

use crate::EngineError;
use crate::machine::{Chip8, MachineState, spec_width, spec_height};
use crate::opcodes::{OpId, spec_decode, get_op_code_from_hex};
use crate::disasm::{spec_nib1, spec_nib2, spec_nib3};
use vstd::pervasive::VecAdditionalExecFns;

/// The raw opcode at the program counter: two bytes combined big-endian.
/// The second byte wraps around the top of memory.
pub open spec fn spec_fetch(s: MachineState) -> u16 {
    ((s.mem[s.pc as int] as u16) << 8) | (s.mem[(s.pc + 1) % 4096] as u16)
}

/// The program counter two bytes on, wrapping around the address space.
pub open spec fn spec_pc_plus2(pc: u16) -> u16 {
    (((pc + 2) % 4096) as u16)
}

/// The program counter two bytes back, wrapping around the address space.
pub open spec fn spec_pc_minus2(pc: u16) -> u16 {
    (((pc + 4094) % 4096) as u16)
}

/// The framebuffer scrolled `n` rows down within the active region: the
/// top `n` rows become blank, every other active row takes the row `n`
/// above it, and cells outside the active region keep their value.
pub open spec fn spec_scroll_down(gfx: Seq<u8>, n: int, w: int, h: int) -> Seq<u8> {
    Seq::new(
        gfx.len(),
        |idx: int|
            if idx < w * h {
                if idx / w < n {
                    0u8
                } else {
                    gfx[idx - n * w]
                }
            } else {
                gfx[idx]
            },
    )
}

/// The framebuffer scrolled 4 pixels right within the active region: the
/// leftmost 4 cells of each active row become blank.
pub open spec fn spec_scroll_right(gfx: Seq<u8>, w: int, h: int) -> Seq<u8> {
    Seq::new(
        gfx.len(),
        |idx: int|
            if idx < w * h {
                if idx % w < 4 {
                    0u8
                } else {
                    gfx[idx - 4]
                }
            } else {
                gfx[idx]
            },
    )
}

/// The framebuffer scrolled 4 pixels left within the active region: the
/// rightmost 4 cells of each active row become blank.
pub open spec fn spec_scroll_left(gfx: Seq<u8>, w: int, h: int) -> Seq<u8> {
    Seq::new(
        gfx.len(),
        |idx: int|
            if idx < w * h {
                if idx % w >= w - 4 {
                    0u8
                } else {
                    gfx[idx + 4]
                }
            } else {
                gfx[idx]
            },
    )
}

/// Whether bit `c` of a sprite row is set, counting from the most
/// significant bit.
pub open spec fn spec_sprite_bit(sprite: u8, c: int) -> bool {
    sprite & (0x80u8 >> (c as u8)) != 0
}

/// The framebuffer and collision flag after the first `k` bits of one
/// sprite row are drawn.  A set sprite bit toggles the pixel at column
/// `(px + c) mod w` of row `py`; a pixel turned off records a collision.
pub open spec fn spec_draw_bits(
    gfx: Seq<u8>,
    vf: u8,
    sprite: u8,
    px: int,
    py: int,
    w: int,
    k: int,
) -> (Seq<u8>, u8)
    decreases k,
{
    if k <= 0 {
        (gfx, vf)
    } else {
        let prev = spec_draw_bits(gfx, vf, sprite, px, py, w, k - 1);
        let c = k - 1;
        if spec_sprite_bit(sprite, c) {
            let idx = py * w + (px + c) % w;
            if prev.0[idx] == 1 {
                (prev.0.update(idx, 0u8), 1u8)
            } else {
                (prev.0.update(idx, 1u8), prev.1)
            }
        } else {
            prev
        }
    }
}

/// The framebuffer and collision flag after the first `r` rows of a sprite
/// are drawn.  Row `q` is the byte at memory address `(i + q) mod 4096`,
/// drawn at screen row `(vy + q) mod h`.
pub open spec fn spec_draw_rows(
    gfx: Seq<u8>,
    vf: u8,
    mem: Seq<u8>,
    i: int,
    px: int,
    vy: int,
    w: int,
    h: int,
    r: int,
) -> (Seq<u8>, u8)
    decreases r,
{
    if r <= 0 {
        (gfx, vf)
    } else {
        let prev = spec_draw_rows(gfx, vf, mem, i, px, vy, w, h, r - 1);
        let sprite = mem[(i + (r - 1)) % 4096];
        let py = (vy + (r - 1)) % h;
        spec_draw_bits(prev.0, prev.1, sprite, px, py, w, 8)
    }
}

/// Memory after the first `k` registers are stored at addresses `base`,
/// `base + 1`, ... wrapping around the address space.
pub open spec fn spec_store_regs(mem: Seq<u8>, v: Seq<u8>, base: int, k: int) -> Seq<u8>
    decreases k,
{
    if k <= 0 {
        mem
    } else {
        spec_store_regs(mem, v, base, k - 1).update((base + (k - 1)) % 4096, v[k - 1])
    }
}

/// The register file after the first `k` registers are loaded from
/// addresses `base`, `base + 1`, ... wrapping around the address space.
pub open spec fn spec_load_regs(v: Seq<u8>, mem: Seq<u8>, base: int, k: int) -> Seq<u8>
    decreases k,
{
    if k <= 0 {
        v
    } else {
        spec_load_regs(v, mem, base, k - 1).update(k - 1, mem[(base + (k - 1)) % 4096])
    }
}

/// The highest-numbered pressed key among the first `k` keys, if any.
pub open spec fn spec_top_key(key: Seq<u8>, k: int) -> Option<u8>
    decreases k,
{
    if k <= 0 {
        None
    } else if key[k - 1] != 0 {
        Some(((k - 1) as u8))
    } else {
        spec_top_key(key, k - 1)
    }
}

/// The effect of one decoded instruction on a state whose program counter
/// has already been advanced past the instruction.  `rnd` is the byte the
/// random-draw instruction combines with its immediate; every other
/// instruction ignores it.
pub open spec fn spec_exec_instr(s: MachineState, id: OpId, op: u16, rnd: u8) -> (
    MachineState,
    Result<(), EngineError>,
) {
    let x = spec_nib1(op) as int;
    let y = spec_nib2(op) as int;
    let n = spec_nib3(op) as int;
    let kk = (op & 0xFF) as u8;
    let nnn = op & 0x0FFF;
    let vx = s.v[x];
    let vy = s.v[y];
    let w = spec_width(s.ext);
    let h = spec_height(s.ext);
    match id {
        OpId::Cls => (MachineState { gfx: Seq::new(8192, |j: int| 0u8), ..s }, Ok(())),
        OpId::Ret => if s.sp == 0 {
            (s, Err(EngineError::StackUnderflow))
        } else {
            (MachineState { sp: (s.sp - 1) as u16, pc: s.stack[s.sp - 1], ..s }, Ok(()))
        },
        OpId::Jp => (MachineState { pc: nnn, ..s }, Ok(())),
        OpId::Call => if s.sp >= 16 {
            (s, Err(EngineError::StackOverflow))
        } else {
            (
                MachineState {
                    stack: s.stack.update(s.sp as int, s.pc),
                    sp: (s.sp + 1) as u16,
                    pc: nnn,
                    ..s
                },
                Ok(()),
            )
        },
        OpId::SeByte => (
            MachineState { pc: if vx == kk { spec_pc_plus2(s.pc) } else { s.pc }, ..s },
            Ok(()),
        ),
        OpId::SneByte => (
            MachineState { pc: if vx != kk { spec_pc_plus2(s.pc) } else { s.pc }, ..s },
            Ok(()),
        ),
        OpId::SeReg => (
            MachineState { pc: if vx == vy { spec_pc_plus2(s.pc) } else { s.pc }, ..s },
            Ok(()),
        ),
        OpId::LdByte => (MachineState { v: s.v.update(x, kk), ..s }, Ok(())),
        OpId::AddByte => (
            MachineState { v: s.v.update(x, (((vx as u16) + (kk as u16)) % 256) as u8), ..s },
            Ok(()),
        ),
        OpId::LdReg => (MachineState { v: s.v.update(x, vy), ..s }, Ok(())),
        OpId::Or => (MachineState { v: s.v.update(x, vx | vy).update(15, 0u8), ..s }, Ok(())),
        OpId::And => (MachineState { v: s.v.update(x, vx & vy).update(15, 0u8), ..s }, Ok(())),
        OpId::Xor => (MachineState { v: s.v.update(x, vx ^ vy), ..s }, Ok(())),
        OpId::AddReg => (
            MachineState {
                v: s.v.update(15, if (vx as u16) + (vy as u16) > 255 { 1u8 } else { 0u8 }).update(
                    x,
                    (((vx as u16) + (vy as u16)) % 256) as u8,
                ),
                ..s
            },
            Ok(()),
        ),
        OpId::Sub => (
            MachineState {
                v: s.v.update(15, if vx >= vy { 1u8 } else { 0u8 }).update(
                    x,
                    ((256 + (vx as u16) - (vy as u16)) % 256) as u8,
                ),
                ..s
            },
            Ok(()),
        ),
        OpId::Shr => (
            MachineState { v: s.v.update(15, vx & 1).update(x, vx >> 1u8), ..s },
            Ok(()),
        ),
        OpId::Subn => (
            MachineState {
                v: s.v.update(15, if vy >= vx { 1u8 } else { 0u8 }).update(
                    x,
                    ((256 + (vy as u16) - (vx as u16)) % 256) as u8,
                ),
                ..s
            },
            Ok(()),
        ),
        OpId::Shl => (
            MachineState { v: s.v.update(15, (vx & 0x80) >> 7u8).update(x, vx << 1u8), ..s },
            Ok(()),
        ),
        OpId::SneReg => (
            MachineState { pc: if vx != vy { spec_pc_plus2(s.pc) } else { s.pc }, ..s },
            Ok(()),
        ),
        OpId::LdI => (MachineState { i: nnn, ..s }, Ok(())),
        OpId::JpV0 => (MachineState { pc: (((nnn + (s.v[0] as u16)) % 4096) as u16), ..s }, Ok(())),
        OpId::Rnd => (MachineState { v: s.v.update(x, kk & rnd), ..s }, Ok(())),
        OpId::Drw => {
            let res = spec_draw_rows(s.gfx, 0u8, s.mem, s.i as int, vx as int, vy as int, w, h, n);
            (MachineState { gfx: res.0, v: s.v.update(15, res.1), ..s }, Ok(()))
        },
        OpId::Skp => (
            MachineState {
                pc: if s.key[(vx & 0xF) as int] == 1 { spec_pc_plus2(s.pc) } else { s.pc },
                ..s
            },
            Ok(()),
        ),
        OpId::Sknp => (
            MachineState {
                pc: if s.key[(vx & 0xF) as int] == 0 { spec_pc_plus2(s.pc) } else { s.pc },
                ..s
            },
            Ok(()),
        ),
        OpId::LdFromDt => (MachineState { v: s.v.update(x, s.dt), ..s }, Ok(())),
        OpId::LdKey => match spec_top_key(s.key, 16) {
            None => (MachineState { pc: spec_pc_minus2(s.pc), ..s }, Ok(())),
            Some(kx) => (MachineState { v: s.v.update(x, kx), ..s }, Ok(())),
        },
        OpId::LdDt => (MachineState { dt: vx, ..s }, Ok(())),
        OpId::LdSt => (MachineState { st: vx, ..s }, Ok(())),
        OpId::AddI => (MachineState { i: (((s.i + (vx as u16)) % 4096) as u16), ..s }, Ok(())),
        OpId::LdFont => (MachineState { i: ((vx as u16) * 5) as u16, ..s }, Ok(())),
        OpId::LdBigFont => (MachineState { i: (0x50 + (vx as u16) * 10) as u16, ..s }, Ok(())),
        OpId::Bcd => (
            MachineState {
                mem: s.mem.update(s.i as int, vx / 100).update(
                    (s.i + 1) % 4096,
                    (vx / 10) % 10,
                ).update((s.i + 2) % 4096, vx % 10),
                ..s
            },
            Ok(()),
        ),
        OpId::StoreRegs => (
            MachineState { mem: spec_store_regs(s.mem, s.v, s.i as int, x + 1), ..s },
            Ok(()),
        ),
        OpId::LoadRegs => (
            MachineState { v: spec_load_regs(s.v, s.mem, s.i as int, x + 1), ..s },
            Ok(()),
        ),
        OpId::StoreRpl => if x > 7 {
            (s, Err(EngineError::InvalidOperand))
        } else {
            (MachineState { mem: spec_store_regs(s.mem, s.v, 0x5F0, x + 1), ..s }, Ok(()))
        },
        OpId::LoadRpl => if x > 7 {
            (s, Err(EngineError::InvalidOperand))
        } else {
            (MachineState { v: spec_load_regs(s.v, s.mem, 0x5F0, x + 1), ..s }, Ok(()))
        },
        OpId::Scd => (MachineState { gfx: spec_scroll_down(s.gfx, n, w, h), ..s }, Ok(())),
        OpId::Scr => (MachineState { gfx: spec_scroll_right(s.gfx, w, h), ..s }, Ok(())),
        OpId::Scl => (MachineState { gfx: spec_scroll_left(s.gfx, w, h), ..s }, Ok(())),
        OpId::Exit => (MachineState { pc: 0x200, ..s }, Ok(())),
        OpId::Low => (MachineState { ext: false, ..s }, Ok(())),
        OpId::High => (MachineState { ext: true, ..s }, Ok(())),
        OpId::Sys => (s, Ok(())),
    }
}

/// One whole cycle as a function of the state and the byte the random
/// instruction would draw: fetch, advance, decode, execute.  An opcode no
/// descriptor matches leaves the state untouched beyond the advanced
/// program counter and reports where it was fetched from.
pub open spec fn spec_step(s: MachineState, rnd: u8) -> (MachineState, Result<(), EngineError>) {
    let op = spec_fetch(s);
    let s1 = MachineState { pc: spec_pc_plus2(s.pc), ..s };
    match spec_decode(op) {
        None => (s1, Err(EngineError::UnknownOpcode { address: s.pc, opcode: op })),
        Some(d) => spec_exec_instr(s1, d.id, op, rnd),
    }
}

/// Whether the instruction at the program counter is the random draw: the
/// one instruction whose outcome `spec_step` does not fix.
pub open spec fn spec_step_is_rnd(s: MachineState) -> bool {
    match spec_decode(spec_fetch(s)) {
        Some(d) => d.id == OpId::Rnd,
        None => false,
    }
}

broadcast proof fn lemma_low_nibble_u16(x: u16)
    ensures
        #[trigger] (x & 0xF) < 16,
{
    assert(x & 0xF < 16) by (bit_vector);
}

broadcast proof fn lemma_low_nibble_u8(x: u8)
    ensures
        #[trigger] (x & 0xF) < 16,
{
    assert(x & 0xF < 16) by (bit_vector);
}

broadcast proof fn lemma_addr_bound_u16(x: u16)
    ensures
        #[trigger] (x & 0x0FFF) < 4096,
{
    assert(x & 0x0FFF < 4096) by (bit_vector);
}

/// An opcode no descriptor matches never corrupts the machine: the step
/// leaves every component unchanged except the program counter, which has
/// advanced by two, and it reports the address the opcode was fetched from
/// together with the opcode itself.
pub proof fn lemma_unknown_opcode_preserves_state(s: MachineState, rnd: u8)
    requires
        spec_decode(spec_fetch(s)) is None,
    ensures
        spec_step(s, rnd).0 == (MachineState { pc: spec_pc_plus2(s.pc), ..s }),
        spec_step(s, rnd).1 == Err::<(), EngineError>(
            EngineError::UnknownOpcode { address: s.pc, opcode: spec_fetch(s) },
        ),
{
}

/// Relies on rand::random: one byte from the thread-local generator.
/// Nothing is promised of its value; the caller states what holds of
/// every byte.
#[verifier::external_body]
fn random_byte() -> u8 {
    rand::random::<u8>()
}

/// Drawing bits keeps the framebuffer's length, keeps every pixel a single
/// bit, and keeps the collision flag a single bit.
proof fn lemma_draw_bits_wf(gfx: Seq<u8>, vf: u8, sprite: u8, px: int, py: int, w: int, k: int)
    requires
        forall|j: int| 0 <= j < gfx.len() ==> #[trigger] gfx[j] <= 1,
        vf <= 1,
        w > 0,
        px >= 0,
        py >= 0,
        (py + 1) * w <= gfx.len(),
    ensures
        spec_draw_bits(gfx, vf, sprite, px, py, w, k).0.len() == gfx.len(),
        forall|j: int|
            0 <= j < gfx.len() ==> #[trigger] spec_draw_bits(gfx, vf, sprite, px, py, w, k).0[j]
                <= 1,
        spec_draw_bits(gfx, vf, sprite, px, py, w, k).1 <= 1,
    decreases k,
{
    if k > 0 {
        lemma_draw_bits_wf(gfx, vf, sprite, px, py, w, k - 1);
        if spec_sprite_bit(sprite, k - 1) {
            vstd::arithmetic::mul::lemma_mul_nonnegative(py, w);
            vstd::arithmetic::div_mod::lemma_mod_bound(px + (k - 1), w);
            assert(py * w + w == (py + 1) * w) by (nonlinear_arith);
            assert(0 <= py * w + (px + (k - 1)) % w < gfx.len());
        }
    }
}

/// Drawing rows keeps the framebuffer's length, keeps every pixel a single
/// bit, and keeps the collision flag a single bit.
proof fn lemma_draw_rows_wf(
    gfx: Seq<u8>,
    vf: u8,
    mem: Seq<u8>,
    i: int,
    px: int,
    vy: int,
    w: int,
    h: int,
    r: int,
)
    requires
        forall|j: int| 0 <= j < gfx.len() ==> #[trigger] gfx[j] <= 1,
        vf <= 1,
        w > 0,
        h > 0,
        px >= 0,
        vy >= 0,
        h * w <= gfx.len(),
    ensures
        spec_draw_rows(gfx, vf, mem, i, px, vy, w, h, r).0.len() == gfx.len(),
        forall|j: int|
            0 <= j < gfx.len() ==> #[trigger] spec_draw_rows(gfx, vf, mem, i, px, vy, w, h, r).0[j]
                <= 1,
        spec_draw_rows(gfx, vf, mem, i, px, vy, w, h, r).1 <= 1,
    decreases r,
{
    if r > 0 {
        lemma_draw_rows_wf(gfx, vf, mem, i, px, vy, w, h, r - 1);
        let prev = spec_draw_rows(gfx, vf, mem, i, px, vy, w, h, r - 1);
        let py = (vy + (r - 1)) % h;
        vstd::arithmetic::div_mod::lemma_mod_bound(vy + (r - 1), h);
        vstd::arithmetic::mul::lemma_mul_inequality(py + 1, h, w);
        lemma_draw_bits_wf(prev.0, prev.1, mem[(i + (r - 1)) % 4096], px, py, w, 8);
    }
}

fn scrolled_down(gfx: &Vec<u8>, n: u16, ext: bool) -> (r: Vec<u8>)
    requires
        gfx@.len() == 8192,
        n < 16,
        forall|j: int| 0 <= j < 8192 ==> #[trigger] gfx@[j] <= 1,
    ensures
        r@ == spec_scroll_down(gfx@, n as int, spec_width(ext), spec_height(ext)),
        forall|j: int| 0 <= j < 8192 ==> #[trigger] r@[j] <= 1,
{
    let w: usize = if ext { 128 } else { 64 };
    let h: usize = if ext { 64 } else { 32 };
    let nn = n as usize;
    let mut out: Vec<u8> = Vec::new();
    let mut idx: usize = 0;
    while idx < 8192
        invariant
            gfx@.len() == 8192,
            forall|j: int| 0 <= j < 8192 ==> #[trigger] gfx@[j] <= 1,
            w == spec_width(ext),
            h == spec_height(ext),
            nn == n,
            n < 16,
            out@.len() == idx,
            idx <= 8192,
            forall|j: int| 0 <= j < idx ==> #[trigger] out@[j] <= 1,
            forall|j: int|
                0 <= j < idx ==> #[trigger] out@[j] == spec_scroll_down(
                    gfx@,
                    n as int,
                    spec_width(ext),
                    spec_height(ext),
                )[j],
        decreases 8192 - idx,
    {
        let px: u8;
        if idx < w * h {
            if idx / w < nn {
                px = 0;
            } else {
                proof {
                    vstd::arithmetic::div_mod::lemma_fundamental_div_mod(idx as int, w as int);
                    vstd::arithmetic::mul::lemma_mul_inequality(
                        nn as int,
                        idx as int / w as int,
                        w as int,
                    );
                }
                px = gfx[idx - nn * w];
            }
        } else {
            px = gfx[idx];
        }
        out.push(px);
        idx += 1;
    }
    proof {
        assert(out@ =~= spec_scroll_down(gfx@, n as int, spec_width(ext), spec_height(ext)));
    }
    out
}

fn scrolled_right(gfx: &Vec<u8>, ext: bool) -> (r: Vec<u8>)
    requires
        gfx@.len() == 8192,
        forall|j: int| 0 <= j < 8192 ==> #[trigger] gfx@[j] <= 1,
    ensures
        r@ == spec_scroll_right(gfx@, spec_width(ext), spec_height(ext)),
        forall|j: int| 0 <= j < 8192 ==> #[trigger] r@[j] <= 1,
{
    let w: usize = if ext { 128 } else { 64 };
    let h: usize = if ext { 64 } else { 32 };
    let mut out: Vec<u8> = Vec::new();
    let mut idx: usize = 0;
    while idx < 8192
        invariant
            gfx@.len() == 8192,
            forall|j: int| 0 <= j < 8192 ==> #[trigger] gfx@[j] <= 1,
            w == spec_width(ext),
            h == spec_height(ext),
            out@.len() == idx,
            idx <= 8192,
            forall|j: int| 0 <= j < idx ==> #[trigger] out@[j] <= 1,
            forall|j: int|
                0 <= j < idx ==> #[trigger] out@[j] == spec_scroll_right(
                    gfx@,
                    spec_width(ext),
                    spec_height(ext),
                )[j],
        decreases 8192 - idx,
    {
        let px: u8;
        if idx < w * h {
            if idx % w < 4 {
                px = 0;
            } else {
                proof {
                    vstd::arithmetic::div_mod::lemma_fundamental_div_mod(idx as int, w as int);
                    vstd::arithmetic::mul::lemma_mul_nonnegative(w as int, idx as int / w as int);
                }
                px = gfx[idx - 4];
            }
        } else {
            px = gfx[idx];
        }
        out.push(px);
        idx += 1;
    }
    proof {
        assert(out@ =~= spec_scroll_right(gfx@, spec_width(ext), spec_height(ext)));
    }
    out
}

fn scrolled_left(gfx: &Vec<u8>, ext: bool) -> (r: Vec<u8>)
    requires
        gfx@.len() == 8192,
        forall|j: int| 0 <= j < 8192 ==> #[trigger] gfx@[j] <= 1,
    ensures
        r@ == spec_scroll_left(gfx@, spec_width(ext), spec_height(ext)),
        forall|j: int| 0 <= j < 8192 ==> #[trigger] r@[j] <= 1,
{
    let w: usize = if ext { 128 } else { 64 };
    let h: usize = if ext { 64 } else { 32 };
    let mut out: Vec<u8> = Vec::new();
    let mut idx: usize = 0;
    while idx < 8192
        invariant
            gfx@.len() == 8192,
            forall|j: int| 0 <= j < 8192 ==> #[trigger] gfx@[j] <= 1,
            w == spec_width(ext),
            h == spec_height(ext),
            out@.len() == idx,
            idx <= 8192,
            forall|j: int| 0 <= j < idx ==> #[trigger] out@[j] <= 1,
            forall|j: int|
                0 <= j < idx ==> #[trigger] out@[j] == spec_scroll_left(
                    gfx@,
                    spec_width(ext),
                    spec_height(ext),
                )[j],
        decreases 8192 - idx,
    {
        let px: u8;
        if idx < w * h {
            if idx % w >= w - 4 {
                px = 0;
            } else {
                proof {
                    let q = idx as int / (w as int);
                    vstd::arithmetic::div_mod::lemma_fundamental_div_mod(idx as int, w as int);
                    if q >= h as int {
                        vstd::arithmetic::mul::lemma_mul_inequality(h as int, q, w as int);
                        assert(false);
                    }
                    vstd::arithmetic::mul::lemma_mul_inequality(q + 1, h as int, w as int);
                }
                px = gfx[idx + 4];
            }
        } else {
            px = gfx[idx];
        }
        out.push(px);
        idx += 1;
    }
    proof {
        assert(out@ =~= spec_scroll_left(gfx@, spec_width(ext), spec_height(ext)));
    }
    out
}

impl Chip8 {
    /// The highest-numbered pressed key, if any key is pressed.
    fn scan_keys(&self) -> (r: Option<u8>)
        requires
            self@.wf(),
        ensures
            r == spec_top_key(self@.key, 16),
    {
        let mut r: Option<u8> = None;
        let mut k: usize = 0;
        while k < 16
            invariant
                self@.wf(),
                k <= 16,
                r == spec_top_key(self@.key, k as int),
            decreases 16 - k,
        {
            if self.key[k] != 0 {
                r = Some(k as u8);
            }
            k += 1;
        }
        r
    }

    /// Store registers 0 through `x` at consecutive addresses from `base`,
    /// wrapping around the address space.
    fn op_store_regs(&mut self, base: usize, x: usize)
        requires
            old(self)@.wf(),
            x < 16,
            base < 4096,
        ensures
            final(self)@.wf(),
            final(self)@ == (MachineState {
                mem: spec_store_regs(old(self)@.mem, old(self)@.v, base as int, x as int + 1),
                ..old(self)@
            }),
    {
        let mut k: usize = 0;
        while k <= x
            invariant
                old(self)@.wf(),
                x < 16,
                base < 4096,
                k <= x + 1,
                self@ == (MachineState {
                    mem: spec_store_regs(old(self)@.mem, old(self)@.v, base as int, k as int),
                    ..old(self)@
                }),
                self@.mem.len() == 4096,
            decreases x + 1 - k,
        {
            let b = self.v[k];
            self.memory.set((base + k) % 4096, b);
            k += 1;
        }
    }

    /// Load registers 0 through `x` from consecutive addresses from `base`,
    /// wrapping around the address space.
    fn op_load_regs(&mut self, base: usize, x: usize)
        requires
            old(self)@.wf(),
            x < 16,
            base < 4096,
        ensures
            final(self)@.wf(),
            final(self)@ == (MachineState {
                v: spec_load_regs(old(self)@.v, old(self)@.mem, base as int, x as int + 1),
                ..old(self)@
            }),
    {
        let mut k: usize = 0;
        while k <= x
            invariant
                old(self)@.wf(),
                x < 16,
                base < 4096,
                k <= x + 1,
                self@ == (MachineState {
                    v: spec_load_regs(old(self)@.v, old(self)@.mem, base as int, k as int),
                    ..old(self)@
                }),
                self@.v.len() == 16,
            decreases x + 1 - k,
        {
            let b = self.memory[(base + k) % 4096];
            self.v.set(k, b);
            k += 1;
        }
    }

    /// Draw an `n`-row sprite read from memory at the index register, at
    /// the position given by registers `x` and `y`, and set VF to the
    /// collision flag.
    fn op_drw(&mut self, x: usize, y: usize, n: u16)
        requires
            old(self)@.wf(),
            x < 16,
            y < 16,
            n < 16,
        ensures
            final(self)@.wf(),
            ({
                let res = spec_draw_rows(
                    old(self)@.gfx,
                    0u8,
                    old(self)@.mem,
                    old(self)@.i as int,
                    old(self)@.v[x as int] as int,
                    old(self)@.v[y as int] as int,
                    spec_width(old(self)@.ext),
                    spec_height(old(self)@.ext),
                    n as int,
                );
                final(self)@ == (MachineState {
                    gfx: res.0,
                    v: old(self)@.v.update(15, res.1),
                    ..old(self)@
                })
            }),
    {
        let w: usize = if self.extended_gfx_mode { 128 } else { 64 };
        let h: usize = if self.extended_gfx_mode { 64 } else { 32 };
        let px = self.v[x] as usize;
        let vy = self.v[y] as usize;
        let i0 = self.i as usize;
        let mut vf: u8 = 0;
        let mut row: usize = 0;
        proof {
            lemma_draw_rows_wf(
                old(self)@.gfx,
                0u8,
                old(self)@.mem,
                old(self)@.i as int,
                old(self)@.v[x as int] as int,
                old(self)@.v[y as int] as int,
                w as int,
                h as int,
                n as int,
            );
        }
        while row < n as usize
            invariant
                old(self)@.wf(),
                x < 16,
                y < 16,
                n < 16,
                row <= n,
                w == spec_width(old(self)@.ext),
                h == spec_height(old(self)@.ext),
                px == old(self)@.v[x as int],
                vy == old(self)@.v[y as int],
                i0 == old(self)@.i,
                ({
                    let res = spec_draw_rows(
                        old(self)@.gfx,
                        0u8,
                        old(self)@.mem,
                        i0 as int,
                        px as int,
                        vy as int,
                        w as int,
                        h as int,
                        row as int,
                    );
                    self@ == (MachineState { gfx: res.0, ..old(self)@ }) && vf == res.1
                }),
                self@.gfx.len() == 8192,
                forall|j: int| 0 <= j < 8192 ==> #[trigger] self@.gfx[j] <= 1,
                vf <= 1,
            decreases n - row,
        {
            let ghost rowstate = spec_draw_rows(
                old(self)@.gfx,
                0u8,
                old(self)@.mem,
                i0 as int,
                px as int,
                vy as int,
                w as int,
                h as int,
                row as int,
            );
            let sprite = self.memory[(i0 + row) % 4096];
            let py = (vy + row) % h;
            let mut c: usize = 0;
            while c < 8
                invariant
                    old(self)@.wf(),
                    c <= 8,
                    w == spec_width(old(self)@.ext),
                    h == spec_height(old(self)@.ext),
                    py as int == (vy + row) % (h as int),
                    py < h,
                    px < 256,
                    sprite == old(self)@.mem[(i0 + row) % 4096],
                    ({
                        let res = spec_draw_bits(
                            rowstate.0,
                            rowstate.1,
                            sprite,
                            px as int,
                            py as int,
                            w as int,
                            c as int,
                        );
                        self@ == (MachineState { gfx: res.0, ..old(self)@ }) && vf == res.1
                    }),
                    self@.gfx.len() == 8192,
                    forall|j: int| 0 <= j < 8192 ==> #[trigger] self@.gfx[j] <= 1,
                    vf <= 1,
                decreases 8 - c,
            {
                let mask: u8 = 0x80u8 >> (c as u8);
                if sprite & mask != 0 {
                    let idx = py * w + (px + c) % w;
                    proof {
                        vstd::arithmetic::mul::lemma_mul_nonnegative(py as int, w as int);
                        vstd::arithmetic::div_mod::lemma_mod_bound(px as int + c, w as int);
                        vstd::arithmetic::mul::lemma_mul_inequality(
                            py as int + 1,
                            h as int,
                            w as int,
                        );
                    }
                    if self.gfx[idx] == 1 {
                        self.gfx.set(idx, 0);
                        vf = 1;
                    } else {
                        self.gfx.set(idx, 1);
                    }
                }
                c += 1;
            }
            row += 1;
        }
        self.v.set(15, vf);
    }

    /// Run one fetch-decode-execute cycle: combine the two bytes at the
    /// program counter big-endian, advance the counter by two, decode the
    /// opcode through the shared table, and apply the instruction.
    ///
    /// The whole cycle follows `spec_step`.  An opcode no descriptor
    /// matches is reported as `UnknownOpcode` with the address it was
    /// fetched from, and leaves the state untouched beyond the advanced
    /// program counter.  The subroutine return on an empty stack reports
    /// `StackUnderflow`; a call with all 16 frames in use reports
    /// `StackOverflow`; an RPL transfer naming a register past V7 reports
    /// `InvalidOperand`.  Every other instruction succeeds.  Only the
    /// random draw leaves its byte open: the contract then holds for some
    /// byte.
    pub fn emulate_cycle(&mut self) -> (r: Result<(), EngineError>)
        requires
            old(self)@.wf(),
        ensures
            final(self)@.wf(),
            !spec_step_is_rnd(old(self)@) ==> (final(self)@ == spec_step(old(self)@, 0).0 && r
                == spec_step(old(self)@, 0).1),
            spec_step_is_rnd(old(self)@) ==> (exists|b: u8|
                final(self)@ == (#[trigger] spec_step(old(self)@, b)).0 && r == spec_step(
                    old(self)@,
                    b,
                ).1),
    {
        broadcast use lemma_low_nibble_u16, lemma_low_nibble_u8, lemma_addr_bound_u16;

        let hi = self.memory[self.pc as usize];
        let lo = self.memory[((self.pc as usize) + 1) % 4096];
        let op = ((hi as u16) << 8) | (lo as u16);
        proof {
            assert(op == spec_fetch(old(self)@));
        }
        let fetch_pc = self.pc;
        self.pc = (self.pc + 2) % 4096;
        proof {
            assert(self@ == (MachineState { pc: spec_pc_plus2(old(self)@.pc), ..old(self)@ }));
        }
        let d = match get_op_code_from_hex(op) {
            Ok(d) => d,
            Err(_) => {
                return Err(EngineError::UnknownOpcode { address: fetch_pc, opcode: op });
            },
        };
        let x = ((op >> 8) & 0xF) as usize;
        let y = ((op >> 4) & 0xF) as usize;
        let n = op & 0xF;
        let kk = (op & 0xFF) as u8;
        let nnn = op & 0x0FFF;
        let vx = self.v[x];
        let vy = self.v[y];
        match d.id {
            OpId::Cls => {
                self.gfx = crate::machine::filled_vec(8192, 0u8);
                Ok(())
            },
            OpId::Ret => {
                if self.sp == 0 {
                    Err(EngineError::StackUnderflow)
                } else {
                    self.sp = self.sp - 1;
                    self.pc = self.stack[self.sp as usize];
                    Ok(())
                }
            },
            OpId::Jp => {
                self.pc = nnn;
                Ok(())
            },
            OpId::Call => {
                if self.sp >= 16 {
                    Err(EngineError::StackOverflow)
                } else {
                    let pc_now = self.pc;
                    self.stack.set(self.sp as usize, pc_now);
                    self.sp = self.sp + 1;
                    self.pc = nnn;
                    Ok(())
                }
            },
            OpId::SeByte => {
                if vx == kk {
                    self.pc = (self.pc + 2) % 4096;
                }
                Ok(())
            },
            OpId::SneByte => {
                if vx != kk {
                    self.pc = (self.pc + 2) % 4096;
                }
                Ok(())
            },
            OpId::SeReg => {
                if vx == vy {
                    self.pc = (self.pc + 2) % 4096;
                }
                Ok(())
            },
            OpId::LdByte => {
                self.v.set(x, kk);
                Ok(())
            },
            OpId::AddByte => {
                self.v.set(x, (((vx as u16) + (kk as u16)) % 256) as u8);
                Ok(())
            },
            OpId::LdReg => {
                self.v.set(x, vy);
                Ok(())
            },
            OpId::Or => {
                self.v.set(x, vx | vy);
                self.v.set(15, 0);
                Ok(())
            },
            OpId::And => {
                self.v.set(x, vx & vy);
                self.v.set(15, 0);
                Ok(())
            },
            OpId::Xor => {
                self.v.set(x, vx ^ vy);
                Ok(())
            },
            OpId::AddReg => {
                let sum = (vx as u16) + (vy as u16);
                self.v.set(15, if sum > 255 { 1 } else { 0 });
                self.v.set(x, (sum % 256) as u8);
                Ok(())
            },
            OpId::Sub => {
                self.v.set(15, if vx >= vy { 1 } else { 0 });
                self.v.set(x, ((256 + (vx as u16) - (vy as u16)) % 256) as u8);
                Ok(())
            },
            OpId::Shr => {
                self.v.set(15, vx & 1);
                self.v.set(x, vx >> 1u8);
                Ok(())
            },
            OpId::Subn => {
                self.v.set(15, if vy >= vx { 1 } else { 0 });
                self.v.set(x, ((256 + (vy as u16) - (vx as u16)) % 256) as u8);
                Ok(())
            },
            OpId::Shl => {
                self.v.set(15, (vx & 0x80) >> 7u8);
                self.v.set(x, vx << 1u8);
                Ok(())
            },
            OpId::SneReg => {
                if vx != vy {
                    self.pc = (self.pc + 2) % 4096;
                }
                Ok(())
            },
            OpId::LdI => {
                self.i = nnn;
                Ok(())
            },
            OpId::JpV0 => {
                self.pc = (nnn + (self.v[0] as u16)) % 4096;
                Ok(())
            },
            OpId::Rnd => {
                let b = random_byte();
                self.v.set(x, kk & b);
                proof {
                    assert(final(self)@ == spec_step(old(self)@, b).0);
                }
                Ok(())
            },
            OpId::Drw => {
                self.op_drw(x, y, n);
                Ok(())
            },
            OpId::Skp => {
                if self.key[(vx & 0xF) as usize] == 1 {
                    self.pc = (self.pc + 2) % 4096;
                }
                Ok(())
            },
            OpId::Sknp => {
                if self.key[(vx & 0xF) as usize] == 0 {
                    self.pc = (self.pc + 2) % 4096;
                }
                Ok(())
            },
            OpId::LdFromDt => {
                let dt = self.delay_timer;
                self.v.set(x, dt);
                Ok(())
            },
            OpId::LdKey => {
                match self.scan_keys() {
                    None => {
                        self.pc = (self.pc + 4094) % 4096;
                    },
                    Some(kx) => {
                        self.v.set(x, kx);
                    },
                }
                Ok(())
            },
            OpId::LdDt => {
                self.delay_timer = vx;
                Ok(())
            },
            OpId::LdSt => {
                self.sound_timer = vx;
                Ok(())
            },
            OpId::AddI => {
                self.i = (self.i + (vx as u16)) % 4096;
                Ok(())
            },
            OpId::LdFont => {
                self.i = (vx as u16) * 5;
                Ok(())
            },
            OpId::LdBigFont => {
                self.i = 0x50 + (vx as u16) * 10;
                Ok(())
            },
            OpId::Bcd => {
                let i0 = self.i as usize;
                self.memory.set(i0, vx / 100);
                self.memory.set((i0 + 1) % 4096, (vx / 10) % 10);
                self.memory.set((i0 + 2) % 4096, vx % 10);
                Ok(())
            },
            OpId::StoreRegs => {
                let base = self.i as usize;
                self.op_store_regs(base, x);
                Ok(())
            },
            OpId::LoadRegs => {
                let base = self.i as usize;
                self.op_load_regs(base, x);
                Ok(())
            },
            OpId::StoreRpl => {
                if x > 7 {
                    Err(EngineError::InvalidOperand)
                } else {
                    self.op_store_regs(0x5F0, x);
                    Ok(())
                }
            },
            OpId::LoadRpl => {
                if x > 7 {
                    Err(EngineError::InvalidOperand)
                } else {
                    self.op_load_regs(0x5F0, x);
                    Ok(())
                }
            },
            OpId::Scd => {
                let g = scrolled_down(&self.gfx, n, self.extended_gfx_mode);
                self.gfx = g;
                Ok(())
            },
            OpId::Scr => {
                let g = scrolled_right(&self.gfx, self.extended_gfx_mode);
                self.gfx = g;
                Ok(())
            },
            OpId::Scl => {
                let g = scrolled_left(&self.gfx, self.extended_gfx_mode);
                self.gfx = g;
                Ok(())
            },
            OpId::Exit => {
                self.pc = 0x200;
                Ok(())
            },
            OpId::Low => {
                self.extended_gfx_mode = false;
                Ok(())
            },
            OpId::High => {
                self.extended_gfx_mode = true;
                Ok(())
            },
            OpId::Sys => Ok(()),
        }
    }
}

} // verus!
