//! The opcode table and the decoder.
//!
//! Every instruction form is described by a descriptor holding its canonical
//! 16-bit code, the bitmask under which a raw opcode is compared against that
//! code, and a tag naming the instruction form.  Decoding scans the table in
//! a fixed priority order and returns the first descriptor whose canonical
//! code equals the raw opcode masked by the descriptor's bitmask; the order
//! matters because masks overlap.

use vstd::prelude::*;

verus! {

use crate::DisasmError;
use vstd::string::StringExecFns;

/// The instruction form a descriptor stands for: one tag per table entry.
#[derive(Clone, Copy, Debug, PartialEq, Eq, Structural)]
pub enum OpId {
    /// 00E0: clear the screen.
    Cls,
    /// 00EE: return from a subroutine.
    Ret,
    /// 1NNN: jump to NNN.
    Jp,
    /// 2NNN: call the subroutine at NNN.
    Call,
    /// 3XKK: skip the next instruction if VX == KK.
    SeByte,
    /// 4XKK: skip the next instruction if VX != KK.
    SneByte,
    /// 5XY0: skip the next instruction if VX == VY.
    SeReg,
    /// 6XKK: VX = KK.
    LdByte,
    /// 7XKK: VX = VX + KK (mod 256), no flag.
    AddByte,
    /// 8XY0: VX = VY.
    LdReg,
    /// 8XY1: VX = VX | VY, VF = 0.
    Or,
    /// 8XY2: VX = VX & VY, VF = 0.
    And,
    /// 8XY3: VX = VX ^ VY.
    Xor,
    /// 8XY4: VX = VX + VY (mod 256), VF = carry.
    AddReg,
    /// 8XY5: VX = VX - VY (mod 256), VF = 1 iff no borrow (VX >= VY).
    Sub,
    /// 8XY6: VF = lowest bit of VX, VX = VX >> 1.
    Shr,
    /// 8XY7: VX = VY - VX (mod 256), VF = 1 iff no borrow (VY >= VX).
    Subn,
    /// 8XYE: VF = highest bit of VX, VX = VX << 1 (mod 256).
    Shl,
    /// 9XY0: skip the next instruction if VX != VY.
    SneReg,
    /// ANNN: I = NNN.
    LdI,
    /// BNNN: jump to NNN + V0.
    JpV0,
    /// CXKK: VX = KK & a random byte.
    Rnd,
    /// DXYN: draw an N-row sprite from memory at I at (VX, VY), VF = collision.
    Drw,
    /// EX9E: skip the next instruction if the key in VX is pressed.
    Skp,
    /// EXA1: skip the next instruction if the key in VX is not pressed.
    Sknp,
    /// FX07: VX = delay timer.
    LdFromDt,
    /// FX0A: wait for a key press, store the key in VX.
    LdKey,
    /// FX15: delay timer = VX.
    LdDt,
    /// FX18: sound timer = VX.
    LdSt,
    /// FX1E: I = I + VX (mod 4096).
    AddI,
    /// FX29: I = address of the small font glyph for VX.
    LdFont,
    /// FX33: store the decimal digits of VX at I, I+1, I+2.
    Bcd,
    /// FX55: store V0..=VX to memory starting at I.
    StoreRegs,
    /// FX65: load V0..=VX from memory starting at I.
    LoadRegs,
    /// 00CN: scroll the display N rows down.
    Scd,
    /// 00FB: scroll the display 4 pixels right.
    Scr,
    /// 00FC: scroll the display 4 pixels left.
    Scl,
    /// 00FD: exit: reset the program counter to 0x200.
    Exit,
    /// 00FE: disable extended screen mode.
    Low,
    /// 00FF: enable extended screen mode.
    High,
    /// FX30: I = address of the large font glyph for VX.
    LdBigFont,
    /// FX75: store V0..=VX (X <= 7) to the RPL flag region.
    StoreRpl,
    /// FX85: load V0..=VX (X <= 7) from the RPL flag region.
    LoadRpl,
    /// 0NNN: machine-code call on the original hardware; executes as a no-op.
    Sys,
}

/// An opcode descriptor: the canonical code, the bitmask a raw opcode is
/// masked with before comparing against the canonical code, and the
/// instruction form.
#[derive(Clone, Copy, Debug, PartialEq, Eq, Structural)]
pub struct OpCode {
    pub code: u16,
    pub bit_mask: u16,
    pub id: OpId,
}

/// The 4-hex-digit template of an instruction form, with the placeholder
/// letters N, X, Y and K marking operand nibbles.
pub open spec fn spec_code_string(id: OpId) -> Seq<char> {
    match id {
        OpId::Cls => "00E0"@,
        OpId::Ret => "00EE"@,
        OpId::Jp => "1NNN"@,
        OpId::Call => "2NNN"@,
        OpId::SeByte => "3XKK"@,
        OpId::SneByte => "4XKK"@,
        OpId::SeReg => "5XY0"@,
        OpId::LdByte => "6XKK"@,
        OpId::AddByte => "7XKK"@,
        OpId::LdReg => "8XY0"@,
        OpId::Or => "8XY1"@,
        OpId::And => "8XY2"@,
        OpId::Xor => "8XY3"@,
        OpId::AddReg => "8XY4"@,
        OpId::Sub => "8XY5"@,
        OpId::Shr => "8XY6"@,
        OpId::Subn => "8XY7"@,
        OpId::Shl => "8XYE"@,
        OpId::SneReg => "9XY0"@,
        OpId::LdI => "ANNN"@,
        OpId::JpV0 => "BNNN"@,
        OpId::Rnd => "CXKK"@,
        OpId::Drw => "DXYN"@,
        OpId::Skp => "EX9E"@,
        OpId::Sknp => "EXA1"@,
        OpId::LdFromDt => "FX07"@,
        OpId::LdKey => "FX0A"@,
        OpId::LdDt => "FX15"@,
        OpId::LdSt => "FX18"@,
        OpId::AddI => "FX1E"@,
        OpId::LdFont => "FX29"@,
        OpId::Bcd => "FX33"@,
        OpId::StoreRegs => "FX55"@,
        OpId::LoadRegs => "FX65"@,
        OpId::Scd => "00CN"@,
        OpId::Scr => "00FB"@,
        OpId::Scl => "00FC"@,
        OpId::Exit => "00FD"@,
        OpId::Low => "00FE"@,
        OpId::High => "00FF"@,
        OpId::LdBigFont => "FX30"@,
        OpId::StoreRpl => "FX75"@,
        OpId::LoadRpl => "FX85"@,
        OpId::Sys => "0NNN"@,
    }
}

/// The mnemonic template of an instruction form, with VX, VY, KK, NNN and
/// N standing for the operands the disassembler substitutes.
pub open spec fn spec_mnemonic(id: OpId) -> Seq<char> {
    match id {
        OpId::Cls => "CLS"@,
        OpId::Ret => "RET"@,
        OpId::Jp => "JP NNN"@,
        OpId::Call => "CALL NNN"@,
        OpId::SeByte => "SE VX, KK"@,
        OpId::SneByte => "SNE VX, KK"@,
        OpId::SeReg => "SE VX, VY"@,
        OpId::LdByte => "LD VX, KK"@,
        OpId::AddByte => "ADD VX, KK"@,
        OpId::LdReg => "LD VX, VY"@,
        OpId::Or => "OR VX, VY"@,
        OpId::And => "AND VX, VY"@,
        OpId::Xor => "XOR VX, VY"@,
        OpId::AddReg => "ADD VX, VY"@,
        OpId::Sub => "SUB VX, VY"@,
        OpId::Shr => "SHR VX"@,
        OpId::Subn => "SUBN VX, VY"@,
        OpId::Shl => "SHL VX"@,
        OpId::SneReg => "SNE VX, VY"@,
        OpId::LdI => "LD I, NNN"@,
        OpId::JpV0 => "JP V0, NNN"@,
        OpId::Rnd => "RND VX, KK"@,
        OpId::Drw => "DRW VX, VY, N"@,
        OpId::Skp => "SKP VX"@,
        OpId::Sknp => "SKNP VX"@,
        OpId::LdFromDt => "LD VX, DT"@,
        OpId::LdKey => "LD VX, K"@,
        OpId::LdDt => "LD DT, VX"@,
        OpId::LdSt => "LD ST, VX"@,
        OpId::AddI => "ADD I, VX"@,
        OpId::LdFont => "LD F, VX"@,
        OpId::Bcd => "LD B, VX"@,
        OpId::StoreRegs => "LD [I], VX"@,
        OpId::LoadRegs => "LD VX, [I]"@,
        OpId::Scd => "SCD N"@,
        OpId::Scr => "SCR"@,
        OpId::Scl => "SCL"@,
        OpId::Exit => "EXIT"@,
        OpId::Low => "LOW"@,
        OpId::High => "HIGH"@,
        OpId::LdBigFont => "LD HF, VX"@,
        OpId::StoreRpl => "LD R, VX"@,
        OpId::LoadRpl => "LD VX, R"@,
        OpId::Sys => "SYS NNN"@,
    }
}

impl OpCode {
    /// The descriptor's 4-hex-digit template string.
    pub fn code_string(&self) -> (r: String)
        ensures
            r@ == spec_code_string(self.id),
    {
        match self.id {
            OpId::Cls => String::from_str("00E0"),
            OpId::Ret => String::from_str("00EE"),
            OpId::Jp => String::from_str("1NNN"),
            OpId::Call => String::from_str("2NNN"),
            OpId::SeByte => String::from_str("3XKK"),
            OpId::SneByte => String::from_str("4XKK"),
            OpId::SeReg => String::from_str("5XY0"),
            OpId::LdByte => String::from_str("6XKK"),
            OpId::AddByte => String::from_str("7XKK"),
            OpId::LdReg => String::from_str("8XY0"),
            OpId::Or => String::from_str("8XY1"),
            OpId::And => String::from_str("8XY2"),
            OpId::Xor => String::from_str("8XY3"),
            OpId::AddReg => String::from_str("8XY4"),
            OpId::Sub => String::from_str("8XY5"),
            OpId::Shr => String::from_str("8XY6"),
            OpId::Subn => String::from_str("8XY7"),
            OpId::Shl => String::from_str("8XYE"),
            OpId::SneReg => String::from_str("9XY0"),
            OpId::LdI => String::from_str("ANNN"),
            OpId::JpV0 => String::from_str("BNNN"),
            OpId::Rnd => String::from_str("CXKK"),
            OpId::Drw => String::from_str("DXYN"),
            OpId::Skp => String::from_str("EX9E"),
            OpId::Sknp => String::from_str("EXA1"),
            OpId::LdFromDt => String::from_str("FX07"),
            OpId::LdKey => String::from_str("FX0A"),
            OpId::LdDt => String::from_str("FX15"),
            OpId::LdSt => String::from_str("FX18"),
            OpId::AddI => String::from_str("FX1E"),
            OpId::LdFont => String::from_str("FX29"),
            OpId::Bcd => String::from_str("FX33"),
            OpId::StoreRegs => String::from_str("FX55"),
            OpId::LoadRegs => String::from_str("FX65"),
            OpId::Scd => String::from_str("00CN"),
            OpId::Scr => String::from_str("00FB"),
            OpId::Scl => String::from_str("00FC"),
            OpId::Exit => String::from_str("00FD"),
            OpId::Low => String::from_str("00FE"),
            OpId::High => String::from_str("00FF"),
            OpId::LdBigFont => String::from_str("FX30"),
            OpId::StoreRpl => String::from_str("FX75"),
            OpId::LoadRpl => String::from_str("FX85"),
            OpId::Sys => String::from_str("0NNN"),
        }
    }

    /// The descriptor's mnemonic template string.
    pub fn mnemonic(&self) -> (r: String)
        ensures
            r@ == spec_mnemonic(self.id),
    {
        match self.id {
            OpId::Cls => String::from_str("CLS"),
            OpId::Ret => String::from_str("RET"),
            OpId::Jp => String::from_str("JP NNN"),
            OpId::Call => String::from_str("CALL NNN"),
            OpId::SeByte => String::from_str("SE VX, KK"),
            OpId::SneByte => String::from_str("SNE VX, KK"),
            OpId::SeReg => String::from_str("SE VX, VY"),
            OpId::LdByte => String::from_str("LD VX, KK"),
            OpId::AddByte => String::from_str("ADD VX, KK"),
            OpId::LdReg => String::from_str("LD VX, VY"),
            OpId::Or => String::from_str("OR VX, VY"),
            OpId::And => String::from_str("AND VX, VY"),
            OpId::Xor => String::from_str("XOR VX, VY"),
            OpId::AddReg => String::from_str("ADD VX, VY"),
            OpId::Sub => String::from_str("SUB VX, VY"),
            OpId::Shr => String::from_str("SHR VX"),
            OpId::Subn => String::from_str("SUBN VX, VY"),
            OpId::Shl => String::from_str("SHL VX"),
            OpId::SneReg => String::from_str("SNE VX, VY"),
            OpId::LdI => String::from_str("LD I, NNN"),
            OpId::JpV0 => String::from_str("JP V0, NNN"),
            OpId::Rnd => String::from_str("RND VX, KK"),
            OpId::Drw => String::from_str("DRW VX, VY, N"),
            OpId::Skp => String::from_str("SKP VX"),
            OpId::Sknp => String::from_str("SKNP VX"),
            OpId::LdFromDt => String::from_str("LD VX, DT"),
            OpId::LdKey => String::from_str("LD VX, K"),
            OpId::LdDt => String::from_str("LD DT, VX"),
            OpId::LdSt => String::from_str("LD ST, VX"),
            OpId::AddI => String::from_str("ADD I, VX"),
            OpId::LdFont => String::from_str("LD F, VX"),
            OpId::Bcd => String::from_str("LD B, VX"),
            OpId::StoreRegs => String::from_str("LD [I], VX"),
            OpId::LoadRegs => String::from_str("LD VX, [I]"),
            OpId::Scd => String::from_str("SCD N"),
            OpId::Scr => String::from_str("SCR"),
            OpId::Scl => String::from_str("SCL"),
            OpId::Exit => String::from_str("EXIT"),
            OpId::Low => String::from_str("LOW"),
            OpId::High => String::from_str("HIGH"),
            OpId::LdBigFont => String::from_str("LD HF, VX"),
            OpId::StoreRpl => String::from_str("LD R, VX"),
            OpId::LoadRpl => String::from_str("LD VX, R"),
            OpId::Sys => String::from_str("SYS NNN"),
        }
    }
}

/// The descriptor table in its priority order.  Exact matches and narrow
/// masks come before the broad families that would shadow them; the
/// catch-all 0NNN form is last.
pub open spec fn spec_table() -> Seq<OpCode> {
    seq![
        OpCode { code: 0x00E0, bit_mask: 0xFFFF, id: OpId::Cls },
        OpCode { code: 0x00EE, bit_mask: 0x00FF, id: OpId::Ret },
        OpCode { code: 0x1000, bit_mask: 0xF000, id: OpId::Jp },
        OpCode { code: 0x2000, bit_mask: 0xF000, id: OpId::Call },
        OpCode { code: 0x3000, bit_mask: 0xF000, id: OpId::SeByte },
        OpCode { code: 0x4000, bit_mask: 0xF000, id: OpId::SneByte },
        OpCode { code: 0x5000, bit_mask: 0xF00F, id: OpId::SeReg },
        OpCode { code: 0x6000, bit_mask: 0xF000, id: OpId::LdByte },
        OpCode { code: 0x7000, bit_mask: 0xF000, id: OpId::AddByte },
        OpCode { code: 0x8000, bit_mask: 0xF00F, id: OpId::LdReg },
        OpCode { code: 0x8001, bit_mask: 0xF00F, id: OpId::Or },
        OpCode { code: 0x8002, bit_mask: 0xF00F, id: OpId::And },
        OpCode { code: 0x8003, bit_mask: 0xF00F, id: OpId::Xor },
        OpCode { code: 0x8004, bit_mask: 0xF00F, id: OpId::AddReg },
        OpCode { code: 0x8005, bit_mask: 0xF00F, id: OpId::Sub },
        OpCode { code: 0x8006, bit_mask: 0xF00F, id: OpId::Shr },
        OpCode { code: 0x8007, bit_mask: 0xF00F, id: OpId::Subn },
        OpCode { code: 0x800E, bit_mask: 0xF00F, id: OpId::Shl },
        OpCode { code: 0x9000, bit_mask: 0xF00F, id: OpId::SneReg },
        OpCode { code: 0xA000, bit_mask: 0xF000, id: OpId::LdI },
        OpCode { code: 0xB000, bit_mask: 0xF000, id: OpId::JpV0 },
        OpCode { code: 0xC000, bit_mask: 0xF000, id: OpId::Rnd },
        OpCode { code: 0xD000, bit_mask: 0xF000, id: OpId::Drw },
        OpCode { code: 0xE09E, bit_mask: 0xF0FF, id: OpId::Skp },
        OpCode { code: 0xE0A1, bit_mask: 0xF0FF, id: OpId::Sknp },
        OpCode { code: 0xF007, bit_mask: 0xF0FF, id: OpId::LdFromDt },
        OpCode { code: 0xF00A, bit_mask: 0xF0FF, id: OpId::LdKey },
        OpCode { code: 0xF015, bit_mask: 0xF0FF, id: OpId::LdDt },
        OpCode { code: 0xF018, bit_mask: 0xF0FF, id: OpId::LdSt },
        OpCode { code: 0xF01E, bit_mask: 0xF0FF, id: OpId::AddI },
        OpCode { code: 0xF029, bit_mask: 0xF0FF, id: OpId::LdFont },
        OpCode { code: 0xF033, bit_mask: 0xF0FF, id: OpId::Bcd },
        OpCode { code: 0xF055, bit_mask: 0xF0FF, id: OpId::StoreRegs },
        OpCode { code: 0xF065, bit_mask: 0xF0FF, id: OpId::LoadRegs },
        OpCode { code: 0x00C0, bit_mask: 0xFFF0, id: OpId::Scd },
        OpCode { code: 0x00FB, bit_mask: 0xFFFF, id: OpId::Scr },
        OpCode { code: 0x00FC, bit_mask: 0xFFFF, id: OpId::Scl },
        OpCode { code: 0x00FD, bit_mask: 0xFFFF, id: OpId::Exit },
        OpCode { code: 0x00FE, bit_mask: 0xFFFF, id: OpId::Low },
        OpCode { code: 0x00FF, bit_mask: 0xFFFF, id: OpId::High },
        OpCode { code: 0xF030, bit_mask: 0xF0FF, id: OpId::LdBigFont },
        OpCode { code: 0xF075, bit_mask: 0xF0FF, id: OpId::StoreRpl },
        OpCode { code: 0xF085, bit_mask: 0xF0FF, id: OpId::LoadRpl },
        OpCode { code: 0x0000, bit_mask: 0xF000, id: OpId::Sys },
    ]
}

/// The first descriptor at position `k` or later that matches `code`.
pub open spec fn spec_decode_from(t: Seq<OpCode>, code: u16, k: int) -> Option<OpCode>
    decreases t.len() - k,
{
    if k < 0 || k >= t.len() {
        None
    } else if code & t[k].bit_mask == t[k].code {
        Some(t[k])
    } else {
        spec_decode_from(t, code, k + 1)
    }
}

/// The descriptor a raw opcode decodes to: the first match in the table.
pub open spec fn spec_decode(code: u16) -> Option<OpCode> {
    spec_decode_from(spec_table(), code, 0)
}

/// The descriptor table as an executable vector, in the same priority order
/// as `spec_table`.
pub fn opcode_table() -> (t: Vec<OpCode>)
    ensures
        t@ == spec_table(),
{
    let mut t: Vec<OpCode> = Vec::new();
    t.push(OpCode { code: 0x00E0, bit_mask: 0xFFFF, id: OpId::Cls });
    t.push(OpCode { code: 0x00EE, bit_mask: 0x00FF, id: OpId::Ret });
    t.push(OpCode { code: 0x1000, bit_mask: 0xF000, id: OpId::Jp });
    t.push(OpCode { code: 0x2000, bit_mask: 0xF000, id: OpId::Call });
    t.push(OpCode { code: 0x3000, bit_mask: 0xF000, id: OpId::SeByte });
    t.push(OpCode { code: 0x4000, bit_mask: 0xF000, id: OpId::SneByte });
    t.push(OpCode { code: 0x5000, bit_mask: 0xF00F, id: OpId::SeReg });
    t.push(OpCode { code: 0x6000, bit_mask: 0xF000, id: OpId::LdByte });
    t.push(OpCode { code: 0x7000, bit_mask: 0xF000, id: OpId::AddByte });
    t.push(OpCode { code: 0x8000, bit_mask: 0xF00F, id: OpId::LdReg });
    t.push(OpCode { code: 0x8001, bit_mask: 0xF00F, id: OpId::Or });
    t.push(OpCode { code: 0x8002, bit_mask: 0xF00F, id: OpId::And });
    t.push(OpCode { code: 0x8003, bit_mask: 0xF00F, id: OpId::Xor });
    t.push(OpCode { code: 0x8004, bit_mask: 0xF00F, id: OpId::AddReg });
    t.push(OpCode { code: 0x8005, bit_mask: 0xF00F, id: OpId::Sub });
    t.push(OpCode { code: 0x8006, bit_mask: 0xF00F, id: OpId::Shr });
    t.push(OpCode { code: 0x8007, bit_mask: 0xF00F, id: OpId::Subn });
    t.push(OpCode { code: 0x800E, bit_mask: 0xF00F, id: OpId::Shl });
    t.push(OpCode { code: 0x9000, bit_mask: 0xF00F, id: OpId::SneReg });
    t.push(OpCode { code: 0xA000, bit_mask: 0xF000, id: OpId::LdI });
    t.push(OpCode { code: 0xB000, bit_mask: 0xF000, id: OpId::JpV0 });
    t.push(OpCode { code: 0xC000, bit_mask: 0xF000, id: OpId::Rnd });
    t.push(OpCode { code: 0xD000, bit_mask: 0xF000, id: OpId::Drw });
    t.push(OpCode { code: 0xE09E, bit_mask: 0xF0FF, id: OpId::Skp });
    t.push(OpCode { code: 0xE0A1, bit_mask: 0xF0FF, id: OpId::Sknp });
    t.push(OpCode { code: 0xF007, bit_mask: 0xF0FF, id: OpId::LdFromDt });
    t.push(OpCode { code: 0xF00A, bit_mask: 0xF0FF, id: OpId::LdKey });
    t.push(OpCode { code: 0xF015, bit_mask: 0xF0FF, id: OpId::LdDt });
    t.push(OpCode { code: 0xF018, bit_mask: 0xF0FF, id: OpId::LdSt });
    t.push(OpCode { code: 0xF01E, bit_mask: 0xF0FF, id: OpId::AddI });
    t.push(OpCode { code: 0xF029, bit_mask: 0xF0FF, id: OpId::LdFont });
    t.push(OpCode { code: 0xF033, bit_mask: 0xF0FF, id: OpId::Bcd });
    t.push(OpCode { code: 0xF055, bit_mask: 0xF0FF, id: OpId::StoreRegs });
    t.push(OpCode { code: 0xF065, bit_mask: 0xF0FF, id: OpId::LoadRegs });
    t.push(OpCode { code: 0x00C0, bit_mask: 0xFFF0, id: OpId::Scd });
    t.push(OpCode { code: 0x00FB, bit_mask: 0xFFFF, id: OpId::Scr });
    t.push(OpCode { code: 0x00FC, bit_mask: 0xFFFF, id: OpId::Scl });
    t.push(OpCode { code: 0x00FD, bit_mask: 0xFFFF, id: OpId::Exit });
    t.push(OpCode { code: 0x00FE, bit_mask: 0xFFFF, id: OpId::Low });
    t.push(OpCode { code: 0x00FF, bit_mask: 0xFFFF, id: OpId::High });
    t.push(OpCode { code: 0xF030, bit_mask: 0xF0FF, id: OpId::LdBigFont });
    t.push(OpCode { code: 0xF075, bit_mask: 0xF0FF, id: OpId::StoreRpl });
    t.push(OpCode { code: 0xF085, bit_mask: 0xF0FF, id: OpId::LoadRpl });
    t.push(OpCode { code: 0x0000, bit_mask: 0xF000, id: OpId::Sys });
    proof {
        assert(t@ =~= spec_table());
    }
    t
}

/// Decode a raw 16-bit opcode: return the first descriptor in the table
/// whose canonical code equals the opcode masked by the descriptor's
/// bitmask, or `UnknownOpcode` when no descriptor matches.
pub fn get_op_code_from_hex(code: u16) -> (r: Result<OpCode, DisasmError>)
    ensures
        r matches Ok(d) ==> spec_decode(code) == Some(d),
        r matches Err(e) ==> spec_decode(code) is None && e == DisasmError::UnknownOpcode,
{
    let table = opcode_table();
    let mut k: usize = 0;
    while k < table.len()
        invariant
            table@ == spec_table(),
            0 <= k <= table.len(),
            spec_decode(code) == spec_decode_from(table@, code, k as int),
        decreases table.len() - k,
    {
        let d = table[k];
        if code & d.bit_mask == d.code {
            return Ok(d);
        }
        k += 1;
    }
    Err(DisasmError::UnknownOpcode)
}

/// A masked opcode written arithmetically, so that the decode chain can be
/// evaluated on literal codes.
broadcast proof fn lemma_mask_ffff(x: u16)
    ensures
        #[trigger] (x & 0xFFFF) == x,
{
    assert(x & 0xFFFF == x) by (bit_vector);
}
/// A masked opcode written arithmetically, so that the decode chain can be
/// evaluated on literal codes.
broadcast proof fn lemma_mask_f000(x: u16)
    ensures
        #[trigger] (x & 0xF000) == (x / 0x1000) * 0x1000,
{
    assert(x & 0xF000 == (x / 0x1000) * 0x1000) by (bit_vector);
}
/// A masked opcode written arithmetically, so that the decode chain can be
/// evaluated on literal codes.
broadcast proof fn lemma_mask_00ff(x: u16)
    ensures
        #[trigger] (x & 0x00FF) == x % 0x100,
{
    assert(x & 0x00FF == x % 0x100) by (bit_vector);
}
/// A masked opcode written arithmetically, so that the decode chain can be
/// evaluated on literal codes.
broadcast proof fn lemma_mask_f00f(x: u16)
    ensures
        #[trigger] (x & 0xF00F) == (x / 0x1000) * 0x1000 + x % 0x10,
{
    assert(x & 0xF00F == (x / 0x1000) * 0x1000 + x % 0x10) by (bit_vector);
}
/// A masked opcode written arithmetically, so that the decode chain can be
/// evaluated on literal codes.
broadcast proof fn lemma_mask_f0ff(x: u16)
    ensures
        #[trigger] (x & 0xF0FF) == (x / 0x1000) * 0x1000 + x % 0x100,
{
    assert(x & 0xF0FF == (x / 0x1000) * 0x1000 + x % 0x100) by (bit_vector);
}
/// A masked opcode written arithmetically, so that the decode chain can be
/// evaluated on literal codes.
broadcast proof fn lemma_mask_fff0(x: u16)
    ensures
        #[trigger] (x & 0xFFF0) == (x / 0x10) * 0x10,
{
    assert(x & 0xFFF0 == (x / 0x10) * 0x10) by (bit_vector);
}

/// The decoder is a retrieval function for the table: every descriptor is
/// found again under its own canonical code.  No earlier entry shadows a
/// later entry's canonical code, so decoding a descriptor's canonical code
/// gives back that very descriptor.
pub proof fn lemma_decode_canonical()
    ensures
        forall|k: int|
            0 <= k < spec_table().len() ==> #[trigger] spec_decode(spec_table()[k].code)
                == Some(spec_table()[k]),
{
    broadcast use lemma_mask_ffff, lemma_mask_f000, lemma_mask_00ff, lemma_mask_f00f, lemma_mask_f0ff, lemma_mask_fff0;

    reveal_with_fuel(spec_decode_from, 46);
    assert forall|k: int| 0 <= k < spec_table().len() implies #[trigger] spec_decode(
        spec_table()[k].code,
    ) == Some(spec_table()[k]) by {
        if k == 0 {
            assert(spec_decode(spec_table()[0].code) == Some(spec_table()[0]));
        } else if k == 1 {
            assert(spec_decode(spec_table()[1].code) == Some(spec_table()[1]));
        } else if k == 2 {
            assert(spec_decode(spec_table()[2].code) == Some(spec_table()[2]));
        } else if k == 3 {
            assert(spec_decode(spec_table()[3].code) == Some(spec_table()[3]));
        } else if k == 4 {
            assert(spec_decode(spec_table()[4].code) == Some(spec_table()[4]));
        } else if k == 5 {
            assert(spec_decode(spec_table()[5].code) == Some(spec_table()[5]));
        } else if k == 6 {
            assert(spec_decode(spec_table()[6].code) == Some(spec_table()[6]));
        } else if k == 7 {
            assert(spec_decode(spec_table()[7].code) == Some(spec_table()[7]));
        } else if k == 8 {
            assert(spec_decode(spec_table()[8].code) == Some(spec_table()[8]));
        } else if k == 9 {
            assert(spec_decode(spec_table()[9].code) == Some(spec_table()[9]));
        } else if k == 10 {
            assert(spec_decode(spec_table()[10].code) == Some(spec_table()[10]));
        } else if k == 11 {
            assert(spec_decode(spec_table()[11].code) == Some(spec_table()[11]));
        } else if k == 12 {
            assert(spec_decode(spec_table()[12].code) == Some(spec_table()[12]));
        } else if k == 13 {
            assert(spec_decode(spec_table()[13].code) == Some(spec_table()[13]));
        } else if k == 14 {
            assert(spec_decode(spec_table()[14].code) == Some(spec_table()[14]));
        } else if k == 15 {
            assert(spec_decode(spec_table()[15].code) == Some(spec_table()[15]));
        } else if k == 16 {
            assert(spec_decode(spec_table()[16].code) == Some(spec_table()[16]));
        } else if k == 17 {
            assert(spec_decode(spec_table()[17].code) == Some(spec_table()[17]));
        } else if k == 18 {
            assert(spec_decode(spec_table()[18].code) == Some(spec_table()[18]));
        } else if k == 19 {
            assert(spec_decode(spec_table()[19].code) == Some(spec_table()[19]));
        } else if k == 20 {
            assert(spec_decode(spec_table()[20].code) == Some(spec_table()[20]));
        } else if k == 21 {
            assert(spec_decode(spec_table()[21].code) == Some(spec_table()[21]));
        } else if k == 22 {
            assert(spec_decode(spec_table()[22].code) == Some(spec_table()[22]));
        } else if k == 23 {
            assert(spec_decode(spec_table()[23].code) == Some(spec_table()[23]));
        } else if k == 24 {
            assert(spec_decode(spec_table()[24].code) == Some(spec_table()[24]));
        } else if k == 25 {
            assert(spec_decode(spec_table()[25].code) == Some(spec_table()[25]));
        } else if k == 26 {
            assert(spec_decode(spec_table()[26].code) == Some(spec_table()[26]));
        } else if k == 27 {
            assert(spec_decode(spec_table()[27].code) == Some(spec_table()[27]));
        } else if k == 28 {
            assert(spec_decode(spec_table()[28].code) == Some(spec_table()[28]));
        } else if k == 29 {
            assert(spec_decode(spec_table()[29].code) == Some(spec_table()[29]));
        } else if k == 30 {
            assert(spec_decode(spec_table()[30].code) == Some(spec_table()[30]));
        } else if k == 31 {
            assert(spec_decode(spec_table()[31].code) == Some(spec_table()[31]));
        } else if k == 32 {
            assert(spec_decode(spec_table()[32].code) == Some(spec_table()[32]));
        } else if k == 33 {
            assert(spec_decode(spec_table()[33].code) == Some(spec_table()[33]));
        } else if k == 34 {
            assert(spec_decode(spec_table()[34].code) == Some(spec_table()[34]));
        } else if k == 35 {
            assert(spec_decode(spec_table()[35].code) == Some(spec_table()[35]));
        } else if k == 36 {
            assert(spec_decode(spec_table()[36].code) == Some(spec_table()[36]));
        } else if k == 37 {
            assert(spec_decode(spec_table()[37].code) == Some(spec_table()[37]));
        } else if k == 38 {
            assert(spec_decode(spec_table()[38].code) == Some(spec_table()[38]));
        } else if k == 39 {
            assert(spec_decode(spec_table()[39].code) == Some(spec_table()[39]));
        } else if k == 40 {
            assert(spec_decode(spec_table()[40].code) == Some(spec_table()[40]));
        } else if k == 41 {
            assert(spec_decode(spec_table()[41].code) == Some(spec_table()[41]));
        } else if k == 42 {
            assert(spec_decode(spec_table()[42].code) == Some(spec_table()[42]));
        } else if k == 43 {
            assert(spec_decode(spec_table()[43].code) == Some(spec_table()[43]));
        }
    }
}

} // verus!
