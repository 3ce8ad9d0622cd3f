//! The disassembler.
//!
//! A raw opcode is decoded through the shared opcode table and rendered as
//! its canonical mnemonic, with each operand nibble substituted as a decimal
//! number: position 1 is bits 8-11, position 2 is bits 4-7, position 3 is
//! bits 0-3.  A multi-nibble field (an address or an immediate byte) is
//! rendered as the consecutive decimal renderings of its nibbles.  Only
//! operand placeholders are substituted; letters of the operation name
//! itself are never touched.

use vstd::prelude::*;

verus! {

use crate::DisasmError;
use crate::opcodes::{OpId, spec_decode, get_op_code_from_hex};
use vstd::string::StringExecFns;

/// Bits 8-11 of an opcode: the X register field.
pub open spec fn spec_nib1(op: u16) -> u16 {
    (op >> 8) & 0xF
}

/// Bits 4-7 of an opcode: the Y register field.
pub open spec fn spec_nib2(op: u16) -> u16 {
    (op >> 4) & 0xF
}

/// Bits 0-3 of an opcode: the low nibble.
pub open spec fn spec_nib3(op: u16) -> u16 {
    op & 0xF
}

broadcast proof fn lemma_nibble_bound(x: u16)
    ensures
        #[trigger] (x & 0xF) < 16,
{
    assert(x & 0xF < 16) by (bit_vector);
}

/// The decimal rendering of a single nibble value.
pub open spec fn spec_dec_nibble(n: u16) -> Seq<char> {
    if n == 0 {
        "0"@
    } else if n == 1 {
        "1"@
    } else if n == 2 {
        "2"@
    } else if n == 3 {
        "3"@
    } else if n == 4 {
        "4"@
    } else if n == 5 {
        "5"@
    } else if n == 6 {
        "6"@
    } else if n == 7 {
        "7"@
    } else if n == 8 {
        "8"@
    } else if n == 9 {
        "9"@
    } else if n == 10 {
        "10"@
    } else if n == 11 {
        "11"@
    } else if n == 12 {
        "12"@
    } else if n == 13 {
        "13"@
    } else if n == 14 {
        "14"@
    } else {
        "15"@
    }
}

fn dec_nibble(n: u16) -> (r: String)
    requires
        n < 16,
    ensures
        r@ == spec_dec_nibble(n),
{
    match n {
        0 => String::from_str("0"),
        1 => String::from_str("1"),
        2 => String::from_str("2"),
        3 => String::from_str("3"),
        4 => String::from_str("4"),
        5 => String::from_str("5"),
        6 => String::from_str("6"),
        7 => String::from_str("7"),
        8 => String::from_str("8"),
        9 => String::from_str("9"),
        10 => String::from_str("10"),
        11 => String::from_str("11"),
        12 => String::from_str("12"),
        13 => String::from_str("13"),
        14 => String::from_str("14"),
        _ => String::from_str("15"),
    }
}

/// The disassembly of an opcode of a given instruction form.
pub open spec fn spec_render(id: OpId, op: u16) -> Seq<char> {
    match id {
        OpId::Cls => "CLS"@,
        OpId::Ret => "RET"@,
        OpId::Jp => "JP "@ + spec_dec_nibble(spec_nib1(op)) + spec_dec_nibble(spec_nib2(op))
            + spec_dec_nibble(spec_nib3(op)),
        OpId::Call => "CALL "@ + spec_dec_nibble(spec_nib1(op)) + spec_dec_nibble(spec_nib2(op))
            + spec_dec_nibble(spec_nib3(op)),
        OpId::SeByte => "SE V"@ + spec_dec_nibble(spec_nib1(op)) + ", "@ + spec_dec_nibble(
            spec_nib2(op),
        ) + spec_dec_nibble(spec_nib3(op)),
        OpId::SneByte => "SNE V"@ + spec_dec_nibble(spec_nib1(op)) + ", "@ + spec_dec_nibble(
            spec_nib2(op),
        ) + spec_dec_nibble(spec_nib3(op)),
        OpId::SeReg => "SE V"@ + spec_dec_nibble(spec_nib1(op)) + ", V"@ + spec_dec_nibble(
            spec_nib2(op),
        ),
        OpId::LdByte => "LD V"@ + spec_dec_nibble(spec_nib1(op)) + ", "@ + spec_dec_nibble(
            spec_nib2(op),
        ) + spec_dec_nibble(spec_nib3(op)),
        OpId::AddByte => "ADD V"@ + spec_dec_nibble(spec_nib1(op)) + ", "@ + spec_dec_nibble(
            spec_nib2(op),
        ) + spec_dec_nibble(spec_nib3(op)),
        OpId::LdReg => "LD V"@ + spec_dec_nibble(spec_nib1(op)) + ", V"@ + spec_dec_nibble(
            spec_nib2(op),
        ),
        OpId::Or => "OR V"@ + spec_dec_nibble(spec_nib1(op)) + ", V"@ + spec_dec_nibble(
            spec_nib2(op),
        ),
        OpId::And => "AND V"@ + spec_dec_nibble(spec_nib1(op)) + ", V"@ + spec_dec_nibble(
            spec_nib2(op),
        ),
        OpId::Xor => "XOR V"@ + spec_dec_nibble(spec_nib1(op)) + ", V"@ + spec_dec_nibble(
            spec_nib2(op),
        ),
        OpId::AddReg => "ADD V"@ + spec_dec_nibble(spec_nib1(op)) + ", V"@ + spec_dec_nibble(
            spec_nib2(op),
        ),
        OpId::Sub => "SUB V"@ + spec_dec_nibble(spec_nib1(op)) + ", V"@ + spec_dec_nibble(
            spec_nib2(op),
        ),
        OpId::Shr => "SHR V"@ + spec_dec_nibble(spec_nib1(op)),
        OpId::Subn => "SUBN V"@ + spec_dec_nibble(spec_nib1(op)) + ", V"@ + spec_dec_nibble(
            spec_nib2(op),
        ),
        OpId::Shl => "SHL V"@ + spec_dec_nibble(spec_nib1(op)),
        OpId::SneReg => "SNE V"@ + spec_dec_nibble(spec_nib1(op)) + ", V"@ + spec_dec_nibble(
            spec_nib2(op),
        ),
        OpId::LdI => "LD I, "@ + spec_dec_nibble(spec_nib1(op)) + spec_dec_nibble(spec_nib2(op))
            + spec_dec_nibble(spec_nib3(op)),
        OpId::JpV0 => "JP V0, "@ + spec_dec_nibble(spec_nib1(op)) + spec_dec_nibble(spec_nib2(op))
            + spec_dec_nibble(spec_nib3(op)),
        OpId::Rnd => "RND V"@ + spec_dec_nibble(spec_nib1(op)) + ", "@ + spec_dec_nibble(
            spec_nib2(op),
        ) + spec_dec_nibble(spec_nib3(op)),
        OpId::Drw => "DRW V"@ + spec_dec_nibble(spec_nib1(op)) + ", V"@ + spec_dec_nibble(
            spec_nib2(op),
        ) + ", "@ + spec_dec_nibble(spec_nib3(op)),
        OpId::Skp => "SKP V"@ + spec_dec_nibble(spec_nib1(op)),
        OpId::Sknp => "SKNP V"@ + spec_dec_nibble(spec_nib1(op)),
        OpId::LdFromDt => "LD V"@ + spec_dec_nibble(spec_nib1(op)) + ", DT"@,
        OpId::LdKey => "LD V"@ + spec_dec_nibble(spec_nib1(op)) + ", K"@,
        OpId::LdDt => "LD DT, V"@ + spec_dec_nibble(spec_nib1(op)),
        OpId::LdSt => "LD ST, V"@ + spec_dec_nibble(spec_nib1(op)),
        OpId::AddI => "ADD I, V"@ + spec_dec_nibble(spec_nib1(op)),
        OpId::LdFont => "LD F, V"@ + spec_dec_nibble(spec_nib1(op)),
        OpId::Bcd => "LD B, V"@ + spec_dec_nibble(spec_nib1(op)),
        OpId::StoreRegs => "LD [I], V"@ + spec_dec_nibble(spec_nib1(op)),
        OpId::LoadRegs => "LD V"@ + spec_dec_nibble(spec_nib1(op)) + ", [I]"@,
        OpId::Scd => "SCD "@ + spec_dec_nibble(spec_nib3(op)),
        OpId::Scr => "SCR"@,
        OpId::Scl => "SCL"@,
        OpId::Exit => "EXIT"@,
        OpId::Low => "LOW"@,
        OpId::High => "HIGH"@,
        OpId::LdBigFont => "LD HF, V"@ + spec_dec_nibble(spec_nib1(op)),
        OpId::StoreRpl => "LD R, V"@ + spec_dec_nibble(spec_nib1(op)),
        OpId::LoadRpl => "LD V"@ + spec_dec_nibble(spec_nib1(op)) + ", R"@,
        OpId::Sys => "SYS "@ + spec_dec_nibble(spec_nib1(op)) + spec_dec_nibble(spec_nib2(op))
            + spec_dec_nibble(spec_nib3(op)),
    }
}

/// The disassembly of a raw opcode: the rendering of the descriptor it
/// decodes to, or nothing when no descriptor matches.
pub open spec fn spec_disasm(op: u16) -> Option<Seq<char>> {
    match spec_decode(op) {
        Some(d) => Some(spec_render(d.id, op)),
        None => None,
    }
}

fn render_mnn(prefix: &str, op: u16) -> (r: String)
    ensures
        r@ == prefix@ + spec_dec_nibble(spec_nib1(op)) + spec_dec_nibble(spec_nib2(op))
            + spec_dec_nibble(spec_nib3(op)),
{
    broadcast use lemma_nibble_bound;

    let mut s = String::from_str(prefix);
    s.append(dec_nibble((op >> 8) & 0xF).as_str());
    s.append(dec_nibble((op >> 4) & 0xF).as_str());
    s.append(dec_nibble(op & 0xF).as_str());
    s
}

fn render_xkk(prefix: &str, op: u16) -> (r: String)
    ensures
        r@ == prefix@ + spec_dec_nibble(spec_nib1(op)) + ", "@ + spec_dec_nibble(spec_nib2(op))
            + spec_dec_nibble(spec_nib3(op)),
{
    broadcast use lemma_nibble_bound;

    let mut s = String::from_str(prefix);
    s.append(dec_nibble((op >> 8) & 0xF).as_str());
    s.append(", ");
    s.append(dec_nibble((op >> 4) & 0xF).as_str());
    s.append(dec_nibble(op & 0xF).as_str());
    s
}

fn render_xy(prefix: &str, op: u16) -> (r: String)
    ensures
        r@ == prefix@ + spec_dec_nibble(spec_nib1(op)) + ", V"@ + spec_dec_nibble(spec_nib2(op)),
{
    broadcast use lemma_nibble_bound;

    let mut s = String::from_str(prefix);
    s.append(dec_nibble((op >> 8) & 0xF).as_str());
    s.append(", V");
    s.append(dec_nibble((op >> 4) & 0xF).as_str());
    s
}

fn render_x(prefix: &str, op: u16) -> (r: String)
    ensures
        r@ == prefix@ + spec_dec_nibble(spec_nib1(op)),
{
    broadcast use lemma_nibble_bound;

    let mut s = String::from_str(prefix);
    s.append(dec_nibble((op >> 8) & 0xF).as_str());
    s
}

fn render_x_sfx(prefix: &str, op: u16, suffix: &str) -> (r: String)
    ensures
        r@ == prefix@ + spec_dec_nibble(spec_nib1(op)) + suffix@,
{
    broadcast use lemma_nibble_bound;

    let mut s = String::from_str(prefix);
    s.append(dec_nibble((op >> 8) & 0xF).as_str());
    s.append(suffix);
    s
}

/// Render the mnemonic of a decoded instruction form with the operand
/// nibbles of the raw opcode substituted in.
fn render_op(id: OpId, op: u16) -> (r: String)
    ensures
        r@ == spec_render(id, op),
{
    broadcast use lemma_nibble_bound;

    match id {
        OpId::Cls => String::from_str("CLS"),
        OpId::Ret => String::from_str("RET"),
        OpId::Jp => render_mnn("JP ", op),
        OpId::Call => render_mnn("CALL ", op),
        OpId::SeByte => render_xkk("SE V", op),
        OpId::SneByte => render_xkk("SNE V", op),
        OpId::SeReg => render_xy("SE V", op),
        OpId::LdByte => render_xkk("LD V", op),
        OpId::AddByte => render_xkk("ADD V", op),
        OpId::LdReg => render_xy("LD V", op),
        OpId::Or => render_xy("OR V", op),
        OpId::And => render_xy("AND V", op),
        OpId::Xor => render_xy("XOR V", op),
        OpId::AddReg => render_xy("ADD V", op),
        OpId::Sub => render_xy("SUB V", op),
        OpId::Shr => render_x("SHR V", op),
        OpId::Subn => render_xy("SUBN V", op),
        OpId::Shl => render_x("SHL V", op),
        OpId::SneReg => render_xy("SNE V", op),
        OpId::LdI => render_mnn("LD I, ", op),
        OpId::JpV0 => render_mnn("JP V0, ", op),
        OpId::Rnd => render_xkk("RND V", op),
        OpId::Drw => {
            let mut s = render_xy("DRW V", op);
            s.append(", ");
            s.append(dec_nibble(op & 0xF).as_str());
            s
        },
        OpId::Skp => render_x("SKP V", op),
        OpId::Sknp => render_x("SKNP V", op),
        OpId::LdFromDt => render_x_sfx("LD V", op, ", DT"),
        OpId::LdKey => render_x_sfx("LD V", op, ", K"),
        OpId::LdDt => render_x("LD DT, V", op),
        OpId::LdSt => render_x("LD ST, V", op),
        OpId::AddI => render_x("ADD I, V", op),
        OpId::LdFont => render_x("LD F, V", op),
        OpId::Bcd => render_x("LD B, V", op),
        OpId::StoreRegs => render_x("LD [I], V", op),
        OpId::LoadRegs => render_x_sfx("LD V", op, ", [I]"),
        OpId::Scd => {
            let mut s = String::from_str("SCD ");
            s.append(dec_nibble(op & 0xF).as_str());
            s
        },
        OpId::Scr => String::from_str("SCR"),
        OpId::Scl => String::from_str("SCL"),
        OpId::Exit => String::from_str("EXIT"),
        OpId::Low => String::from_str("LOW"),
        OpId::High => String::from_str("HIGH"),
        OpId::LdBigFont => render_x("LD HF, V", op),
        OpId::StoreRpl => render_x("LD R, V", op),
        OpId::LoadRpl => render_x_sfx("LD V", op, ", R"),
        OpId::Sys => render_mnn("SYS ", op),
    }
}

/// Disassemble an opcode given as a raw 16-bit code.  Returns the rendered
/// mnemonic of the first matching descriptor, or `UnknownOpcode` when no
/// descriptor matches.
pub fn dissasemble_op_code_from_u16(code: u16) -> (r: Result<String, DisasmError>)
    ensures
        spec_disasm(code) matches Some(t) ==> r matches Ok(s) && s@ == t,
        spec_disasm(code) is None ==> (r matches Err(e) && e == DisasmError::UnknownOpcode),
{
    match get_op_code_from_hex(code) {
        Ok(d) => Ok(render_op(d.id, code)),
        Err(_) => Err(DisasmError::UnknownOpcode),
    }
}

/// A hexadecimal digit: 0-9, a-f or A-F.
pub open spec fn spec_is_hex_digit(c: char) -> bool {
    ('0' <= c && c <= '9') || ('a' <= c && c <= 'f') || ('A' <= c && c <= 'F')
}

/// The value of one hexadecimal digit.
pub open spec fn spec_hex_digit_val(c: char) -> int {
    if '0' <= c && c <= '9' {
        c as u32 - 48
    } else if 'a' <= c && c <= 'f' {
        c as u32 - 87
    } else {
        c as u32 - 55
    }
}

/// The value of the first `k` characters read as hexadecimal digits.
pub open spec fn spec_hex_prefix_val(s: Seq<char>, k: int) -> int
    decreases k,
{
    if k <= 0 {
        0
    } else {
        spec_hex_prefix_val(s, k - 1) * 16 + spec_hex_digit_val(s[k - 1])
    }
}

/// The 16-bit value of a string of hexadecimal digits: defined exactly when
/// the string is nonempty, holds hexadecimal digits only, and its value
/// fits in 16 bits.
pub open spec fn spec_hex_value(s: Seq<char>) -> Option<u16> {
    if s.len() > 0 && (forall|i: int| 0 <= i < s.len() ==> spec_is_hex_digit(#[trigger] s[i]))
        && spec_hex_prefix_val(s, s.len() as int) <= 0xFFFF {
        Some(spec_hex_prefix_val(s, s.len() as int) as u16)
    } else {
        None
    }
}

/// Reading further digits never shrinks the value.
proof fn lemma_hex_prefix_mono(s: Seq<char>, k: int, m: int)
    requires
        0 <= k <= m <= s.len(),
        forall|i: int| 0 <= i < m ==> spec_is_hex_digit(#[trigger] s[i]),
        spec_hex_prefix_val(s, k) >= 0,
    ensures
        spec_hex_prefix_val(s, m) >= spec_hex_prefix_val(s, k),
    decreases m - k,
{
    if m > k {
        lemma_hex_prefix_mono(s, k, m - 1);
    }
}

/// Parse a string of hexadecimal digits into a 16-bit value.  Empty text,
/// a non-digit character, or a value over 16 bits is malformed.
pub fn hex_to_u16(hex: &str) -> (r: Result<u16, DisasmError>)
    ensures
        r matches Ok(v) ==> spec_hex_value(hex@) == Some(v),
        r matches Err(e) ==> (spec_hex_value(hex@) is None && e == DisasmError::ParseError),
{
    broadcast use vstd::string::is_ascii_spec_bytes;

    if !hex.is_ascii() {
        proof {
            let i = choose|i: int|
                0 <= i < hex@.len() && !('\0' <= #[trigger] hex@[i] <= '\u{7f}');
            assert(!spec_is_hex_digit(hex@[i]));
        }
        return Err(DisasmError::ParseError);
    }
    let b: &[u8] = hex.as_bytes();
    proof {
        assert(b@ =~= Seq::new(hex@.len(), |i: int| hex@[i] as u8));
    }
    let n = b.len();
    if n == 0 {
        return Err(DisasmError::ParseError);
    }
    let mut acc: u32 = 0;
    let mut k: usize = 0;
    while k < n
        invariant
            vstd::string::is_ascii(hex),
            b@ == Seq::new(hex@.len(), |i: int| hex@[i] as u8),
            n == b@.len(),
            0 <= k <= n,
            forall|i: int| 0 <= i < k ==> spec_is_hex_digit(#[trigger] hex@[i]),
            acc == spec_hex_prefix_val(hex@, k as int),
            acc <= 0xFFFF,
        decreases n - k,
    {
        let by = b[k];
        let d: u32;
        if 48 <= by && by <= 57 {
            d = (by - 48) as u32;
        } else if 97 <= by && by <= 102 {
            d = (by - 87) as u32;
        } else if 65 <= by && by <= 70 {
            d = (by - 55) as u32;
        } else {
            proof {
                assert(!spec_is_hex_digit(hex@[k as int]));
            }
            return Err(DisasmError::ParseError);
        }
        let val = acc * 16 + d;
        if val > 0xFFFF {
            proof {
                assert(spec_hex_prefix_val(hex@, k + 1) == val);
                if forall|i: int| 0 <= i < hex@.len() ==> spec_is_hex_digit(#[trigger] hex@[i]) {
                    lemma_hex_prefix_mono(hex@, k + 1, hex@.len() as int);
                }
            }
            return Err(DisasmError::ParseError);
        }
        acc = val;
        k += 1;
    }
    Ok(acc as u16)
}

/// Disassemble an opcode given as hexadecimal text, such as `"00E0"`.
pub fn dissasemble_op_code_from_str(code: &str) -> (r: Result<String, DisasmError>)
    ensures
        spec_hex_value(code@) is None ==> (r matches Err(e) && e == DisasmError::ParseError),
        spec_hex_value(code@) matches Some(v) ==> {
            &&& (spec_disasm(v) matches Some(t) ==> (r matches Ok(s) && s@ == t))
            &&& (spec_disasm(v) is None ==> (r matches Err(e) && e == DisasmError::UnknownOpcode))
        },
{
    let v = match hex_to_u16(code) {
        Ok(v) => v,
        Err(_) => {
            return Err(DisasmError::ParseError);
        },
    };
    dissasemble_op_code_from_u16(v)
}

/// The opcode formed by the big-endian byte pair at position `j` of a
/// byte buffer.
pub open spec fn spec_pair_code(b: Seq<u8>, j: int) -> u16 {
    ((b[2 * j] as u16) << 8) | (b[2 * j + 1] as u16)
}

/// Disassemble a buffer of big-endian 2-byte opcodes, one mnemonic per
/// consecutive byte pair.  A buffer of odd length is an `InvalidLength`
/// error; a pair no descriptor matches is an `UnknownOpcode` error.
pub fn dissasemble_op_code_from_bytes(bytes: &[u8]) -> (r: Result<Vec<String>, DisasmError>)
    ensures
        bytes@.len() % 2 != 0 ==> (r matches Err(e) && e == DisasmError::InvalidLength),
        bytes@.len() % 2 == 0 ==> {
            &&& (r matches Ok(v) ==> {
                &&& v@.len() == bytes@.len() / 2
                &&& forall|j: int|
                    0 <= j < v@.len() ==> spec_disasm(spec_pair_code(bytes@, j)) == Some(
                        #[trigger] v@[j]@,
                    )
            })
            &&& (r matches Err(e) ==> (e == DisasmError::UnknownOpcode && exists|j: int|
                0 <= j < bytes@.len() / 2 && spec_disasm(
                    #[trigger] spec_pair_code(bytes@, j),
                ) is None))
        },
{
    if bytes.len() % 2 != 0 {
        return Err(DisasmError::InvalidLength);
    }
    let mut ret: Vec<String> = Vec::new();
    let mut i: usize = 0;
    while i < bytes.len()
        invariant
            bytes@.len() % 2 == 0,
            i % 2 == 0,
            0 <= i <= bytes@.len(),
            ret@.len() == i / 2,
            forall|j: int|
                0 <= j < i / 2 ==> spec_disasm(spec_pair_code(bytes@, j)) == Some(
                    #[trigger] ret@[j]@,
                ),
        decreases bytes@.len() - i,
    {
        let code = ((bytes[i] as u16) << 8) | (bytes[i + 1] as u16);
        proof {
            assert(spec_pair_code(bytes@, i as int / 2) == code);
        }
        match dissasemble_op_code_from_u16(code) {
            Ok(s) => ret.push(s),
            Err(_) => {
                proof {
                    assert(spec_disasm(spec_pair_code(bytes@, i as int / 2)) is None);
                }
                return Err(DisasmError::UnknownOpcode);
            },
        }
        i += 2;
    }
    Ok(ret)
}

broadcast proof fn lemma_nib1_arith(x: u16)
    ensures
        #[trigger] ((x >> 8) & 0xF) == (x / 256) % 16,
{
    assert((x >> 8) & 0xF == (x / 256) % 16) by (bit_vector);
}

broadcast proof fn lemma_nib2_arith(x: u16)
    ensures
        #[trigger] ((x >> 4) & 0xF) == (x / 16) % 16,
{
    assert((x >> 4) & 0xF == (x / 16) % 16) by (bit_vector);
}

broadcast proof fn lemma_nib3_arith(x: u16)
    ensures
        #[trigger] (x & 0xF) == x % 16,
{
    assert(x & 0xF == x % 16) by (bit_vector);
}

/// The canonical rendering table: disassembling each descriptor's
/// canonical code yields its mnemonic with every operand placeholder
/// substituted by zero.
#[verifier::rlimit(100)]
pub proof fn lemma_canonical_rendering()
    ensures
        spec_render(OpId::Cls, 0x00E0) =~= "CLS"@,
        spec_render(OpId::Ret, 0x00EE) =~= "RET"@,
        spec_render(OpId::Jp, 0x1000) =~= "JP 000"@,
        spec_render(OpId::Call, 0x2000) =~= "CALL 000"@,
        spec_render(OpId::SeByte, 0x3000) =~= "SE V0, 00"@,
        spec_render(OpId::SneByte, 0x4000) =~= "SNE V0, 00"@,
        spec_render(OpId::SeReg, 0x5000) =~= "SE V0, V0"@,
        spec_render(OpId::LdByte, 0x6000) =~= "LD V0, 00"@,
        spec_render(OpId::AddByte, 0x7000) =~= "ADD V0, 00"@,
        spec_render(OpId::LdReg, 0x8000) =~= "LD V0, V0"@,
        spec_render(OpId::Or, 0x8001) =~= "OR V0, V0"@,
        spec_render(OpId::And, 0x8002) =~= "AND V0, V0"@,
        spec_render(OpId::Xor, 0x8003) =~= "XOR V0, V0"@,
        spec_render(OpId::AddReg, 0x8004) =~= "ADD V0, V0"@,
        spec_render(OpId::Sub, 0x8005) =~= "SUB V0, V0"@,
        spec_render(OpId::Shr, 0x8006) =~= "SHR V0"@,
        spec_render(OpId::Subn, 0x8007) =~= "SUBN V0, V0"@,
        spec_render(OpId::Shl, 0x800E) =~= "SHL V0"@,
        spec_render(OpId::SneReg, 0x9000) =~= "SNE V0, V0"@,
        spec_render(OpId::LdI, 0xA000) =~= "LD I, 000"@,
        spec_render(OpId::JpV0, 0xB000) =~= "JP V0, 000"@,
        spec_render(OpId::Rnd, 0xC000) =~= "RND V0, 00"@,
        spec_render(OpId::Drw, 0xD000) =~= "DRW V0, V0, 0"@,
        spec_render(OpId::Skp, 0xE09E) =~= "SKP V0"@,
        spec_render(OpId::Sknp, 0xE0A1) =~= "SKNP V0"@,
        spec_render(OpId::LdFromDt, 0xF007) =~= "LD V0, DT"@,
        spec_render(OpId::LdKey, 0xF00A) =~= "LD V0, K"@,
        spec_render(OpId::LdDt, 0xF015) =~= "LD DT, V0"@,
        spec_render(OpId::LdSt, 0xF018) =~= "LD ST, V0"@,
        spec_render(OpId::AddI, 0xF01E) =~= "ADD I, V0"@,
        spec_render(OpId::LdFont, 0xF029) =~= "LD F, V0"@,
        spec_render(OpId::Bcd, 0xF033) =~= "LD B, V0"@,
        spec_render(OpId::StoreRegs, 0xF055) =~= "LD [I], V0"@,
        spec_render(OpId::LoadRegs, 0xF065) =~= "LD V0, [I]"@,
        spec_render(OpId::Scd, 0x00C0) =~= "SCD 0"@,
        spec_render(OpId::Scr, 0x00FB) =~= "SCR"@,
        spec_render(OpId::Scl, 0x00FC) =~= "SCL"@,
        spec_render(OpId::Exit, 0x00FD) =~= "EXIT"@,
        spec_render(OpId::Low, 0x00FE) =~= "LOW"@,
        spec_render(OpId::High, 0x00FF) =~= "HIGH"@,
        spec_render(OpId::LdBigFont, 0xF030) =~= "LD HF, V0"@,
        spec_render(OpId::StoreRpl, 0xF075) =~= "LD R, V0"@,
        spec_render(OpId::LoadRpl, 0xF085) =~= "LD V0, R"@,
        spec_render(OpId::Sys, 0x0000) =~= "SYS 000"@,
{
    broadcast use lemma_nib1_arith, lemma_nib2_arith, lemma_nib3_arith;

    reveal_strlit("CLS");
    reveal_strlit("RET");
    reveal_strlit("JP ");
    reveal_strlit("CALL ");
    reveal_strlit("SE V");
    reveal_strlit("SNE V");
    reveal_strlit("LD V");
    reveal_strlit("ADD V");
    reveal_strlit("OR V");
    reveal_strlit("AND V");
    reveal_strlit("XOR V");
    reveal_strlit("SUB V");
    reveal_strlit("SHR V");
    reveal_strlit("SUBN V");
    reveal_strlit("SHL V");
    reveal_strlit("LD I, ");
    reveal_strlit("JP V0, ");
    reveal_strlit("RND V");
    reveal_strlit("DRW V");
    reveal_strlit("SKP V");
    reveal_strlit("SKNP V");
    reveal_strlit("LD DT, V");
    reveal_strlit("LD ST, V");
    reveal_strlit("ADD I, V");
    reveal_strlit("LD F, V");
    reveal_strlit("LD B, V");
    reveal_strlit("LD [I], V");
    reveal_strlit("SCD ");
    reveal_strlit("SCR");
    reveal_strlit("SCL");
    reveal_strlit("EXIT");
    reveal_strlit("LOW");
    reveal_strlit("HIGH");
    reveal_strlit("LD HF, V");
    reveal_strlit("LD R, V");
    reveal_strlit("SYS ");
    reveal_strlit(", ");
    reveal_strlit(", V");
    reveal_strlit("0");
    reveal_strlit(", DT");
    reveal_strlit(", K");
    reveal_strlit(", [I]");
    reveal_strlit(", R");
    reveal_strlit("ADD I, V0");
    reveal_strlit("ADD V0, 00");
    reveal_strlit("ADD V0, V0");
    reveal_strlit("AND V0, V0");
    reveal_strlit("CALL 000");
    reveal_strlit("DRW V0, V0, 0");
    reveal_strlit("JP 000");
    reveal_strlit("JP V0, 000");
    reveal_strlit("LD B, V0");
    reveal_strlit("LD DT, V0");
    reveal_strlit("LD F, V0");
    reveal_strlit("LD HF, V0");
    reveal_strlit("LD I, 000");
    reveal_strlit("LD R, V0");
    reveal_strlit("LD ST, V0");
    reveal_strlit("LD V0, 00");
    reveal_strlit("LD V0, DT");
    reveal_strlit("LD V0, K");
    reveal_strlit("LD V0, R");
    reveal_strlit("LD V0, V0");
    reveal_strlit("LD V0, [I]");
    reveal_strlit("LD [I], V0");
    reveal_strlit("OR V0, V0");
    reveal_strlit("RND V0, 00");
    reveal_strlit("SCD 0");
    reveal_strlit("SE V0, 00");
    reveal_strlit("SE V0, V0");
    reveal_strlit("SHL V0");
    reveal_strlit("SHR V0");
    reveal_strlit("SKNP V0");
    reveal_strlit("SKP V0");
    reveal_strlit("SNE V0, 00");
    reveal_strlit("SNE V0, V0");
    reveal_strlit("SUB V0, V0");
    reveal_strlit("SUBN V0, V0");
    reveal_strlit("SYS 000");
    reveal_strlit("XOR V0, V0");
    assert(spec_render(OpId::Cls, 0x00E0) =~= "CLS"@);
    assert(spec_render(OpId::Ret, 0x00EE) =~= "RET"@);
    assert(spec_render(OpId::Jp, 0x1000) =~= "JP 000"@);
    assert(spec_render(OpId::Call, 0x2000) =~= "CALL 000"@);
    assert(spec_render(OpId::SeByte, 0x3000) =~= "SE V0, 00"@);
    assert(spec_render(OpId::SneByte, 0x4000) =~= "SNE V0, 00"@);
    assert(spec_render(OpId::SeReg, 0x5000) =~= "SE V0, V0"@);
    assert(spec_render(OpId::LdByte, 0x6000) =~= "LD V0, 00"@);
    assert(spec_render(OpId::AddByte, 0x7000) =~= "ADD V0, 00"@);
    assert(spec_render(OpId::LdReg, 0x8000) =~= "LD V0, V0"@);
    assert(spec_render(OpId::Or, 0x8001) =~= "OR V0, V0"@);
    assert(spec_render(OpId::And, 0x8002) =~= "AND V0, V0"@);
    assert(spec_render(OpId::Xor, 0x8003) =~= "XOR V0, V0"@);
    assert(spec_render(OpId::AddReg, 0x8004) =~= "ADD V0, V0"@);
    assert(spec_render(OpId::Sub, 0x8005) =~= "SUB V0, V0"@);
    assert(spec_render(OpId::Shr, 0x8006) =~= "SHR V0"@);
    assert(spec_render(OpId::Subn, 0x8007) =~= "SUBN V0, V0"@);
    assert(spec_render(OpId::Shl, 0x800E) =~= "SHL V0"@);
    assert(spec_render(OpId::SneReg, 0x9000) =~= "SNE V0, V0"@);
    assert(spec_render(OpId::LdI, 0xA000) =~= "LD I, 000"@);
    assert(spec_render(OpId::JpV0, 0xB000) =~= "JP V0, 000"@);
    assert(spec_render(OpId::Rnd, 0xC000) =~= "RND V0, 00"@);
    assert(spec_render(OpId::Drw, 0xD000) =~= "DRW V0, V0, 0"@);
    assert(spec_render(OpId::Skp, 0xE09E) =~= "SKP V0"@);
    assert(spec_render(OpId::Sknp, 0xE0A1) =~= "SKNP V0"@);
    assert(spec_render(OpId::LdFromDt, 0xF007) =~= "LD V0, DT"@);
    assert(spec_render(OpId::LdKey, 0xF00A) =~= "LD V0, K"@);
    assert(spec_render(OpId::LdDt, 0xF015) =~= "LD DT, V0"@);
    assert(spec_render(OpId::LdSt, 0xF018) =~= "LD ST, V0"@);
    assert(spec_render(OpId::AddI, 0xF01E) =~= "ADD I, V0"@);
    assert(spec_render(OpId::LdFont, 0xF029) =~= "LD F, V0"@);
    assert(spec_render(OpId::Bcd, 0xF033) =~= "LD B, V0"@);
    assert(spec_render(OpId::StoreRegs, 0xF055) =~= "LD [I], V0"@);
    assert(spec_render(OpId::LoadRegs, 0xF065) =~= "LD V0, [I]"@);
    assert(spec_render(OpId::Scd, 0x00C0) =~= "SCD 0"@);
    assert(spec_render(OpId::Scr, 0x00FB) =~= "SCR"@);
    assert(spec_render(OpId::Scl, 0x00FC) =~= "SCL"@);
    assert(spec_render(OpId::Exit, 0x00FD) =~= "EXIT"@);
    assert(spec_render(OpId::Low, 0x00FE) =~= "LOW"@);
    assert(spec_render(OpId::High, 0x00FF) =~= "HIGH"@);
    assert(spec_render(OpId::LdBigFont, 0xF030) =~= "LD HF, V0"@);
    assert(spec_render(OpId::StoreRpl, 0xF075) =~= "LD R, V0"@);
    assert(spec_render(OpId::LoadRpl, 0xF085) =~= "LD V0, R"@);
    assert(spec_render(OpId::Sys, 0x0000) =~= "SYS 000"@);
}

/// Every descriptor's canonical code disassembles: decoding gives back the
/// descriptor itself, and the rendering of a decoded form is always
/// defined.
pub proof fn lemma_disasm_canonical()
    ensures
        forall|k: int|
            0 <= k < crate::opcodes::spec_table().len() ==> #[trigger] spec_disasm(
                crate::opcodes::spec_table()[k].code,
            ) is Some,
{
    crate::opcodes::lemma_decode_canonical();
}

} // verus!
