//! A CHIP-8 virtual machine with the Super-CHIP-8 extension: a table-driven
//! opcode decoder, a disassembler built on the same decode model, and an
//! execution engine that performs one fetch-decode-execute cycle at a time
//! over a small flat memory image.

pub mod cycle;
pub mod disasm;
pub mod machine;
pub mod opcodes;

pub use disasm::dissasemble_op_code_from_bytes;
pub use disasm::dissasemble_op_code_from_str;
pub use disasm::dissasemble_op_code_from_u16;
pub use disasm::hex_to_u16;
pub use machine::Chip8;
pub use machine::MachineState;
pub use opcodes::get_op_code_from_hex;
pub use opcodes::opcode_table;
pub use opcodes::OpCode;
pub use opcodes::OpId;

use vstd::prelude::*;

verus! {

/// Errors reported by the execution engine and the ROM loader.
///
/// `UnknownOpcode` carries the address the opcode was fetched from and the
/// raw opcode itself.
#[derive(Clone, Copy, Debug, PartialEq, Eq, Structural)]
pub enum EngineError {
    UnknownOpcode { address: u16, opcode: u16 },
    StackOverflow,
    StackUnderflow,
    InvalidOperand,
    RomTooLarge,
}

/// Errors reported by the disassembler.
#[derive(Clone, Copy, Debug, PartialEq, Eq, Structural)]
pub enum DisasmError {
    /// No opcode descriptor matches the 16-bit code.
    UnknownOpcode,
    /// A byte buffer whose length is not a multiple of two.
    InvalidLength,
    /// Malformed hex text.
    ParseError,
}

} // verus!
