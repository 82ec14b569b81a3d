use vstd::prelude::*;

verus! {

/// How an instruction finds its operand from the bytes after the opcode.
#[allow(non_camel_case_types)]
#[derive(Clone, Copy, Debug, PartialEq, Eq, Structural)]
pub enum AddressingMode {
    Immediate,
    ZeroPage,
    ZeroPage_X,
    ZeroPage_Y,
    Absolute,
    Absolute_X,
    Absolute_Y,
    Indirect_X,
    Indirect_Y,
    NoneAddressing,
}

/// The instructions this interpreter knows.
#[derive(Clone, Copy, Debug, PartialEq, Eq, Structural)]
pub enum Mnemonic {
    /// Break: halts the interpreter.
    Brk,
    /// Load the accumulator.
    Lda,
    /// Load the X register.
    Ldx,
    /// Store the accumulator.
    Sta,
    /// Transfer the accumulator to X.
    Tax,
    /// Increment X.
    Inx,
}

/// One entry of the opcode table.
#[derive(Clone, Copy, Debug, PartialEq, Eq, Structural)]
pub struct OpCode {
    pub code: u8,
    pub mnemonic: Mnemonic,
    /// Length of the instruction in bytes, the opcode included.
    pub len: u8,
    pub mode: AddressingMode,
}

/// Whether the instruction reads or writes memory through an operand address.
pub open spec fn takes_operand(m: Mnemonic) -> bool {
    m == Mnemonic::Lda || m == Mnemonic::Ldx || m == Mnemonic::Sta
}

/// The opcode table: the entry for each opcode byte, if there is one.
pub open spec fn opcode_spec(code: u8) -> Option<OpCode> {
    match code {
        0x00 => Some(OpCode { code: 0x00, mnemonic: Mnemonic::Brk, len: 1, mode: AddressingMode::NoneAddressing }),
        0xaa => Some(OpCode { code: 0xaa, mnemonic: Mnemonic::Tax, len: 1, mode: AddressingMode::NoneAddressing }),
        0xe8 => Some(OpCode { code: 0xe8, mnemonic: Mnemonic::Inx, len: 1, mode: AddressingMode::NoneAddressing }),
        0xa9 => Some(OpCode { code: 0xa9, mnemonic: Mnemonic::Lda, len: 2, mode: AddressingMode::Immediate }),
        0xa5 => Some(OpCode { code: 0xa5, mnemonic: Mnemonic::Lda, len: 2, mode: AddressingMode::ZeroPage }),
        0xb5 => Some(OpCode { code: 0xb5, mnemonic: Mnemonic::Lda, len: 2, mode: AddressingMode::ZeroPage_X }),
        0xad => Some(OpCode { code: 0xad, mnemonic: Mnemonic::Lda, len: 3, mode: AddressingMode::Absolute }),
        0xbd => Some(OpCode { code: 0xbd, mnemonic: Mnemonic::Lda, len: 3, mode: AddressingMode::Absolute_X }),
        0xb9 => Some(OpCode { code: 0xb9, mnemonic: Mnemonic::Lda, len: 3, mode: AddressingMode::Absolute_Y }),
        0xa1 => Some(OpCode { code: 0xa1, mnemonic: Mnemonic::Lda, len: 2, mode: AddressingMode::Indirect_X }),
        0xb1 => Some(OpCode { code: 0xb1, mnemonic: Mnemonic::Lda, len: 2, mode: AddressingMode::Indirect_Y }),
        0xa2 => Some(OpCode { code: 0xa2, mnemonic: Mnemonic::Ldx, len: 2, mode: AddressingMode::Immediate }),
        0xa6 => Some(OpCode { code: 0xa6, mnemonic: Mnemonic::Ldx, len: 2, mode: AddressingMode::ZeroPage }),
        0xb6 => Some(OpCode { code: 0xb6, mnemonic: Mnemonic::Ldx, len: 2, mode: AddressingMode::ZeroPage_Y }),
        0xae => Some(OpCode { code: 0xae, mnemonic: Mnemonic::Ldx, len: 3, mode: AddressingMode::Absolute }),
        0xbe => Some(OpCode { code: 0xbe, mnemonic: Mnemonic::Ldx, len: 3, mode: AddressingMode::Absolute_Y }),
        0x85 => Some(OpCode { code: 0x85, mnemonic: Mnemonic::Sta, len: 2, mode: AddressingMode::ZeroPage }),
        0x95 => Some(OpCode { code: 0x95, mnemonic: Mnemonic::Sta, len: 2, mode: AddressingMode::ZeroPage_X }),
        0x8d => Some(OpCode { code: 0x8d, mnemonic: Mnemonic::Sta, len: 3, mode: AddressingMode::Absolute }),
        0x9d => Some(OpCode { code: 0x9d, mnemonic: Mnemonic::Sta, len: 3, mode: AddressingMode::Absolute_X }),
        0x99 => Some(OpCode { code: 0x99, mnemonic: Mnemonic::Sta, len: 3, mode: AddressingMode::Absolute_Y }),
        0x81 => Some(OpCode { code: 0x81, mnemonic: Mnemonic::Sta, len: 2, mode: AddressingMode::Indirect_X }),
        0x91 => Some(OpCode { code: 0x91, mnemonic: Mnemonic::Sta, len: 2, mode: AddressingMode::Indirect_Y }),
        _ => None,
    }
}

/// Every entry of the table is keyed by its own code, is one to three bytes
/// long, carries a real addressing mode exactly when its instruction takes an
/// operand, and an instruction without an operand is one byte long.
pub proof fn lemma_table_well_formed(code: u8)
    ensures
        opcode_spec(code) matches Some(op) ==> {
            &&& op.code == code
            &&& 1 <= op.len <= 3
            &&& takes_operand(op.mnemonic) <==> op.mode != AddressingMode::NoneAddressing
            &&& !takes_operand(op.mnemonic) ==> op.len == 1
        },
{
}

/// Looks up an opcode byte in the table.
pub fn lookup(code: u8) -> (r: Option<OpCode>)
    ensures
        r == opcode_spec(code),
{
    match code {
        0x00 => Some(OpCode { code: 0x00, mnemonic: Mnemonic::Brk, len: 1, mode: AddressingMode::NoneAddressing }),
        0xaa => Some(OpCode { code: 0xaa, mnemonic: Mnemonic::Tax, len: 1, mode: AddressingMode::NoneAddressing }),
        0xe8 => Some(OpCode { code: 0xe8, mnemonic: Mnemonic::Inx, len: 1, mode: AddressingMode::NoneAddressing }),
        0xa9 => Some(OpCode { code: 0xa9, mnemonic: Mnemonic::Lda, len: 2, mode: AddressingMode::Immediate }),
        0xa5 => Some(OpCode { code: 0xa5, mnemonic: Mnemonic::Lda, len: 2, mode: AddressingMode::ZeroPage }),
        0xb5 => Some(OpCode { code: 0xb5, mnemonic: Mnemonic::Lda, len: 2, mode: AddressingMode::ZeroPage_X }),
        0xad => Some(OpCode { code: 0xad, mnemonic: Mnemonic::Lda, len: 3, mode: AddressingMode::Absolute }),
        0xbd => Some(OpCode { code: 0xbd, mnemonic: Mnemonic::Lda, len: 3, mode: AddressingMode::Absolute_X }),
        0xb9 => Some(OpCode { code: 0xb9, mnemonic: Mnemonic::Lda, len: 3, mode: AddressingMode::Absolute_Y }),
        0xa1 => Some(OpCode { code: 0xa1, mnemonic: Mnemonic::Lda, len: 2, mode: AddressingMode::Indirect_X }),
        0xb1 => Some(OpCode { code: 0xb1, mnemonic: Mnemonic::Lda, len: 2, mode: AddressingMode::Indirect_Y }),
        0xa2 => Some(OpCode { code: 0xa2, mnemonic: Mnemonic::Ldx, len: 2, mode: AddressingMode::Immediate }),
        0xa6 => Some(OpCode { code: 0xa6, mnemonic: Mnemonic::Ldx, len: 2, mode: AddressingMode::ZeroPage }),
        0xb6 => Some(OpCode { code: 0xb6, mnemonic: Mnemonic::Ldx, len: 2, mode: AddressingMode::ZeroPage_Y }),
        0xae => Some(OpCode { code: 0xae, mnemonic: Mnemonic::Ldx, len: 3, mode: AddressingMode::Absolute }),
        0xbe => Some(OpCode { code: 0xbe, mnemonic: Mnemonic::Ldx, len: 3, mode: AddressingMode::Absolute_Y }),
        0x85 => Some(OpCode { code: 0x85, mnemonic: Mnemonic::Sta, len: 2, mode: AddressingMode::ZeroPage }),
        0x95 => Some(OpCode { code: 0x95, mnemonic: Mnemonic::Sta, len: 2, mode: AddressingMode::ZeroPage_X }),
        0x8d => Some(OpCode { code: 0x8d, mnemonic: Mnemonic::Sta, len: 3, mode: AddressingMode::Absolute }),
        0x9d => Some(OpCode { code: 0x9d, mnemonic: Mnemonic::Sta, len: 3, mode: AddressingMode::Absolute_X }),
        0x99 => Some(OpCode { code: 0x99, mnemonic: Mnemonic::Sta, len: 3, mode: AddressingMode::Absolute_Y }),
        0x81 => Some(OpCode { code: 0x81, mnemonic: Mnemonic::Sta, len: 2, mode: AddressingMode::Indirect_X }),
        0x91 => Some(OpCode { code: 0x91, mnemonic: Mnemonic::Sta, len: 2, mode: AddressingMode::Indirect_Y }),
        _ => None,
    }
}

} // verus!
