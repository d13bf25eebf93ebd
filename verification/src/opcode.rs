//! Bytecode opcodes: fixed-width instructions with 0, 1, or 2 literal
//! operand bytes.

use vstd::prelude::*;

verus! {

/// Instruction opcodes.  `LoadConst` takes one operand byte (an 8-bit
/// constant index); `LoadConst16`, `Jump` and `JumpIfFalse` take two
/// (a 16-bit little-endian index or offset); all others take none.
#[derive(Debug, Clone, Copy, PartialEq, Eq, Structural, Hash)]
pub enum OpCode {
    LoadConst,
    LoadConst16,
    Nil,
    Empty,
    True,
    False,
    Neg,
    Pos,
    Inv,
    Not,
    And,
    Xor,
    Or,
    Shl,
    Shr,
    Add,
    Sub,
    Mul,
    Div,
    Mod,
    EQ,
    NE,
    LT,
    LE,
    GE,
    GT,
    Jump,
    JumpIfFalse,
}

impl OpCode {
    /// The byte this opcode is encoded as.
    pub open spec fn spec_to_byte(self) -> u8 {
        match self {
            OpCode::LoadConst => 1,
            OpCode::LoadConst16 => 2,
            OpCode::Nil => 3,
            OpCode::Empty => 4,
            OpCode::True => 5,
            OpCode::False => 6,
            OpCode::Neg => 7,
            OpCode::Pos => 8,
            OpCode::Inv => 9,
            OpCode::Not => 10,
            OpCode::And => 11,
            OpCode::Xor => 12,
            OpCode::Or => 13,
            OpCode::Shl => 14,
            OpCode::Shr => 15,
            OpCode::Add => 16,
            OpCode::Sub => 17,
            OpCode::Mul => 18,
            OpCode::Div => 19,
            OpCode::Mod => 20,
            OpCode::EQ => 21,
            OpCode::NE => 22,
            OpCode::LT => 23,
            OpCode::LE => 24,
            OpCode::GE => 25,
            OpCode::GT => 26,
            OpCode::Jump => 27,
            OpCode::JumpIfFalse => 28,
        }
    }

    /// The byte this opcode is encoded as.
    #[verifier::when_used_as_spec(spec_to_byte)]
    pub fn to_byte(self) -> (r: u8)
        ensures
            r == self.spec_to_byte(),
    {
        match self {
            OpCode::LoadConst => 1,
            OpCode::LoadConst16 => 2,
            OpCode::Nil => 3,
            OpCode::Empty => 4,
            OpCode::True => 5,
            OpCode::False => 6,
            OpCode::Neg => 7,
            OpCode::Pos => 8,
            OpCode::Inv => 9,
            OpCode::Not => 10,
            OpCode::And => 11,
            OpCode::Xor => 12,
            OpCode::Or => 13,
            OpCode::Shl => 14,
            OpCode::Shr => 15,
            OpCode::Add => 16,
            OpCode::Sub => 17,
            OpCode::Mul => 18,
            OpCode::Div => 19,
            OpCode::Mod => 20,
            OpCode::EQ => 21,
            OpCode::NE => 22,
            OpCode::LT => 23,
            OpCode::LE => 24,
            OpCode::GE => 25,
            OpCode::GT => 26,
            OpCode::Jump => 27,
            OpCode::JumpIfFalse => 28,
        }
    }

    /// Decodes a byte back to its opcode, `None` for bytes that encode none.
    pub fn from_byte(byte: u8) -> (r: Option<OpCode>)
        ensures
            match r {
                Some(op) => op.spec_to_byte() == byte,
                None => forall|op: OpCode| op.spec_to_byte() != byte,
            },
    {
        match byte {
            1 => Some(OpCode::LoadConst),
            2 => Some(OpCode::LoadConst16),
            3 => Some(OpCode::Nil),
            4 => Some(OpCode::Empty),
            5 => Some(OpCode::True),
            6 => Some(OpCode::False),
            7 => Some(OpCode::Neg),
            8 => Some(OpCode::Pos),
            9 => Some(OpCode::Inv),
            10 => Some(OpCode::Not),
            11 => Some(OpCode::And),
            12 => Some(OpCode::Xor),
            13 => Some(OpCode::Or),
            14 => Some(OpCode::Shl),
            15 => Some(OpCode::Shr),
            16 => Some(OpCode::Add),
            17 => Some(OpCode::Sub),
            18 => Some(OpCode::Mul),
            19 => Some(OpCode::Div),
            20 => Some(OpCode::Mod),
            21 => Some(OpCode::EQ),
            22 => Some(OpCode::NE),
            23 => Some(OpCode::LT),
            24 => Some(OpCode::LE),
            25 => Some(OpCode::GE),
            26 => Some(OpCode::GT),
            27 => Some(OpCode::Jump),
            28 => Some(OpCode::JumpIfFalse),
            _ => None,
        }
    }

    /// Encoded instruction length in bytes: the opcode byte plus its
    /// literal operand bytes.
    pub open spec fn spec_instr_len(&self) -> usize {
        match self {
            OpCode::LoadConst => 2usize,
            OpCode::LoadConst16 => 3usize,
            OpCode::Jump => 3usize,
            OpCode::JumpIfFalse => 3usize,
            _ => 1usize,
        }
    }

    /// Encoded instruction length in bytes.
    #[verifier::when_used_as_spec(spec_instr_len)]
    pub fn instr_len(&self) -> (r: usize)
        ensures
            r == self.spec_instr_len(),
    {
        match self {
            OpCode::LoadConst => 2,
            OpCode::LoadConst16 => 3,
            OpCode::Jump => 3,
            OpCode::JumpIfFalse => 3,
            _ => 1,
        }
    }
}

/// Decoding inverts encoding: every opcode is recovered from its byte.
pub proof fn lemma_opcode_byte_round_trip(op: OpCode)
    ensures
        forall|other: OpCode| other.spec_to_byte() == op.spec_to_byte() ==> other == op,
{
}

} // verus!
