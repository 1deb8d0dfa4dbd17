//! The structured instruction set and the pure decoder over the two opcode
//! spaces (unprefixed and CB-prefixed). Decoding maps an opcode byte either
//! to exactly one instruction or to an explicit absence; it never inspects
//! memory beyond the single opcode byte.

use vstd::prelude::*;

verus! {

/// Selector for an 8-bit operand register. F selects the packed flag byte.
#[derive(Clone, Copy, PartialEq, Eq, Structural, Debug)]
pub enum ArithmaticTarget {
    A,
    B,
    C,
    D,
    E,
    F,
    H,
    L,
}

/// Selector for a composite 16-bit register.
#[derive(Clone, Copy, PartialEq, Eq, Structural, Debug)]
pub enum ArithmaticTarget16 {
    AF,
    BC,
    DE,
    HL,
}

/// Branch condition: always taken, or tested against the zero or carry flag.
#[derive(Clone, Copy, PartialEq, Eq, Structural, Debug)]
pub enum Jump {
    NotZero,
    Zero,
    NotCarry,
    Carry,
    Always,
}

/// Target of an 8-bit load: a register, or the byte addressed by HL.
#[derive(Clone, Copy, PartialEq, Eq, Structural, Debug)]
pub enum LoadByteTarget {
    A,
    B,
    C,
    D,
    E,
    H,
    L,
    HLI,
}

/// Source of an 8-bit load: a register, the immediate byte following the
/// opcode, or the byte addressed by HL.
#[derive(Clone, Copy, PartialEq, Eq, Structural, Debug)]
pub enum LoadByteSource {
    A,
    B,
    C,
    D,
    E,
    H,
    L,
    D8,
    HLI,
}

/// Shape of a load: an 8-bit move from a source to a target.
#[derive(Clone, Copy, PartialEq, Eq, Structural, Debug)]
pub enum LoadType {
    Byte(LoadByteTarget, LoadByteSource),
}

/// One decoded instruction: an operation family together with the operand
/// selectors its execution needs.
#[derive(Clone, Copy, PartialEq, Eq, Structural, Debug)]
pub enum Instruction {
    /// A = A + target.
    ADD(ArithmaticTarget),
    /// HL = HL + 16-bit target.
    ADDHL(ArithmaticTarget),
    /// A = A + target + carry.
    ADC(ArithmaticTarget),
    /// A = A - target.
    SUB(ArithmaticTarget),
    /// A = A - target - carry.
    SBC(ArithmaticTarget),
    /// A = A & target.
    AND(ArithmaticTarget),
    /// A = A | target.
    OR(ArithmaticTarget),
    /// A = A ^ target.
    XOR(ArithmaticTarget),
    /// Compare: flags of A - target, A unmodified.
    CP(ArithmaticTarget),
    /// target = target + 1.
    INC(ArithmaticTarget),
    /// target = target - 1.
    DEC(ArithmaticTarget),
    /// Toggle the carry flag.
    CCF(ArithmaticTarget),
    /// Set the carry flag.
    SCF(ArithmaticTarget),
    /// Rotate A right through the carry flag.
    RRA(ArithmaticTarget),
    /// Rotate A left through the carry flag.
    RLA(ArithmaticTarget),
    /// Rotate A right, not through the carry flag.
    RRCA(ArithmaticTarget),
    /// Rotate A left, not through the carry flag.
    RLCA(ArithmaticTarget),
    /// A = !A.
    CPL(ArithmaticTarget),
    /// Test one bit of a register.
    BIT(ArithmaticTarget),
    /// Clear one bit of a register.
    RESET(ArithmaticTarget),
    /// Set one bit of a register.
    SET(ArithmaticTarget),
    /// Logical shift right by one.
    SRL(ArithmaticTarget),
    /// Rotate right through the carry flag.
    RR(ArithmaticTarget),
    /// Rotate left through the carry flag.
    RL(ArithmaticTarget),
    /// Rotate right, not through the carry flag.
    RRC(ArithmaticTarget),
    /// Rotate left, not through the carry flag.
    RLC(ArithmaticTarget),
    /// Arithmetic shift right by one.
    SRA(ArithmaticTarget),
    /// Arithmetic shift left by one.
    SLA(ArithmaticTarget),
    /// Swap the two nibbles of a register.
    SWAP(ArithmaticTarget),
    /// Conditional jump to the 16-bit word following the opcode.
    JP(Jump),
    /// 8-bit load.
    LD(LoadType),
    /// Conditional call: push the return address, then jump.
    CALL(Jump),
    /// Conditional return: pop the return address into PC.
    RET(Jump),
    /// No operation.
    NOP(),
    /// Halt.
    HALT(),
}

/// The CB-prefixed decode table as a function: every byte either maps to
/// exactly one instruction or is explicitly absent.
pub open spec fn spec_from_byte_prefixed(byte: u8) -> Option<Instruction> {
    if byte == 0x00 {
        Some(Instruction::RLC(ArithmaticTarget::B))
    } else {
        None
    }
}

/// The unprefixed decode table as a function: every byte either maps to
/// exactly one instruction or is explicitly absent.
pub open spec fn spec_from_byte_not_prefixed(byte: u8) -> Option<Instruction> {
    if byte == 0x02 {
        Some(Instruction::ADD(ArithmaticTarget::A))
    } else {
        None
    }
}

/// Decode over both opcode spaces, selected by the prefix mode bit.
pub open spec fn spec_from_byte(byte: u8, prefixed: bool) -> Option<Instruction> {
    if prefixed {
        spec_from_byte_prefixed(byte)
    } else {
        spec_from_byte_not_prefixed(byte)
    }
}

impl Instruction {
    /// Decode one opcode byte in the space selected by `prefixed`.
    pub fn from_byte(byte: u8, prefixed: bool) -> (r: Option<Instruction>)
        ensures
            r == spec_from_byte(byte, prefixed),
    {
        if prefixed {
            Instruction::from_byte_prefixed(byte)
        } else {
            Instruction::from_byte_not_prefixed(byte)
        }
    }

    /// Decode one opcode byte of the CB-prefixed space.
    pub fn from_byte_prefixed(byte: u8) -> (r: Option<Instruction>)
        ensures
            r == spec_from_byte_prefixed(byte),
    {
        match byte {
            0x00 => Some(Instruction::RLC(ArithmaticTarget::B)),
            _ => None,
        }
    }

    /// Decode one opcode byte of the unprefixed space.
    pub fn from_byte_not_prefixed(byte: u8) -> (r: Option<Instruction>)
        ensures
            r == spec_from_byte_not_prefixed(byte),
    {
        match byte {
            0x02 => Some(Instruction::ADD(ArithmaticTarget::A)),
            _ => None,
        }
    }
}

} // verus!
