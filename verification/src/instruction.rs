use vstd::prelude::*;

verus! {

/// An instruction of the CPU, with its operands.
#[derive(Clone, Copy, Debug, PartialEq, Eq, Structural)]
pub enum Instruction {
    // 8-bit arithmetic and logic on A
    ADD(ArithmeticTarget),
    ADC(ArithmeticTarget),
    SUB(ArithmeticTarget),
    SBC(ArithmeticTarget),
    AND(ArithmeticTarget),
    OR(ArithmeticTarget),
    XOR(ArithmeticTarget),
    CP(ArithmeticTarget),
    INC(IncDecTarget),
    DEC(IncDecTarget),
    // 16-bit arithmetic
    ADDHL(HLTarget),
    INC16(IncDecTarget16),
    DEC16(IncDecTarget16),
    // accumulator and flags
    RLCA,
    RRCA,
    RLA,
    RRA,
    CPL,
    SCF,
    CCF,
    DAA,
    // jumps
    JP(JumpTest),
    JPHL,
    JR(JumpTest),
    // loads
    LD(LoadType),
    ADDSP,
    LDHLSP,
    // stack and calls
    PUSH(StackTarget),
    POP(StackTarget),
    CALL(JumpTest),
    RET(JumpTest),
    RETI,
    RST(u16),
    // control
    NOP,
    STOP,
    HALT,
    DI,
    EI,
    // prefixed (0xCB) rotations, shifts and bit operations
    RLC(PrefixTarget),
    RRC(PrefixTarget),
    RL(PrefixTarget),
    RR(PrefixTarget),
    SLA(PrefixTarget),
    SRA(PrefixTarget),
    SWAP(PrefixTarget),
    SRL(PrefixTarget),
    BIT(u8, PrefixTarget),
    RES(u8, PrefixTarget),
    SET(u8, PrefixTarget),
}

/// The operand of an 8-bit arithmetic or logic instruction.
#[derive(Clone, Copy, Debug, PartialEq, Eq, Structural)]
pub enum ArithmeticTarget {
    A,
    B,
    C,
    D,
    E,
    H,
    L,
    /// The byte at address HL.
    HLI,
    /// The byte following the opcode.
    D8,
}

#[derive(Clone, Copy, Debug, PartialEq, Eq, Structural)]
pub enum IncDecTarget {
    A,
    B,
    C,
    D,
    E,
    H,
    L,
    HLI,
}

#[derive(Clone, Copy, Debug, PartialEq, Eq, Structural)]
pub enum IncDecTarget16 {
    BC,
    DE,
    HL,
    SP,
}

#[derive(Clone, Copy, Debug, PartialEq, Eq, Structural)]
pub enum HLTarget {
    BC,
    DE,
    HL,
    SP,
}

/// The condition of a conditional jump, call or return.
#[derive(Clone, Copy, Debug, PartialEq, Eq, Structural)]
pub enum JumpTest {
    NotZero,
    Zero,
    NotCarry,
    Carry,
    Always,
}

#[derive(Clone, Copy, Debug, PartialEq, Eq, Structural)]
pub enum LoadByteTarget {
    A,
    B,
    C,
    D,
    E,
    H,
    L,
    /// The byte at HL.
    HLI,
    /// The byte at BC.
    BCI,
    /// The byte at DE.
    DEI,
    /// The byte at HL, then HL is incremented.
    HLIPlus,
    /// The byte at HL, then HL is decremented.
    HLIMinus,
    /// The byte at 0xFF00 + C.
    HighC,
    /// The byte at 0xFF00 + the byte following the opcode.
    HighD8,
    /// The byte at the address following the opcode.
    A16I,
}

#[derive(Clone, Copy, Debug, PartialEq, Eq, Structural)]
pub enum LoadByteSource {
    A,
    B,
    C,
    D,
    E,
    H,
    L,
    /// The byte following the opcode.
    D8,
    HLI,
    BCI,
    DEI,
    HLIPlus,
    HLIMinus,
    HighC,
    HighD8,
    A16I,
}

#[derive(Clone, Copy, Debug, PartialEq, Eq, Structural)]
pub enum LoadWordTarget {
    BC,
    DE,
    HL,
    SP,
    /// The two bytes at the address following the opcode.
    A16I,
}

#[derive(Clone, Copy, Debug, PartialEq, Eq, Structural)]
pub enum LoadWordSource {
    /// The word following the opcode.
    D16,
    SP,
    HL,
}

#[derive(Clone, Copy, Debug, PartialEq, Eq, Structural)]
pub enum LoadType {
    Byte(LoadByteTarget, LoadByteSource),
    Word(LoadWordTarget, LoadWordSource),
}

#[derive(Clone, Copy, Debug, PartialEq, Eq, Structural)]
pub enum StackTarget {
    AF,
    BC,
    DE,
    HL,
}

#[derive(Clone, Copy, Debug, PartialEq, Eq, Structural)]
pub enum PrefixTarget {
    B,
    C,
    D,
    E,
    H,
    L,
    HLI,
    A,
}

/// The register operand selected by the three low bits of an opcode
/// (B, C, D, E, H, L, (HL), A).
pub open spec fn arithmetic_operand(i: int) -> ArithmeticTarget {
    if i == 0 {
        ArithmeticTarget::B
    } else if i == 1 {
        ArithmeticTarget::C
    } else if i == 2 {
        ArithmeticTarget::D
    } else if i == 3 {
        ArithmeticTarget::E
    } else if i == 4 {
        ArithmeticTarget::H
    } else if i == 5 {
        ArithmeticTarget::L
    } else if i == 6 {
        ArithmeticTarget::HLI
    } else {
        ArithmeticTarget::A
    }
}

/// The same register numbering for increments and decrements.
pub open spec fn inc_dec_operand(i: int) -> IncDecTarget {
    if i == 0 {
        IncDecTarget::B
    } else if i == 1 {
        IncDecTarget::C
    } else if i == 2 {
        IncDecTarget::D
    } else if i == 3 {
        IncDecTarget::E
    } else if i == 4 {
        IncDecTarget::H
    } else if i == 5 {
        IncDecTarget::L
    } else if i == 6 {
        IncDecTarget::HLI
    } else {
        IncDecTarget::A
    }
}

/// The register pair selected by bits 4 and 5 of a push or pop opcode.
pub open spec fn stack_operand(i: int) -> StackTarget {
    if i == 0 {
        StackTarget::BC
    } else if i == 1 {
        StackTarget::DE
    } else if i == 2 {
        StackTarget::HL
    } else {
        StackTarget::AF
    }
}

/// The arithmetic or logic operation selected by bits 3 to 5 of an opcode
/// (ADD, ADC, SUB, SBC, AND, XOR, OR, CP).
pub open spec fn alu_instruction(op: int, t: ArithmeticTarget) -> Instruction {
    if op == 0 {
        Instruction::ADD(t)
    } else if op == 1 {
        Instruction::ADC(t)
    } else if op == 2 {
        Instruction::SUB(t)
    } else if op == 3 {
        Instruction::SBC(t)
    } else if op == 4 {
        Instruction::AND(t)
    } else if op == 5 {
        Instruction::XOR(t)
    } else if op == 6 {
        Instruction::OR(t)
    } else {
        Instruction::CP(t)
    }
}

/// The opcodes that the decoder knows, by their bit fields: 0x80..=0xBF
/// (operation in bits 3-5, register in bits 0-2), the immediate forms
/// 0xC6, 0xCE, ..., 0xFE, INC r (00rrr100), DEC r (00rrr101),
/// POP (11pp0001) and PUSH (11pp0101). No prefixed opcode is decoded.
pub open spec fn decode(byte: u8, prefixed: bool) -> Option<Instruction> {
    if prefixed {
        None
    } else if 0x80 <= byte <= 0xBF {
        Some(alu_instruction((byte - 0x80) / 8, arithmetic_operand(byte as int % 8)))
    } else if byte >= 0xC0 && byte % 8 == 6 {
        Some(alu_instruction((byte - 0xC0) / 8, ArithmeticTarget::D8))
    } else if byte < 0x40 && byte % 8 == 4 {
        Some(Instruction::INC(inc_dec_operand(byte as int / 8)))
    } else if byte < 0x40 && byte % 8 == 5 {
        Some(Instruction::DEC(inc_dec_operand(byte as int / 8)))
    } else if byte >= 0xC0 && byte % 16 == 1 {
        Some(Instruction::POP(stack_operand((byte - 0xC0) / 16)))
    } else if byte >= 0xC0 && byte % 16 == 5 {
        Some(Instruction::PUSH(stack_operand((byte - 0xC0) / 16)))
    } else {
        None
    }
}

impl Instruction {
    pub fn from_byte(byte: u8, prefixed: bool) -> (r: Option<Instruction>)
        ensures
            r == decode(byte, prefixed),
    {
        if prefixed {
            Instruction::from_byte_prefixed(byte)
        } else {
            Instruction::from_byte_not_prefixed(byte)
        }
    }

    fn from_byte_prefixed(byte: u8) -> (r: Option<Instruction>)
        ensures
            r == decode(byte, true),
    {
        match byte {
            _ => None,
        }
    }

    fn from_byte_not_prefixed(byte: u8) -> (r: Option<Instruction>)
        ensures
            r == decode(byte, false),
    {
        match byte {
            // 8-bit arithmetic
            // ADD
            0x80 => Some(Instruction::ADD(ArithmeticTarget::B)),
            0x81 => Some(Instruction::ADD(ArithmeticTarget::C)),
            0x82 => Some(Instruction::ADD(ArithmeticTarget::D)),
            0x83 => Some(Instruction::ADD(ArithmeticTarget::E)),
            0x84 => Some(Instruction::ADD(ArithmeticTarget::H)),
            0x85 => Some(Instruction::ADD(ArithmeticTarget::L)),
            0x86 => Some(Instruction::ADD(ArithmeticTarget::HLI)),
            0x87 => Some(Instruction::ADD(ArithmeticTarget::A)),
            // ADC (add with carry)
            0x88 => Some(Instruction::ADC(ArithmeticTarget::B)),
            0x89 => Some(Instruction::ADC(ArithmeticTarget::C)),
            0x8A => Some(Instruction::ADC(ArithmeticTarget::D)),
            0x8B => Some(Instruction::ADC(ArithmeticTarget::E)),
            0x8C => Some(Instruction::ADC(ArithmeticTarget::H)),
            0x8D => Some(Instruction::ADC(ArithmeticTarget::L)),
            0x8E => Some(Instruction::ADC(ArithmeticTarget::HLI)),
            0x8F => Some(Instruction::ADC(ArithmeticTarget::A)),
            // SUB
            0x90 => Some(Instruction::SUB(ArithmeticTarget::B)),
            0x91 => Some(Instruction::SUB(ArithmeticTarget::C)),
            0x92 => Some(Instruction::SUB(ArithmeticTarget::D)),
            0x93 => Some(Instruction::SUB(ArithmeticTarget::E)),
            0x94 => Some(Instruction::SUB(ArithmeticTarget::H)),
            0x95 => Some(Instruction::SUB(ArithmeticTarget::L)),
            0x96 => Some(Instruction::SUB(ArithmeticTarget::HLI)),
            0x97 => Some(Instruction::SUB(ArithmeticTarget::A)),
            // SBC (subtract with carry)
            0x98 => Some(Instruction::SBC(ArithmeticTarget::B)),
            0x99 => Some(Instruction::SBC(ArithmeticTarget::C)),
            0x9A => Some(Instruction::SBC(ArithmeticTarget::D)),
            0x9B => Some(Instruction::SBC(ArithmeticTarget::E)),
            0x9C => Some(Instruction::SBC(ArithmeticTarget::H)),
            0x9D => Some(Instruction::SBC(ArithmeticTarget::L)),
            0x9E => Some(Instruction::SBC(ArithmeticTarget::HLI)),
            0x9F => Some(Instruction::SBC(ArithmeticTarget::A)),
            // AND
            0xA0 => Some(Instruction::AND(ArithmeticTarget::B)),
            0xA1 => Some(Instruction::AND(ArithmeticTarget::C)),
            0xA2 => Some(Instruction::AND(ArithmeticTarget::D)),
            0xA3 => Some(Instruction::AND(ArithmeticTarget::E)),
            0xA4 => Some(Instruction::AND(ArithmeticTarget::H)),
            0xA5 => Some(Instruction::AND(ArithmeticTarget::L)),
            0xA6 => Some(Instruction::AND(ArithmeticTarget::HLI)),
            0xA7 => Some(Instruction::AND(ArithmeticTarget::A)),
            // XOR
            0xA8 => Some(Instruction::XOR(ArithmeticTarget::B)),
            0xA9 => Some(Instruction::XOR(ArithmeticTarget::C)),
            0xAA => Some(Instruction::XOR(ArithmeticTarget::D)),
            0xAB => Some(Instruction::XOR(ArithmeticTarget::E)),
            0xAC => Some(Instruction::XOR(ArithmeticTarget::H)),
            0xAD => Some(Instruction::XOR(ArithmeticTarget::L)),
            0xAE => Some(Instruction::XOR(ArithmeticTarget::HLI)),
            0xAF => Some(Instruction::XOR(ArithmeticTarget::A)),
            // OR
            0xB0 => Some(Instruction::OR(ArithmeticTarget::B)),
            0xB1 => Some(Instruction::OR(ArithmeticTarget::C)),
            0xB2 => Some(Instruction::OR(ArithmeticTarget::D)),
            0xB3 => Some(Instruction::OR(ArithmeticTarget::E)),
            0xB4 => Some(Instruction::OR(ArithmeticTarget::H)),
            0xB5 => Some(Instruction::OR(ArithmeticTarget::L)),
            0xB6 => Some(Instruction::OR(ArithmeticTarget::HLI)),
            0xB7 => Some(Instruction::OR(ArithmeticTarget::A)),
            // CP (compare)
            0xB8 => Some(Instruction::CP(ArithmeticTarget::B)),
            0xB9 => Some(Instruction::CP(ArithmeticTarget::C)),
            0xBA => Some(Instruction::CP(ArithmeticTarget::D)),
            0xBB => Some(Instruction::CP(ArithmeticTarget::E)),
            0xBC => Some(Instruction::CP(ArithmeticTarget::H)),
            0xBD => Some(Instruction::CP(ArithmeticTarget::L)),
            0xBE => Some(Instruction::CP(ArithmeticTarget::HLI)),
            0xBF => Some(Instruction::CP(ArithmeticTarget::A)),
            // Immediate 8-bit arithmetic
            0xC6 => Some(Instruction::ADD(ArithmeticTarget::D8)),
            0xCE => Some(Instruction::ADC(ArithmeticTarget::D8)),
            0xD6 => Some(Instruction::SUB(ArithmeticTarget::D8)),
            0xDE => Some(Instruction::SBC(ArithmeticTarget::D8)),
            0xE6 => Some(Instruction::AND(ArithmeticTarget::D8)),
            0xEE => Some(Instruction::XOR(ArithmeticTarget::D8)),
            0xF6 => Some(Instruction::OR(ArithmeticTarget::D8)),
            0xFE => Some(Instruction::CP(ArithmeticTarget::D8)),
            // INC
            0x04 => Some(Instruction::INC(IncDecTarget::B)),
            0x0C => Some(Instruction::INC(IncDecTarget::C)),
            0x14 => Some(Instruction::INC(IncDecTarget::D)),
            0x1C => Some(Instruction::INC(IncDecTarget::E)),
            0x24 => Some(Instruction::INC(IncDecTarget::H)),
            0x2C => Some(Instruction::INC(IncDecTarget::L)),
            0x34 => Some(Instruction::INC(IncDecTarget::HLI)),
            0x3C => Some(Instruction::INC(IncDecTarget::A)),
            // DEC
            0x05 => Some(Instruction::DEC(IncDecTarget::B)),
            0x0D => Some(Instruction::DEC(IncDecTarget::C)),
            0x15 => Some(Instruction::DEC(IncDecTarget::D)),
            0x1D => Some(Instruction::DEC(IncDecTarget::E)),
            0x25 => Some(Instruction::DEC(IncDecTarget::H)),
            0x2D => Some(Instruction::DEC(IncDecTarget::L)),
            0x35 => Some(Instruction::DEC(IncDecTarget::HLI)),
            0x3D => Some(Instruction::DEC(IncDecTarget::A)),
            // POP
            0xC1 => Some(Instruction::POP(StackTarget::BC)),
            0xD1 => Some(Instruction::POP(StackTarget::DE)),
            0xE1 => Some(Instruction::POP(StackTarget::HL)),
            0xF1 => Some(Instruction::POP(StackTarget::AF)),
            // PUSH
            0xC5 => Some(Instruction::PUSH(StackTarget::BC)),
            0xD5 => Some(Instruction::PUSH(StackTarget::DE)),
            0xE5 => Some(Instruction::PUSH(StackTarget::HL)),
            0xF5 => Some(Instruction::PUSH(StackTarget::AF)),
            _ => None,
        }
    }
}

impl ArithmeticTarget {
    /// The length in bytes of an arithmetic instruction with this operand.
    pub open spec fn length(self) -> u16 {
        match self {
            ArithmeticTarget::D8 => 2,
            _ => 1,
        }
    }

    pub fn pc_increment(&self) -> (r: u16)
        ensures
            r == self.length(),
    {
        match self {
            ArithmeticTarget::D8 => 2,  // opcode and immediate byte
            _ => 1,  // the opcode alone
        }
    }
}

} // verus!
