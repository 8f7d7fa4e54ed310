use vstd::prelude::*;

use crate::alu::{
    add16, add8, addr_add, daa, dec8, inc8, logic_flags, rotate_a_flags, rotate_left,
    rotate_left_carry, rotate_right, rotate_right_carry, shift_flags, shift_left,
    shift_right_arithmetic, shift_right_logical, signed_byte, sp_offset_flags, sub8, swap_nibbles,
};
use crate::flags::FlagsRegister;
use crate::instruction::{
    decode, ArithmeticTarget, HLTarget, IncDecTarget, IncDecTarget16, Instruction, JumpTest,
    LoadByteSource, LoadByteTarget, LoadType, LoadWordSource, LoadWordTarget, PrefixTarget,
    StackTarget,
};
use crate::memory::BusView;
use crate::registers::{high_byte, low_byte, word, Registers};

verus! {

/// The whole state of the machine as mathematical values.
#[verifier::ext_equal]
pub struct CpuState {
    pub regs: Registers,
    pub pc: u16,
    pub sp: u16,
    pub bus: BusView,
    /// The interrupt master enable flag (IME).
    pub ime: bool,
    pub halted: bool,
}

impl CpuState {
    pub open spec fn readable(self, addr: u16) -> bool {
        self.bus.readable(addr)
    }

    pub open spec fn read(self, addr: u16) -> u8 {
        self.bus.read(addr)
    }

    pub open spec fn write(self, addr: u16, value: u8) -> CpuState {
        CpuState { bus: self.bus.write(addr, value), ..self }
    }

    pub open spec fn with_regs(self, regs: Registers) -> CpuState {
        CpuState { regs, ..self }
    }

    pub open spec fn with_flags(self, f: FlagsRegister) -> CpuState {
        CpuState { regs: Registers { f, ..self.regs }, ..self }
    }

    /// A new accumulator and new flags.
    pub open spec fn with_a_f(self, a: u8, f: FlagsRegister) -> CpuState {
        CpuState { regs: Registers { a, f, ..self.regs }, ..self }
    }

    /// The byte after the opcode.
    pub open spec fn next_byte(self) -> u8 {
        self.read(addr_add(self.pc, 1))
    }

    /// The little-endian word after the opcode.
    pub open spec fn next_word(self) -> u16 {
        word(self.read(addr_add(self.pc, 2)), self.read(addr_add(self.pc, 1)))
    }

    pub open spec fn next_byte_readable(self) -> bool {
        self.readable(addr_add(self.pc, 1))
    }

    pub open spec fn next_word_readable(self) -> bool {
        self.readable(addr_add(self.pc, 1)) && self.readable(addr_add(self.pc, 2))
    }

    /// Pushing a word: the high byte goes below SP, the low byte below that,
    /// and SP is lowered by two.
    pub open spec fn push(self, v: u16) -> CpuState {
        let s1 = self.write(addr_add(self.sp, -1), high_byte(v));
        let s2 = s1.write(addr_add(self.sp, -2), low_byte(v));
        CpuState { sp: addr_add(self.sp, -2), ..s2 }
    }

    /// Popping a word: low byte at SP, high byte above it; SP rises by two.
    pub open spec fn pop(self) -> (CpuState, u16) {
        (
            CpuState { sp: addr_add(self.sp, 2), ..self },
            word(self.read(addr_add(self.sp, 1)), self.read(self.sp)),
        )
    }

    pub open spec fn stack_readable(self) -> bool {
        self.readable(self.sp) && self.readable(addr_add(self.sp, 1))
    }
}

/// Whether a jump condition holds for the given flags.
pub open spec fn condition(f: FlagsRegister, test: JumpTest) -> bool {
    match test {
        JumpTest::NotZero => !f.zero,
        JumpTest::Zero => f.zero,
        JumpTest::NotCarry => !f.carry,
        JumpTest::Carry => f.carry,
        JumpTest::Always => true,
    }
}

#[verifier::opaque]
pub open spec fn arithmetic_value(s: CpuState, t: ArithmeticTarget) -> u8 {
    match t {
        ArithmeticTarget::A => s.regs.a,
        ArithmeticTarget::B => s.regs.b,
        ArithmeticTarget::C => s.regs.c,
        ArithmeticTarget::D => s.regs.d,
        ArithmeticTarget::E => s.regs.e,
        ArithmeticTarget::H => s.regs.h,
        ArithmeticTarget::L => s.regs.l,
        ArithmeticTarget::HLI => s.read(s.regs.hl()),
        ArithmeticTarget::D8 => s.next_byte(),
    }
}

#[verifier::opaque]
pub open spec fn arithmetic_readable(s: CpuState, t: ArithmeticTarget) -> bool {
    match t {
        ArithmeticTarget::HLI => s.readable(s.regs.hl()),
        ArithmeticTarget::D8 => s.next_byte_readable(),
        _ => true,
    }
}

pub open spec fn inc_dec_value(s: CpuState, t: IncDecTarget) -> u8 {
    match t {
        IncDecTarget::A => s.regs.a,
        IncDecTarget::B => s.regs.b,
        IncDecTarget::C => s.regs.c,
        IncDecTarget::D => s.regs.d,
        IncDecTarget::E => s.regs.e,
        IncDecTarget::H => s.regs.h,
        IncDecTarget::L => s.regs.l,
        IncDecTarget::HLI => s.read(s.regs.hl()),
    }
}

pub open spec fn with_inc_dec_target(s: CpuState, t: IncDecTarget, v: u8) -> CpuState {
    match t {
        IncDecTarget::A => s.with_regs(Registers { a: v, ..s.regs }),
        IncDecTarget::B => s.with_regs(Registers { b: v, ..s.regs }),
        IncDecTarget::C => s.with_regs(Registers { c: v, ..s.regs }),
        IncDecTarget::D => s.with_regs(Registers { d: v, ..s.regs }),
        IncDecTarget::E => s.with_regs(Registers { e: v, ..s.regs }),
        IncDecTarget::H => s.with_regs(Registers { h: v, ..s.regs }),
        IncDecTarget::L => s.with_regs(Registers { l: v, ..s.regs }),
        IncDecTarget::HLI => s.write(s.regs.hl(), v),
    }
}

pub open spec fn prefix_value(s: CpuState, t: PrefixTarget) -> u8 {
    match t {
        PrefixTarget::B => s.regs.b,
        PrefixTarget::C => s.regs.c,
        PrefixTarget::D => s.regs.d,
        PrefixTarget::E => s.regs.e,
        PrefixTarget::H => s.regs.h,
        PrefixTarget::L => s.regs.l,
        PrefixTarget::HLI => s.read(s.regs.hl()),
        PrefixTarget::A => s.regs.a,
    }
}

pub open spec fn with_prefix_target(s: CpuState, t: PrefixTarget, v: u8) -> CpuState {
    match t {
        PrefixTarget::B => s.with_regs(Registers { b: v, ..s.regs }),
        PrefixTarget::C => s.with_regs(Registers { c: v, ..s.regs }),
        PrefixTarget::D => s.with_regs(Registers { d: v, ..s.regs }),
        PrefixTarget::E => s.with_regs(Registers { e: v, ..s.regs }),
        PrefixTarget::H => s.with_regs(Registers { h: v, ..s.regs }),
        PrefixTarget::L => s.with_regs(Registers { l: v, ..s.regs }),
        PrefixTarget::HLI => s.write(s.regs.hl(), v),
        PrefixTarget::A => s.with_regs(Registers { a: v, ..s.regs }),
    }
}

pub open spec fn prefix_readable(s: CpuState, t: PrefixTarget) -> bool {
    t is HLI ==> s.readable(s.regs.hl())
}

pub open spec fn hl_operand(s: CpuState, t: HLTarget) -> u16 {
    match t {
        HLTarget::BC => s.regs.bc(),
        HLTarget::DE => s.regs.de(),
        HLTarget::HL => s.regs.hl(),
        HLTarget::SP => s.sp,
    }
}

pub open spec fn pair_value(s: CpuState, t: IncDecTarget16) -> u16 {
    match t {
        IncDecTarget16::BC => s.regs.bc(),
        IncDecTarget16::DE => s.regs.de(),
        IncDecTarget16::HL => s.regs.hl(),
        IncDecTarget16::SP => s.sp,
    }
}

pub open spec fn with_pair(s: CpuState, t: IncDecTarget16, v: u16) -> CpuState {
    match t {
        IncDecTarget16::BC => s.with_regs(s.regs.with_bc(v)),
        IncDecTarget16::DE => s.with_regs(s.regs.with_de(v)),
        IncDecTarget16::HL => s.with_regs(s.regs.with_hl(v)),
        IncDecTarget16::SP => CpuState { sp: v, ..s },
    }
}

pub open spec fn stack_value(s: CpuState, t: StackTarget) -> u16 {
    match t {
        StackTarget::AF => s.regs.af(),
        StackTarget::BC => s.regs.bc(),
        StackTarget::DE => s.regs.de(),
        StackTarget::HL => s.regs.hl(),
    }
}

pub open spec fn with_stack_target(s: CpuState, t: StackTarget, v: u16) -> CpuState {
    match t {
        StackTarget::AF => s.with_regs(s.regs.with_af(v)),
        StackTarget::BC => s.with_regs(s.regs.with_bc(v)),
        StackTarget::DE => s.with_regs(s.regs.with_de(v)),
        StackTarget::HL => s.with_regs(s.regs.with_hl(v)),
    }
}

/// The address 0xFF00 + `low`, in the I/O and high RAM page.
pub open spec fn high_page(low: u8) -> u16 {
    (0xFF00 + low as int) as u16
}

/// The length in bytes of a byte load.
pub open spec fn byte_load_length(t: LoadByteTarget, src: LoadByteSource) -> u16 {
    if t is A16I || src is A16I {
        3
    } else if t is HighD8 || src is HighD8 || src is D8 {
        2
    } else {
        1
    }
}

/// The byte a load reads, and the state after reading it (the HL+ and HL-
/// forms step HL).
pub open spec fn load_source(s: CpuState, src: LoadByteSource) -> (CpuState, u8) {
    match src {
        LoadByteSource::A => (s, s.regs.a),
        LoadByteSource::B => (s, s.regs.b),
        LoadByteSource::C => (s, s.regs.c),
        LoadByteSource::D => (s, s.regs.d),
        LoadByteSource::E => (s, s.regs.e),
        LoadByteSource::H => (s, s.regs.h),
        LoadByteSource::L => (s, s.regs.l),
        LoadByteSource::D8 => (s, s.next_byte()),
        LoadByteSource::HLI => (s, s.read(s.regs.hl())),
        LoadByteSource::BCI => (s, s.read(s.regs.bc())),
        LoadByteSource::DEI => (s, s.read(s.regs.de())),
        LoadByteSource::HLIPlus => (
            s.with_regs(s.regs.with_hl(addr_add(s.regs.hl(), 1))),
            s.read(s.regs.hl()),
        ),
        LoadByteSource::HLIMinus => (
            s.with_regs(s.regs.with_hl(addr_add(s.regs.hl(), -1))),
            s.read(s.regs.hl()),
        ),
        LoadByteSource::HighC => (s, s.read(high_page(s.regs.c))),
        LoadByteSource::HighD8 => (s, s.read(high_page(s.next_byte()))),
        LoadByteSource::A16I => (s, s.read(s.next_word())),
    }
}

pub open spec fn load_source_readable(s: CpuState, src: LoadByteSource) -> bool {
    match src {
        LoadByteSource::D8 => s.next_byte_readable(),
        LoadByteSource::HighD8 => s.next_byte_readable(),
        LoadByteSource::HLI => s.readable(s.regs.hl()),
        LoadByteSource::HLIPlus => s.readable(s.regs.hl()),
        LoadByteSource::HLIMinus => s.readable(s.regs.hl()),
        LoadByteSource::BCI => s.readable(s.regs.bc()),
        LoadByteSource::DEI => s.readable(s.regs.de()),
        LoadByteSource::A16I => s.next_word_readable() && s.readable(s.next_word()),
        _ => true,
    }
}

/// The state after a load stores `v`.
pub open spec fn load_target(s: CpuState, t: LoadByteTarget, v: u8) -> CpuState {
    match t {
        LoadByteTarget::A => s.with_regs(Registers { a: v, ..s.regs }),
        LoadByteTarget::B => s.with_regs(Registers { b: v, ..s.regs }),
        LoadByteTarget::C => s.with_regs(Registers { c: v, ..s.regs }),
        LoadByteTarget::D => s.with_regs(Registers { d: v, ..s.regs }),
        LoadByteTarget::E => s.with_regs(Registers { e: v, ..s.regs }),
        LoadByteTarget::H => s.with_regs(Registers { h: v, ..s.regs }),
        LoadByteTarget::L => s.with_regs(Registers { l: v, ..s.regs }),
        LoadByteTarget::HLI => s.write(s.regs.hl(), v),
        LoadByteTarget::BCI => s.write(s.regs.bc(), v),
        LoadByteTarget::DEI => s.write(s.regs.de(), v),
        LoadByteTarget::HLIPlus => s.write(s.regs.hl(), v).with_regs(
            s.regs.with_hl(addr_add(s.regs.hl(), 1)),
        ),
        LoadByteTarget::HLIMinus => s.write(s.regs.hl(), v).with_regs(
            s.regs.with_hl(addr_add(s.regs.hl(), -1)),
        ),
        LoadByteTarget::HighC => s.write(high_page(s.regs.c), v),
        LoadByteTarget::HighD8 => s.write(high_page(s.next_byte()), v),
        LoadByteTarget::A16I => s.write(s.next_word(), v),
    }
}

pub open spec fn load_target_readable(s: CpuState, t: LoadByteTarget) -> bool {
    match t {
        LoadByteTarget::HighD8 => s.next_byte_readable(),
        LoadByteTarget::A16I => s.next_word_readable(),
        _ => true,
    }
}

/// The length in bytes of a word load.
pub open spec fn word_load_length(t: LoadWordTarget, src: LoadWordSource) -> u16 {
    if t is A16I || src is D16 {
        3
    } else {
        1
    }
}

pub open spec fn word_source(s: CpuState, src: LoadWordSource) -> u16 {
    match src {
        LoadWordSource::D16 => s.next_word(),
        LoadWordSource::SP => s.sp,
        LoadWordSource::HL => s.regs.hl(),
    }
}

/// The state after a word load stores `v`; a store to memory is little endian.
pub open spec fn word_target(s: CpuState, t: LoadWordTarget, v: u16) -> CpuState {
    match t {
        LoadWordTarget::BC => s.with_regs(s.regs.with_bc(v)),
        LoadWordTarget::DE => s.with_regs(s.regs.with_de(v)),
        LoadWordTarget::HL => s.with_regs(s.regs.with_hl(v)),
        LoadWordTarget::SP => CpuState { sp: v, ..s },
        LoadWordTarget::A16I => s.write(s.next_word(), low_byte(v)).write(
            addr_add(s.next_word(), 1),
            high_byte(v),
        ),
    }
}

/// The operand of an arithmetic instruction can be read.
pub open spec fn arithmetic_ok(s: CpuState, i: Instruction) -> bool {
    match i {
        Instruction::ADD(t) => arithmetic_readable(s, t),
        Instruction::ADC(t) => arithmetic_readable(s, t),
        Instruction::SUB(t) => arithmetic_readable(s, t),
        Instruction::SBC(t) => arithmetic_readable(s, t),
        Instruction::AND(t) => arithmetic_readable(s, t),
        Instruction::OR(t) => arithmetic_readable(s, t),
        Instruction::XOR(t) => arithmetic_readable(s, t),
        Instruction::CP(t) => arithmetic_readable(s, t),
        _ => true,
    }
}

/// The byte that an increment or decrement changes can be read.
pub open spec fn inc_dec_ok(s: CpuState, i: Instruction) -> bool {
    match i {
        Instruction::INC(t) => t is HLI ==> s.readable(s.regs.hl()),
        Instruction::DEC(t) => t is HLI ==> s.readable(s.regs.hl()),
        _ => true,
    }
}

/// The operands of a load can be read.
pub open spec fn load_ok(s: CpuState, i: Instruction) -> bool {
    match i {
        Instruction::LD(LoadType::Byte(t, src)) => load_source_readable(s, src)
            && load_target_readable(s, t),
        Instruction::LD(LoadType::Word(t, src)) => (t is A16I || src is D16)
            ==> s.next_word_readable(),
        Instruction::ADDSP => s.next_byte_readable(),
        Instruction::LDHLSP => s.next_byte_readable(),
        _ => true,
    }
}

/// The operands of a jump, call or return, and the stack, can be read.
pub open spec fn control_ok(s: CpuState, i: Instruction) -> bool {
    match i {
        Instruction::JP(test) => condition(s.regs.f, test) ==> s.next_word_readable(),
        Instruction::JR(test) => condition(s.regs.f, test) ==> s.next_byte_readable(),
        Instruction::POP(_) => s.stack_readable(),
        Instruction::RET(test) => condition(s.regs.f, test) ==> s.stack_readable(),
        Instruction::RETI => s.stack_readable(),
        Instruction::CALL(test) => condition(s.regs.f, test) ==> s.next_word_readable(),
        _ => true,
    }
}

/// The operand of a prefixed instruction can be read, and a bit number names
/// one of the eight bits.
pub open spec fn prefixed_ok(s: CpuState, i: Instruction) -> bool {
    match i {
        Instruction::RLC(t) => prefix_readable(s, t),
        Instruction::RRC(t) => prefix_readable(s, t),
        Instruction::RL(t) => prefix_readable(s, t),
        Instruction::RR(t) => prefix_readable(s, t),
        Instruction::SLA(t) => prefix_readable(s, t),
        Instruction::SRA(t) => prefix_readable(s, t),
        Instruction::SWAP(t) => prefix_readable(s, t),
        Instruction::SRL(t) => prefix_readable(s, t),
        Instruction::BIT(b, t) => b < 8 && prefix_readable(s, t),
        Instruction::RES(b, t) => b < 8 && prefix_readable(s, t),
        Instruction::SET(b, t) => b < 8 && prefix_readable(s, t),
        _ => true,
    }
}

/// The inputs on which executing an instruction stays within what can be
/// read and within the defined bit numbers.
pub open spec fn can_execute(s: CpuState, i: Instruction) -> bool {
    &&& arithmetic_ok(s, i)
    &&& inc_dec_ok(s, i)
    &&& load_ok(s, i)
    &&& control_ok(s, i)
    &&& prefixed_ok(s, i)
}

/// The instructions of the 0xCB table: rotations, shifts and bit operations
/// on a register or on the byte at HL.
pub open spec fn is_prefixed(i: Instruction) -> bool {
    ||| i is RLC
    ||| i is RRC
    ||| i is RL
    ||| i is RR
    ||| i is SLA
    ||| i is SRA
    ||| i is SWAP
    ||| i is SRL
    ||| i is BIT
    ||| i is RES
    ||| i is SET
}

/// The effect of a prefixed rotation or shift with the given result and carry.
pub open spec fn shift_result(s: CpuState, t: PrefixTarget, rc: (u8, bool)) -> (CpuState, u16) {
    (with_prefix_target(s.with_flags(shift_flags(rc.0, rc.1)), t, rc.0), addr_add(s.pc, 2))
}

/// The effect of an arithmetic instruction on A and the flags.
pub open spec fn alu_result(s: CpuState, t: ArithmeticTarget, rf: (u8, FlagsRegister)) -> (
    CpuState,
    u16,
) {
    (s.with_a_f(rf.0, rf.1), addr_add(s.pc, t.length() as int))
}

/// Arithmetic and logic on A: ADD, ADC, SUB, SBC, AND, OR, XOR and CP.
pub open spec fn arithmetic_spec(s: CpuState, i: Instruction) -> (CpuState, u16) {
    let a = s.regs.a;
    let f = s.regs.f;
    match i {
        Instruction::ADD(t) => alu_result(s, t, add8(a, arithmetic_value(s, t), false)),
        Instruction::ADC(t) => alu_result(s, t, add8(a, arithmetic_value(s, t), f.carry)),
        Instruction::SUB(t) => alu_result(s, t, sub8(a, arithmetic_value(s, t), false)),
        Instruction::SBC(t) => alu_result(s, t, sub8(a, arithmetic_value(s, t), f.carry)),
        Instruction::AND(t) => {
            let r = a & arithmetic_value(s, t);
            alu_result(s, t, (r, logic_flags(r, true)))
        },
        Instruction::OR(t) => {
            let r = a | arithmetic_value(s, t);
            alu_result(s, t, (r, logic_flags(r, false)))
        },
        Instruction::XOR(t) => {
            let r = a ^ arithmetic_value(s, t);
            alu_result(s, t, (r, logic_flags(r, false)))
        },
        Instruction::CP(t) => alu_result(s, t, (a, sub8(a, arithmetic_value(s, t), false).1)),
        _ => (s, s.pc),
    }
}

/// Increments and decrements, of eight and of sixteen bits, and ADD HL.
pub open spec fn inc_dec_spec(s: CpuState, i: Instruction) -> (CpuState, u16) {
    let f = s.regs.f;
    let next = addr_add(s.pc, 1);
    match i {
        Instruction::INC(t) => {
            let rf = inc8(inc_dec_value(s, t), f);
            (with_inc_dec_target(s.with_flags(rf.1), t, rf.0), next)
        },
        Instruction::DEC(t) => {
            let rf = dec8(inc_dec_value(s, t), f);
            (with_inc_dec_target(s.with_flags(rf.1), t, rf.0), next)
        },
        Instruction::ADDHL(t) => {
            let rf = add16(s.regs.hl(), hl_operand(s, t), f);
            (s.with_regs(Registers { f: rf.1, ..s.regs }.with_hl(rf.0)), next)
        },
        Instruction::INC16(t) => (with_pair(s, t, addr_add(pair_value(s, t), 1)), next),
        Instruction::DEC16(t) => (with_pair(s, t, addr_add(pair_value(s, t), -1)), next),
        _ => (s, s.pc),
    }
}

/// The one-byte operations on A and the flags: rotations of A, CPL, SCF, CCF, DAA.
pub open spec fn accumulator_spec(s: CpuState, i: Instruction) -> (CpuState, u16) {
    let a = s.regs.a;
    let f = s.regs.f;
    let next = addr_add(s.pc, 1);
    match i {
        Instruction::RLCA => (s.with_a_f(rotate_left(a).0, rotate_a_flags(rotate_left(a).1)), next),
        Instruction::RRCA => (
            s.with_a_f(rotate_right(a).0, rotate_a_flags(rotate_right(a).1)),
            next,
        ),
        Instruction::RLA => (
            s.with_a_f(
                rotate_left_carry(a, f.carry).0,
                rotate_a_flags(rotate_left_carry(a, f.carry).1),
            ),
            next,
        ),
        Instruction::RRA => (
            s.with_a_f(
                rotate_right_carry(a, f.carry).0,
                rotate_a_flags(rotate_right_carry(a, f.carry).1),
            ),
            next,
        ),
        Instruction::CPL => (
            s.with_a_f((255 - a) as u8, FlagsRegister { subtract: true, half_carry: true, ..f }),
            next,
        ),
        Instruction::SCF => (
            s.with_flags(FlagsRegister { subtract: false, half_carry: false, carry: true, ..f }),
            next,
        ),
        Instruction::CCF => (
            s.with_flags(
                FlagsRegister { subtract: false, half_carry: false, carry: !f.carry, ..f },
            ),
            next,
        ),
        Instruction::DAA => (s.with_a_f(daa(a, f).0, daa(a, f).1), next),
        _ => (s, s.pc),
    }
}

/// Loads: byte and word loads, ADD SP,e and LD HL,SP+e.
pub open spec fn load_spec(s: CpuState, i: Instruction) -> (CpuState, u16) {
    match i {
        Instruction::LD(LoadType::Byte(t, src)) => {
            let sv = load_source(s, src);
            (load_target(sv.0, t, sv.1), addr_add(s.pc, byte_load_length(t, src) as int))
        },
        Instruction::LD(LoadType::Word(t, src)) => (
            word_target(s, t, word_source(s, src)),
            addr_add(s.pc, word_load_length(t, src) as int),
        ),
        Instruction::ADDSP => {
            let off = s.next_byte();
            (
                CpuState {
                    sp: addr_add(s.sp, signed_byte(off)),
                    ..s.with_flags(sp_offset_flags(s.sp, off))
                },
                addr_add(s.pc, 2),
            )
        },
        Instruction::LDHLSP => {
            let off = s.next_byte();
            let s1 = s.with_flags(sp_offset_flags(s.sp, off));
            (s1.with_regs(s1.regs.with_hl(addr_add(s.sp, signed_byte(off)))), addr_add(s.pc, 2))
        },
        _ => (s, s.pc),
    }
}

/// Jumps, calls, returns, the stack, and the control instructions.
pub open spec fn control_spec(s: CpuState, i: Instruction) -> (CpuState, u16) {
    let f = s.regs.f;
    let next = addr_add(s.pc, 1);
    match i {
        Instruction::JP(test) => (
            s,
            if condition(f, test) {
                s.next_word()
            } else {
                addr_add(s.pc, 3)
            },
        ),
        Instruction::JPHL => (s, s.regs.hl()),
        Instruction::JR(test) => (
            s,
            if condition(f, test) {
                addr_add(s.pc, 2 + signed_byte(s.next_byte()))
            } else {
                addr_add(s.pc, 2)
            },
        ),
        Instruction::PUSH(t) => (s.push(stack_value(s, t)), next),
        Instruction::POP(t) => (with_stack_target(s.pop().0, t, s.pop().1), next),
        Instruction::CALL(test) => if condition(f, test) {
            let s1 = s.push(addr_add(s.pc, 3));
            (s1, s1.next_word())
        } else {
            (s, addr_add(s.pc, 3))
        },
        Instruction::RET(test) => if condition(f, test) {
            s.pop()
        } else {
            (s, next)
        },
        Instruction::RETI => CpuState { ime: true, ..s }.pop(),
        Instruction::RST(target) => (s.push(next), target),
        Instruction::NOP => (s, next),
        Instruction::STOP => (s, addr_add(s.pc, 2)),
        Instruction::HALT => (CpuState { halted: true, ..s }, next),
        Instruction::DI => (CpuState { ime: false, ..s }, next),
        Instruction::EI => (CpuState { ime: true, ..s }, next),
        _ => (s, s.pc),
    }
}

/// The 0xCB table: rotations, shifts and bit operations.
pub open spec fn prefixed_spec(s: CpuState, i: Instruction) -> (CpuState, u16) {
    let f = s.regs.f;
    match i {
        Instruction::RLC(t) => shift_result(s, t, rotate_left(prefix_value(s, t))),
        Instruction::RRC(t) => shift_result(s, t, rotate_right(prefix_value(s, t))),
        Instruction::RL(t) => shift_result(s, t, rotate_left_carry(prefix_value(s, t), f.carry)),
        Instruction::RR(t) => shift_result(s, t, rotate_right_carry(prefix_value(s, t), f.carry)),
        Instruction::SLA(t) => shift_result(s, t, shift_left(prefix_value(s, t))),
        Instruction::SRA(t) => shift_result(s, t, shift_right_arithmetic(prefix_value(s, t))),
        Instruction::SWAP(t) => shift_result(s, t, (swap_nibbles(prefix_value(s, t)), false)),
        Instruction::SRL(t) => shift_result(s, t, shift_right_logical(prefix_value(s, t))),
        Instruction::BIT(b, t) => (
            s.with_flags(
                FlagsRegister {
                    zero: prefix_value(s, t) & (1u8 << b) == 0,
                    subtract: false,
                    half_carry: true,
                    ..f
                },
            ),
            addr_add(s.pc, 2),
        ),
        Instruction::RES(b, t) => (
            with_prefix_target(s, t, prefix_value(s, t) & !(1u8 << b)),
            addr_add(s.pc, 2),
        ),
        Instruction::SET(b, t) => (
            with_prefix_target(s, t, prefix_value(s, t) | (1u8 << b)),
            addr_add(s.pc, 2),
        ),
        _ => (s, s.pc),
    }
}

/// What executing an instruction does: the state afterwards (with PC not yet
/// moved) and the address of the next instruction.
pub open spec fn execute_spec(s: CpuState, i: Instruction) -> (CpuState, u16) {
    if is_prefixed(i) {
        prefixed_spec(s, i)
    } else if i is ADD || i is ADC || i is SUB || i is SBC || i is AND || i is OR || i is XOR
        || i is CP {
        arithmetic_spec(s, i)
    } else if i is INC || i is DEC || i is ADDHL || i is INC16 || i is DEC16 {
        inc_dec_spec(s, i)
    } else if i is RLCA || i is RRCA || i is RLA || i is RRA || i is CPL || i is SCF || i is CCF
        || i is DAA {
        accumulator_spec(s, i)
    } else if i is LD || i is ADDSP || i is LDHLSP {
        load_spec(s, i)
    } else {
        control_spec(s, i)
    }
}

/// The interrupt requests that are both enabled (IE, 0xFFFF) and flagged
/// (IF, 0xFF0F); only the low five bits name interrupts.
pub open spec fn pending_interrupts(s: CpuState) -> u8 {
    s.read(0xFFFF) & s.read(0xFF0F) & 0x1F
}

pub open spec fn has_bit(p: u8, b: u8) -> bool {
    p & (1u8 << b) != 0
}

/// The pending interrupt of highest priority: the lowest set bit.
pub open spec fn lowest_pending(p: u8) -> u8 {
    if has_bit(p, 0) {
        0
    } else if has_bit(p, 1) {
        1
    } else if has_bit(p, 2) {
        2
    } else if has_bit(p, 3) {
        3
    } else {
        4
    }
}

/// Interrupt dispatch before an instruction: any pending interrupt wakes a
/// halted CPU; with IME set, the one of highest priority is acknowledged in IF,
/// IME is cleared, PC is pushed and execution moves to its vector 0x40 + 8 * bit.
pub open spec fn interrupt_spec(s: CpuState) -> CpuState {
    if !s.ime && !s.halted {
        s
    } else if pending_interrupts(s) == 0 {
        s
    } else if !s.ime {
        CpuState { halted: false, ..s }
    } else {
        let bit = lowest_pending(pending_interrupts(s));
        let s1 = CpuState { halted: false, ime: false, ..s }.write(
            0xFF0F,
            s.read(0xFF0F) & !(1u8 << bit),
        );
        CpuState { pc: (0x40 + 8 * bit) as u16, ..s1.push(s.pc) }
    }
}

/// The opcode at PC is read without the prefix (0xCB), which no opcode table
/// here decodes.
pub open spec fn fetched(s: CpuState) -> Option<Instruction> {
    decode(s.read(s.pc), false)
}

/// The inputs on which a step completes: after interrupt dispatch the CPU is
/// halted, or it finds a known opcode that it can execute.
pub open spec fn can_step(s: CpuState) -> bool {
    let s1 = interrupt_spec(s);
    !s1.halted ==> {
        &&& s1.readable(s1.pc)
        &&& fetched(s1) is Some
        &&& can_execute(s1, fetched(s1).unwrap())
    }
}

/// One step of the machine: interrupt dispatch, then, unless halted, the
/// instruction at PC, with PC moved to the next one.
pub open spec fn step_spec(s: CpuState) -> CpuState {
    let s1 = interrupt_spec(s);
    if s1.halted {
        s1
    } else {
        let r = execute_spec(s1, fetched(s1).unwrap());
        CpuState { pc: r.1, ..r.0 }
    }
}

} // verus!
