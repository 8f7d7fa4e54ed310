use vstd::prelude::*;

use crate::alu::{
    daa, daa_adjust, lemma_addr_add, lemma_byte_bits, lemma_byte_carry_bits,
    lemma_byte_carry_high, lemma_byte_shifts, lemma_daa_bits,
};
use crate::cpu::Cpu;
use crate::instruction::{HLTarget, IncDecTarget, IncDecTarget16, Instruction};
use crate::semantics::{accumulator_spec, arithmetic_ok, arithmetic_spec, inc_dec_ok, inc_dec_spec};

verus! {

/// Increments, decrements and decimal adjustment.
impl Cpu {
    pub(crate) fn execute_inc(&mut self, target: IncDecTarget)
        requires
            inc_dec_ok(old(self)@, Instruction::INC(target)),
        ensures
            final(self)@ == inc_dec_spec(old(self)@, Instruction::INC(target)).0,
    {
        match target {
            IncDecTarget::A => {
                let v: u8 = self.registers.a;
                self.registers.a = self.inc(v);
            },
            IncDecTarget::B => {
                let v: u8 = self.registers.b;
                self.registers.b = self.inc(v);
            },
            IncDecTarget::C => {
                let v: u8 = self.registers.c;
                self.registers.c = self.inc(v);
            },
            IncDecTarget::D => {
                let v: u8 = self.registers.d;
                self.registers.d = self.inc(v);
            },
            IncDecTarget::E => {
                let v: u8 = self.registers.e;
                self.registers.e = self.inc(v);
            },
            IncDecTarget::H => {
                let v: u8 = self.registers.h;
                self.registers.h = self.inc(v);
            },
            IncDecTarget::L => {
                let v: u8 = self.registers.l;
                self.registers.l = self.inc(v);
            },
            IncDecTarget::HLI => {
                let addr: u16 = self.registers.get_hl();
                let value: u8 = self.bus.read_byte(addr);
                let new_val: u8 = self.inc(value);
                self.bus.write_byte(addr, new_val);
            },
        }
    }

    pub(crate) fn execute_dec(&mut self, target: IncDecTarget)
        requires
            inc_dec_ok(old(self)@, Instruction::DEC(target)),
        ensures
            final(self)@ == inc_dec_spec(old(self)@, Instruction::DEC(target)).0,
    {
        match target {
            IncDecTarget::A => {
                let v: u8 = self.registers.a;
                self.registers.a = self.dec(v);
            },
            IncDecTarget::B => {
                let v: u8 = self.registers.b;
                self.registers.b = self.dec(v);
            },
            IncDecTarget::C => {
                let v: u8 = self.registers.c;
                self.registers.c = self.dec(v);
            },
            IncDecTarget::D => {
                let v: u8 = self.registers.d;
                self.registers.d = self.dec(v);
            },
            IncDecTarget::E => {
                let v: u8 = self.registers.e;
                self.registers.e = self.dec(v);
            },
            IncDecTarget::H => {
                let v: u8 = self.registers.h;
                self.registers.h = self.dec(v);
            },
            IncDecTarget::L => {
                let v: u8 = self.registers.l;
                self.registers.l = self.dec(v);
            },
            IncDecTarget::HLI => {
                let addr: u16 = self.registers.get_hl();
                let value: u8 = self.bus.read_byte(addr);
                let new_val: u8 = self.dec(value);
                self.bus.write_byte(addr, new_val);
            },
        }
    }

    pub(crate) fn execute_daa(&mut self)
        ensures
            final(self)@ == old(self)@.with_a_f(
                daa(old(self).registers.a, old(self).registers.f).0,
                daa(old(self).registers.a, old(self).registers.f).1,
            ),
    {
        let mut a: u8 = self.registers.a;
        let mut adjust: u8 = if self.registers.f.carry { 0x60 } else { 0x00 };
        proof {
            lemma_byte_bits(a);
            lemma_daa_bits(adjust);
        }
        if self.registers.f.half_carry {
            adjust |= 0x06;
        }
        if !self.registers.f.subtract {
            proof {
                lemma_daa_bits(adjust);
            }
            if a & 0x0F > 0x09 {
                adjust |= 0x06;
            }
            proof {
                lemma_daa_bits(adjust);
            }
            if a > 0x99 {
                adjust |= 0x60;
            }
            assert(adjust as int == daa_adjust(self.registers.a, self.registers.f));
            a = a.wrapping_add(adjust);
        } else {
            assert(adjust as int == daa_adjust(self.registers.a, self.registers.f));
            a = a.wrapping_sub(adjust);
        }
        self.registers.f.carry = adjust >= 0x60;
        self.registers.f.half_carry = false;
        self.registers.f.zero = a == 0x00;
        self.registers.a = a;
    }

    pub(crate) fn execute_add_hl(&mut self, target: HLTarget)
        ensures
            final(self)@ == inc_dec_spec(old(self)@, Instruction::ADDHL(target)).0,
    {
        let value: u16 = match target {
            HLTarget::BC => self.registers.get_bc(),
            HLTarget::DE => self.registers.get_de(),
            HLTarget::HL => self.registers.get_hl(),
            HLTarget::SP => self.sp,
        };
        self.add_hl(value);
    }

    pub(crate) fn execute_inc16(&mut self, target: IncDecTarget16)
        ensures
            final(self)@ == inc_dec_spec(old(self)@, Instruction::INC16(target)).0,
    {
        match target {
            IncDecTarget16::BC => {
                let v: u16 = self.registers.get_bc();
                proof {
                    lemma_addr_add(v, 1);
                }
                self.registers.set_bc(v.wrapping_add(1))
            },
            IncDecTarget16::DE => {
                let v: u16 = self.registers.get_de();
                proof {
                    lemma_addr_add(v, 1);
                }
                self.registers.set_de(v.wrapping_add(1))
            },
            IncDecTarget16::HL => {
                let v: u16 = self.registers.get_hl();
                proof {
                    lemma_addr_add(v, 1);
                }
                self.registers.set_hl(v.wrapping_add(1))
            },
            IncDecTarget16::SP => {
                proof {
                    lemma_addr_add(self.sp, 1);
                }
                self.sp = self.sp.wrapping_add(1)
            },
        }
    }

    pub(crate) fn execute_dec16(&mut self, target: IncDecTarget16)
        ensures
            final(self)@ == inc_dec_spec(old(self)@, Instruction::DEC16(target)).0,
    {
        match target {
            IncDecTarget16::BC => {
                let v: u16 = self.registers.get_bc();
                proof {
                    lemma_addr_add(v, -1);
                }
                self.registers.set_bc(v.wrapping_sub(1))
            },
            IncDecTarget16::DE => {
                let v: u16 = self.registers.get_de();
                proof {
                    lemma_addr_add(v, -1);
                }
                self.registers.set_de(v.wrapping_sub(1))
            },
            IncDecTarget16::HL => {
                let v: u16 = self.registers.get_hl();
                proof {
                    lemma_addr_add(v, -1);
                }
                self.registers.set_hl(v.wrapping_sub(1))
            },
            IncDecTarget16::SP => {
                proof {
                    lemma_addr_add(self.sp, -1);
                }
                self.sp = self.sp.wrapping_sub(1)
            },
        }
    }

    /// AND, OR and XOR on A.
    pub(crate) fn execute_logic(&mut self, instruction: Instruction) -> (r: u16)
        requires
            instruction is AND || instruction is OR || instruction is XOR,
            arithmetic_ok(old(self)@, instruction),
        ensures
            (final(self)@, r) == arithmetic_spec(old(self)@, instruction),
    {
        proof {
            lemma_addr_add(self.pc, 1);
            lemma_addr_add(self.pc, 2);
        }
        match instruction {
            Instruction::AND(target) => {
                let value: u8 = self.read_target_value(&target);
                self.registers.a = self.and(value);
                self.pc.wrapping_add(target.pc_increment())
            },
            Instruction::OR(target) => {
                let value: u8 = self.read_target_value(&target);
                self.registers.a = self.or(value);
                self.pc.wrapping_add(target.pc_increment())
            },
            Instruction::XOR(target) => {
                let value: u8 = self.read_target_value(&target);
                self.registers.a = self.xor(value);
                self.pc.wrapping_add(target.pc_increment())
            },
            _ => self.pc,
        }
    }

    /// ADD, ADC, SUB, SBC, AND, OR, XOR and CP on A.
    pub(crate) fn execute_arithmetic(&mut self, instruction: Instruction) -> (r: u16)
        requires
            arithmetic_ok(old(self)@, instruction),
        ensures
            (final(self)@, r) == arithmetic_spec(old(self)@, instruction),
    {
        proof {
            lemma_addr_add(self.pc, 1);
            lemma_addr_add(self.pc, 2);
        }
        match instruction {
            Instruction::ADD(target) => {
                let value: u8 = self.read_target_value(&target);
                self.registers.a = self.add(value);
                self.pc.wrapping_add(target.pc_increment())
            },
            Instruction::ADC(target) => {
                let value: u8 = self.read_target_value(&target);
                self.registers.a = self.add_carry(value);
                self.pc.wrapping_add(target.pc_increment())
            },
            Instruction::SUB(target) => {
                let value: u8 = self.read_target_value(&target);
                self.registers.a = self.sub(value);
                self.pc.wrapping_add(target.pc_increment())
            },
            Instruction::SBC(target) => {
                let value: u8 = self.read_target_value(&target);
                self.registers.a = self.sub_carry(value);
                self.pc.wrapping_add(target.pc_increment())
            },
            Instruction::CP(target) => {
                let value: u8 = self.read_target_value(&target);
                // Only the flags of the subtraction are kept.
                self.sub(value);
                self.pc.wrapping_add(target.pc_increment())
            },
            Instruction::AND(_) | Instruction::OR(_) | Instruction::XOR(_) => self.execute_logic(
                instruction,
            ),
            _ => self.pc,
        }
    }

    /// Eight- and sixteen-bit increments and decrements, and ADD HL.
    pub(crate) fn execute_inc_dec(&mut self, instruction: Instruction) -> (r: u16)
        requires
            inc_dec_ok(old(self)@, instruction),
        ensures
            (final(self)@, r) == inc_dec_spec(old(self)@, instruction),
    {
        proof {
            lemma_addr_add(self.pc, 1);
        }
        match instruction {
            Instruction::INC(target) => {
                self.execute_inc(target);
                self.pc.wrapping_add(1)
            },
            Instruction::DEC(target) => {
                self.execute_dec(target);
                self.pc.wrapping_add(1)
            },
            Instruction::ADDHL(target) => {
                self.execute_add_hl(target);
                self.pc.wrapping_add(1)
            },
            Instruction::INC16(target) => {
                self.execute_inc16(target);
                self.pc.wrapping_add(1)
            },
            Instruction::DEC16(target) => {
                self.execute_dec16(target);
                self.pc.wrapping_add(1)
            },
            _ => self.pc,
        }
    }

    /// The rotations of A: RLCA, RRCA, RLA and RRA.
    pub(crate) fn execute_rotate_a(&mut self, instruction: Instruction) -> (r: u16)
        requires
            instruction is RLCA || instruction is RRCA || instruction is RLA || instruction is RRA,
        ensures
            (final(self)@, r) == accumulator_spec(old(self)@, instruction),
    {
        proof {
            lemma_addr_add(self.pc, 1);
        }
        match instruction {
            Instruction::RLCA => {
                let a: u8 = self.registers.a;
                let carry: u8 = (a & 0b1000_0000) >> 7;
                proof {
                    lemma_byte_shifts(a);
                    lemma_byte_carry_bits(a, carry);
                }
                self.registers.a = (a << 1) | carry;
                // RLCA, unlike RLC, always clears the zero flag.
                self.registers.f.zero = false;
                self.registers.f.subtract = false;
                self.registers.f.half_carry = false;
                self.registers.f.carry = carry == 1;
                self.pc.wrapping_add(1)
            },
            Instruction::RRCA => {
                let a: u8 = self.registers.a;
                let carry: u8 = a & 0b0000_0001;
                proof {
                    lemma_byte_shifts(a);
                    lemma_byte_carry_high(a, carry);
                }
                self.registers.a = (a >> 1) | (carry << 7);
                self.registers.f.zero = false;
                self.registers.f.subtract = false;
                self.registers.f.half_carry = false;
                self.registers.f.carry = carry == 1;
                self.pc.wrapping_add(1)
            },
            Instruction::RLA => {
                let a: u8 = self.registers.a;
                let bit7: u8 = (a & 0b1000_0000) >> 7;
                let carry: u8 = if self.registers.f.carry { 1 } else { 0 };
                proof {
                    lemma_byte_shifts(a);
                    lemma_byte_carry_bits(a, carry);
                }
                self.registers.a = (a << 1) | carry;
                self.registers.f.zero = false;
                self.registers.f.subtract = false;
                self.registers.f.half_carry = false;
                self.registers.f.carry = bit7 == 1;
                self.pc.wrapping_add(1)
            },
            Instruction::RRA => {
                let a: u8 = self.registers.a;
                let bit0: u8 = a & 0b0000_0001;
                let carry: u8 = if self.registers.f.carry { 1 } else { 0 };
                proof {
                    lemma_byte_shifts(a);
                    lemma_byte_carry_high(a, carry);
                }
                self.registers.a = (a >> 1) | (carry << 7);
                self.registers.f.zero = false;
                self.registers.f.subtract = false;
                self.registers.f.half_carry = false;
                self.registers.f.carry = bit0 == 1;
                self.pc.wrapping_add(1)
            },
            _ => self.pc,
        }
    }

    /// Rotations of A, CPL, SCF, CCF and DAA.
    pub(crate) fn execute_accumulator(&mut self, instruction: Instruction) -> (r: u16)
        ensures
            (final(self)@, r) == accumulator_spec(old(self)@, instruction),
    {
        proof {
            lemma_addr_add(self.pc, 1);
        }
        match instruction {
            Instruction::CPL => {
                proof {
                    lemma_byte_bits(self.registers.a);
                }
                self.registers.a = !self.registers.a;
                self.registers.f.subtract = true;
                self.registers.f.half_carry = true;
                self.pc.wrapping_add(1)
            },
            Instruction::SCF => {
                self.registers.f.subtract = false;
                self.registers.f.half_carry = false;
                self.registers.f.carry = true;
                self.pc.wrapping_add(1)
            },
            Instruction::CCF => {
                self.registers.f.subtract = false;
                self.registers.f.half_carry = false;
                self.registers.f.carry = !self.registers.f.carry;
                self.pc.wrapping_add(1)
            },
            Instruction::DAA => {
                self.execute_daa();
                self.pc.wrapping_add(1)
            },
            Instruction::RLCA | Instruction::RRCA | Instruction::RLA
            | Instruction::RRA => self.execute_rotate_a(instruction),
            _ => self.pc,
        }
    }
}

} // verus!
