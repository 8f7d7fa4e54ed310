use vstd::prelude::*;

use crate::alu::{
    add16, add8, addr_add, dec8, inc8, lemma_byte_bits, lemma_word_bits, logic_flags, sub8,
};
use crate::cpu::Cpu;
use crate::instruction::{ArithmeticTarget, PrefixTarget};
use crate::registers::{lemma_join_word, lemma_split_word, Registers};
use crate::semantics::{
    arithmetic_readable, arithmetic_value, prefix_readable, prefix_value, with_prefix_target,
};

verus! {

broadcast use crate::memory::lemma_write_keeps_rom;

/// The operations that instructions are built from.
impl Cpu {
    pub(crate) fn read_next_byte(&self) -> (r: u8)
        requires
            self@.next_byte_readable(),
        ensures
            r == self@.next_byte(),
    {
        self.bus.read_byte(self.pc.wrapping_add(1))
    }

    pub(crate) fn read_next_word(&self) -> (r: u16)
        requires
            self@.next_word_readable(),
        ensures
            r == self@.next_word(),
    {
        // Little endian: PC + 1 holds the low byte, PC + 2 the high byte.
        let lsb: u16 = self.bus.read_byte(self.pc.wrapping_add(1)) as u16;
        let msb: u16 = self.bus.read_byte(self.pc.wrapping_add(2)) as u16;
        proof {
            lemma_join_word(msb as u8, lsb as u8);
        }
        (msb << 8) | lsb
    }

    pub(crate) fn add(&mut self, val: u8) -> (r: u8)
        ensures
            r == add8(old(self).registers.a, val, false).0,
            final(self)@ == old(self)@.with_flags(add8(old(self).registers.a, val, false).1),
    {
        reveal(add8);
        reveal(sub8);
        let a: u8 = self.registers.a;
        let sum: u16 = a as u16 + val as u16;
        let new_val: u8 = (sum & 0xFF) as u8;
        proof {
            lemma_word_bits(sum);
            lemma_byte_bits(a);
            lemma_byte_bits(val);
        }
        self.registers.f.zero = new_val == 0;
        self.registers.f.subtract = false;
        self.registers.f.carry = sum > 0xFF;
        self.registers.f.half_carry = ((a & 0xF) + (val & 0xF)) > 0xF;
        new_val
    }

    pub(crate) fn add_hl(&mut self, val: u16)
        ensures
            final(self)@ == old(self)@.with_regs(
                Registers {
                    f: add16(old(self).registers.hl(), val, old(self).registers.f).1,
                    ..old(self).registers
                }.with_hl(add16(old(self).registers.hl(), val, old(self).registers.f).0),
            ),
    {
        reveal(add16);
        let hl: u16 = self.registers.get_hl();
        let new_val: u16 = hl.wrapping_add(val);
        proof {
            lemma_word_bits(hl);
            lemma_word_bits(val);
            assert(new_val == add16(hl, val, self.registers.f).0);
        }
        self.registers.f.subtract = false;
        self.registers.f.carry = hl as u32 + val as u32 > 0xFFFF;
        self.registers.f.half_carry = ((hl & 0xFFF) + (val & 0xFFF)) > 0xFFF;
        self.registers.set_hl(new_val);
    }

    pub(crate) fn add_carry(&mut self, val: u8) -> (r: u8)
        ensures
            r == add8(old(self).registers.a, val, old(self).registers.f.carry).0,
            final(self)@ == old(self)@.with_flags(
                add8(old(self).registers.a, val, old(self).registers.f.carry).1,
            ),
    {
        reveal(add8);
        reveal(sub8);
        let a: u8 = self.registers.a;
        let carry: u8 = if self.registers.f.carry { 1 } else { 0 };
        let sum: u16 = a as u16 + val as u16 + carry as u16;
        let new_val: u8 = (sum & 0xFF) as u8;
        proof {
            lemma_word_bits(sum);
            lemma_byte_bits(a);
            lemma_byte_bits(val);
        }
        self.registers.f.zero = new_val == 0;
        self.registers.f.subtract = false;
        self.registers.f.carry = sum > 0xFF;
        self.registers.f.half_carry = ((a & 0xF) + (val & 0xF) + carry) > 0xF;
        new_val
    }

    pub(crate) fn sub(&mut self, val: u8) -> (r: u8)
        ensures
            r == sub8(old(self).registers.a, val, false).0,
            final(self)@ == old(self)@.with_flags(sub8(old(self).registers.a, val, false).1),
    {
        reveal(add8);
        reveal(sub8);
        let a: u8 = self.registers.a;
        let new_val: u8 = a.wrapping_sub(val);
        proof {
            lemma_byte_bits(a);
            lemma_byte_bits(val);
        }
        self.registers.f.zero = new_val == 0;
        self.registers.f.subtract = true;
        self.registers.f.carry = a < val;
        self.registers.f.half_carry = (a & 0xF) < (val & 0xF);
        new_val
    }

    pub(crate) fn sub_carry(&mut self, val: u8) -> (r: u8)
        ensures
            r == sub8(old(self).registers.a, val, old(self).registers.f.carry).0,
            final(self)@ == old(self)@.with_flags(
                sub8(old(self).registers.a, val, old(self).registers.f.carry).1,
            ),
    {
        reveal(add8);
        reveal(sub8);
        let a: u8 = self.registers.a;
        let carry: u8 = if self.registers.f.carry { 1 } else { 0 };
        let sum: u16 = val as u16 + carry as u16;
        let new_val: u8 = if (a as u16) < sum {
            (a as u16 + 256 - sum) as u8
        } else {
            (a as u16 - sum) as u8
        };
        proof {
            lemma_byte_bits(a);
            lemma_byte_bits(val);
            let d: int = a as int - val as int - carry as int;
            assert(carry as int == crate::flags::bit_value(self.registers.f.carry));
            if d < 0 {
                assert(d % 256 == d + 256);
            } else {
                assert(d % 256 == d);
            }
            assert(new_val as int == d % 256);
        }
        self.registers.f.zero = new_val == 0;
        self.registers.f.subtract = true;
        self.registers.f.carry = (a as u16) < sum;
        self.registers.f.half_carry = (a & 0xF) < ((val & 0xF) + carry);
        new_val
    }

    pub(crate) fn and(&mut self, val: u8) -> (r: u8)
        ensures
            r == old(self).registers.a & val,
            final(self)@ == old(self)@.with_flags(logic_flags(r, true)),
    {
        let new_val: u8 = self.registers.a & val;
        self.registers.f.zero = new_val == 0;
        self.registers.f.subtract = false;
        self.registers.f.carry = false;
        self.registers.f.half_carry = true;
        new_val
    }

    pub(crate) fn or(&mut self, val: u8) -> (r: u8)
        ensures
            r == old(self).registers.a | val,
            final(self)@ == old(self)@.with_flags(logic_flags(r, false)),
    {
        let new_val: u8 = self.registers.a | val;
        self.registers.f.zero = new_val == 0;
        self.registers.f.subtract = false;
        self.registers.f.carry = false;
        self.registers.f.half_carry = false;
        new_val
    }

    pub(crate) fn xor(&mut self, val: u8) -> (r: u8)
        ensures
            r == old(self).registers.a ^ val,
            final(self)@ == old(self)@.with_flags(logic_flags(r, false)),
    {
        let new_val: u8 = self.registers.a ^ val;
        self.registers.f.zero = new_val == 0;
        self.registers.f.subtract = false;
        self.registers.f.carry = false;
        self.registers.f.half_carry = false;
        new_val
    }

    pub(crate) fn inc(&mut self, value: u8) -> (r: u8)
        ensures
            r == inc8(value, old(self).registers.f).0,
            final(self)@ == old(self)@.with_flags(inc8(value, old(self).registers.f).1),
    {
        reveal(inc8);
        let new_val: u8 = value.wrapping_add(1);
        proof {
            lemma_byte_bits(value);
        }
        self.registers.f.zero = new_val == 0;
        self.registers.f.subtract = false;
        self.registers.f.half_carry = (value & 0xF) == 0xF;
        new_val
    }

    pub(crate) fn dec(&mut self, value: u8) -> (r: u8)
        ensures
            r == dec8(value, old(self).registers.f).0,
            final(self)@ == old(self)@.with_flags(dec8(value, old(self).registers.f).1),
    {
        reveal(dec8);
        let new_val: u8 = value.wrapping_sub(1);
        proof {
            lemma_byte_bits(value);
        }
        self.registers.f.zero = new_val == 0;
        self.registers.f.subtract = true;
        self.registers.f.half_carry = (value & 0xF) == 0;
        new_val
    }

    pub(crate) fn jump(&self, should_jump: bool) -> (r: u16)
        requires
            should_jump ==> self@.next_word_readable(),
        ensures
            r == if should_jump {
                self@.next_word()
            } else {
                addr_add(self.pc, 3)
            },
    {
        if should_jump {
            let low: u16 = self.bus.read_byte(self.pc.wrapping_add(1)) as u16;
            let high: u16 = self.bus.read_byte(self.pc.wrapping_add(2)) as u16;
            proof {
                lemma_join_word(high as u8, low as u8);
            }
            (high << 8) | low
        } else {
            self.pc.wrapping_add(3)
        }
    }

    pub(crate) fn push(&mut self, value: u16)
        ensures
            final(self)@ == old(self)@.push(value),
    {
        proof {
            lemma_split_word(value);
        }
        self.sp = self.sp.wrapping_sub(1);
        self.bus.write_byte(self.sp, ((value & 0xFF00) >> 8) as u8);
        self.sp = self.sp.wrapping_sub(1);
        self.bus.write_byte(self.sp, (value & 0xFF) as u8);
    }

    pub(crate) fn pop(&mut self) -> (r: u16)
        requires
            old(self)@.stack_readable(),
        ensures
            (final(self)@, r) == old(self)@.pop(),
    {
        let lsb: u16 = self.bus.read_byte(self.sp) as u16;
        self.sp = self.sp.wrapping_add(1);
        let msb: u16 = self.bus.read_byte(self.sp) as u16;
        self.sp = self.sp.wrapping_add(1);
        proof {
            lemma_join_word(msb as u8, lsb as u8);
        }
        (msb << 8) | lsb
    }

    pub(crate) fn call(&mut self, should_jump: bool) -> (r: u16)
        requires
            should_jump ==> old(self)@.next_word_readable(),
        ensures
            (final(self)@, r) == if should_jump {
                (
                    old(self)@.push(addr_add(old(self).pc, 3)),
                    old(self)@.push(addr_add(old(self).pc, 3)).next_word(),
                )
            } else {
                (old(self)@, addr_add(old(self).pc, 3))
            },
    {
        let next_pc: u16 = self.pc.wrapping_add(3);
        if should_jump {
            self.push(next_pc);
            self.read_next_word()
        } else {
            next_pc
        }
    }

    pub(crate) fn return_(&mut self, should_jump: bool) -> (r: u16)
        requires
            should_jump ==> old(self)@.stack_readable(),
        ensures
            (final(self)@, r) == if should_jump {
                old(self)@.pop()
            } else {
                (old(self)@, addr_add(old(self).pc, 1))
            },
    {
        if should_jump {
            self.pop()
        } else {
            // A conditional return is one byte long.
            self.pc.wrapping_add(1)
        }
    }

    pub(crate) fn read_target_value(&self, target: &ArithmeticTarget) -> (r: u8)
        requires
            arithmetic_readable(self@, *target),
        ensures
            r == arithmetic_value(self@, *target),
    {
        reveal(arithmetic_value);
        reveal(arithmetic_readable);
        match target {
            ArithmeticTarget::A => self.registers.a,
            ArithmeticTarget::B => self.registers.b,
            ArithmeticTarget::C => self.registers.c,
            ArithmeticTarget::D => self.registers.d,
            ArithmeticTarget::E => self.registers.e,
            ArithmeticTarget::H => self.registers.h,
            ArithmeticTarget::L => self.registers.l,
            ArithmeticTarget::HLI => self.bus.read_byte(self.registers.get_hl()),
            ArithmeticTarget::D8 => self.read_next_byte(),
        }
    }

    pub(crate) fn read_prefix_target(&self, target: &PrefixTarget) -> (r: u8)
        requires
            prefix_readable(self@, *target),
        ensures
            r == prefix_value(self@, *target),
    {
        match target {
            PrefixTarget::B => self.registers.b,
            PrefixTarget::C => self.registers.c,
            PrefixTarget::D => self.registers.d,
            PrefixTarget::E => self.registers.e,
            PrefixTarget::H => self.registers.h,
            PrefixTarget::L => self.registers.l,
            PrefixTarget::HLI => self.bus.read_byte(self.registers.get_hl()),
            PrefixTarget::A => self.registers.a,
        }
    }

    pub(crate) fn write_prefix_target(&mut self, target: &PrefixTarget, value: u8)
        ensures
            final(self)@ == with_prefix_target(old(self)@, *target, value),
    {
        match target {
            PrefixTarget::B => self.registers.b = value,
            PrefixTarget::C => self.registers.c = value,
            PrefixTarget::D => self.registers.d = value,
            PrefixTarget::E => self.registers.e = value,
            PrefixTarget::H => self.registers.h = value,
            PrefixTarget::L => self.registers.l = value,
            PrefixTarget::HLI => {
                let addr: u16 = self.registers.get_hl();
                self.bus.write_byte(addr, value)
            },
            PrefixTarget::A => self.registers.a = value,
        }
    }
}

} // verus!
