use vstd::prelude::*;

use crate::alu::{lemma_addr_add, 
    lemma_byte_carry_bits, lemma_byte_carry_high, lemma_byte_shifts, rotate_left,
    rotate_left_carry, rotate_right, rotate_right_carry, shift_flags, shift_left,
    shift_right_arithmetic, shift_right_logical, swap_nibbles,
};
use crate::cpu::Cpu;
use crate::instruction::{Instruction, PrefixTarget};
use crate::semantics::{
    is_prefixed, prefixed_ok, prefixed_spec, with_prefix_target,
};

verus! {

/// The 0xCB table.
impl Cpu {
    /// Stores the result of a rotation or shift with its flags.
    fn store_shifted(&mut self, target: &PrefixTarget, result: u8, carry: bool)
        ensures
            final(self)@ == with_prefix_target(
                old(self)@.with_flags(shift_flags(result, carry)),
                *target,
                result,
            ),
    {
        self.registers.f.zero = result == 0;
        self.registers.f.subtract = false;
        self.registers.f.half_carry = false;
        self.registers.f.carry = carry;
        self.write_prefix_target(target, result);
    }

    fn rotate_shift(&mut self, instruction: Instruction) -> (r: u16)
        requires
            instruction is RLC || instruction is RRC || instruction is RL || instruction is RR
                || instruction is SLA || instruction is SRA || instruction is SWAP
                || instruction is SRL,
            prefixed_ok(old(self)@, instruction),
        ensures
            (final(self)@, r) == prefixed_spec(old(self)@, instruction),
    {
        proof {
            lemma_addr_add(self.pc, 2);
        }
        let carry_in: u8 = if self.registers.f.carry { 1 } else { 0 };
        match instruction {
            Instruction::RLC(target) => {
                let value: u8 = self.read_prefix_target(&target);
                let carry: u8 = (value & 0x80) >> 7;
                proof {
                    lemma_byte_shifts(value);
                    lemma_byte_carry_bits(value, carry);
                }
                let result: u8 = (value << 1) | carry;
                assert((result, carry == 1) == rotate_left(value));
                self.store_shifted(&target, result, carry == 1);
            },
            Instruction::RRC(target) => {
                let value: u8 = self.read_prefix_target(&target);
                let carry: u8 = value & 0x01;
                proof {
                    lemma_byte_shifts(value);
                    lemma_byte_carry_high(value, carry);
                }
                let result: u8 = (value >> 1) | (carry << 7);
                assert((result, carry == 1) == rotate_right(value));
                self.store_shifted(&target, result, carry == 1);
            },
            Instruction::RL(target) => {
                let value: u8 = self.read_prefix_target(&target);
                let new_carry: u8 = (value & 0x80) >> 7;
                proof {
                    lemma_byte_shifts(value);
                    lemma_byte_carry_bits(value, carry_in);
                }
                let result: u8 = (value << 1) | carry_in;
                assert((result, new_carry == 1) == rotate_left_carry(
                    value,
                    self.registers.f.carry,
                ));
                self.store_shifted(&target, result, new_carry == 1);
            },
            Instruction::RR(target) => {
                let value: u8 = self.read_prefix_target(&target);
                let new_carry: u8 = value & 0x01;
                proof {
                    lemma_byte_shifts(value);
                    lemma_byte_carry_high(value, carry_in);
                }
                let result: u8 = (value >> 1) | (carry_in << 7);
                assert((result, new_carry == 1) == rotate_right_carry(
                    value,
                    self.registers.f.carry,
                ));
                self.store_shifted(&target, result, new_carry == 1);
            },
            Instruction::SLA(target) => {
                let value: u8 = self.read_prefix_target(&target);
                let carry: u8 = (value & 0x80) >> 7;
                proof {
                    lemma_byte_shifts(value);
                }
                let result: u8 = value << 1;
                assert((result, carry == 1) == shift_left(value));
                self.store_shifted(&target, result, carry == 1);
            },
            Instruction::SRA(target) => {
                let value: u8 = self.read_prefix_target(&target);
                let carry: u8 = value & 0x01;
                proof {
                    lemma_byte_shifts(value);
                }
                // Bit 7 stays as it was.
                let result: u8 = (value >> 1) | (value & 0x80);
                assert((result, carry == 1) == shift_right_arithmetic(value));
                self.store_shifted(&target, result, carry == 1);
            },
            Instruction::SWAP(target) => {
                let value: u8 = self.read_prefix_target(&target);
                proof {
                    lemma_byte_shifts(value);
                }
                let result: u8 = (value << 4) | (value >> 4);
                assert(result == swap_nibbles(value));
                self.store_shifted(&target, result, false);
            },
            Instruction::SRL(target) => {
                let value: u8 = self.read_prefix_target(&target);
                let carry: u8 = value & 0x01;
                proof {
                    lemma_byte_shifts(value);
                }
                let result: u8 = value >> 1;
                assert((result, carry == 1) == shift_right_logical(value));
                self.store_shifted(&target, result, carry == 1);
            },
            _ => {},
        }
        self.pc.wrapping_add(2)
    }

    pub(crate) fn execute_prefixed(&mut self, instruction: Instruction) -> (r: u16)
        requires
            is_prefixed(instruction),
            prefixed_ok(old(self)@, instruction),
        ensures
            (final(self)@, r) == prefixed_spec(old(self)@, instruction),
    {
        proof {
            lemma_addr_add(self.pc, 2);
        }
        match instruction {
            Instruction::BIT(bit, target) => {
                let value: u8 = self.read_prefix_target(&target);
                self.registers.f.zero = (value & (1 << bit)) == 0;
                self.registers.f.subtract = false;
                self.registers.f.half_carry = true;
                // The carry flag is left as it was.
                self.pc.wrapping_add(2)
            },
            Instruction::RES(bit, target) => {
                let value: u8 = self.read_prefix_target(&target);
                let result: u8 = value & !(1 << bit);
                self.write_prefix_target(&target, result);
                self.pc.wrapping_add(2)
            },
            Instruction::SET(bit, target) => {
                let value: u8 = self.read_prefix_target(&target);
                let result: u8 = value | (1 << bit);
                self.write_prefix_target(&target, result);
                self.pc.wrapping_add(2)
            },
            _ => self.rotate_shift(instruction),
        }
    }
}

} // verus!
