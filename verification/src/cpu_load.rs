use vstd::prelude::*;

use crate::alu::{
    lemma_addr_add, lemma_byte_bits, lemma_sign_extend, lemma_word_bits, signed_byte,
};
use crate::cpu::Cpu;
use crate::instruction::{
    Instruction, LoadByteSource, LoadByteTarget, LoadType, LoadWordSource, LoadWordTarget,
};
use crate::registers::lemma_split_word;
use crate::semantics::{
    byte_load_length, load_ok, load_source, load_source_readable, load_spec, load_target,
    load_target_readable, word_load_length, word_target,
};

verus! {

/// The length in bytes of a byte load.
fn byte_load_increment(target: &LoadByteTarget, source: &LoadByteSource) -> (r: u16)
    ensures
        r == byte_load_length(*target, *source),
{
    match (target, source) {
        (LoadByteTarget::A16I, _) | (_, LoadByteSource::A16I) => 3,
        (LoadByteTarget::HighD8, _) | (_, LoadByteSource::HighD8) => 2,
        (_, LoadByteSource::D8) => 2,
        _ => 1,
    }
}

/// Byte and word loads.
impl Cpu {
    /// Reads the operand of a byte load; the HL+ and HL- forms step HL.
    fn load_byte_source(&mut self, source: LoadByteSource) -> (r: u8)
        requires
            load_source_readable(old(self)@, source),
        ensures
            (final(self)@, r) == load_source(old(self)@, source),
            final(self).pc == old(self).pc,
            final(self)@.bus == old(self)@.bus,
    {
        match source {
            LoadByteSource::A => self.registers.a,
            LoadByteSource::B => self.registers.b,
            LoadByteSource::C => self.registers.c,
            LoadByteSource::D => self.registers.d,
            LoadByteSource::E => self.registers.e,
            LoadByteSource::H => self.registers.h,
            LoadByteSource::L => self.registers.l,
            LoadByteSource::D8 => self.read_next_byte(),
            LoadByteSource::HLI => self.bus.read_byte(self.registers.get_hl()),
            LoadByteSource::BCI => self.bus.read_byte(self.registers.get_bc()),
            LoadByteSource::DEI => self.bus.read_byte(self.registers.get_de()),
            LoadByteSource::HLIPlus => {
                let addr: u16 = self.registers.get_hl();
                self.registers.set_hl(addr.wrapping_add(1));
                self.bus.read_byte(addr)
            },
            LoadByteSource::HLIMinus => {
                let addr: u16 = self.registers.get_hl();
                self.registers.set_hl(addr.wrapping_sub(1));
                self.bus.read_byte(addr)
            },
            LoadByteSource::HighC => {
                proof {
                    lemma_byte_bits(self.registers.c);
                }
                self.bus.read_byte(0xFF00 | (self.registers.c as u16))
            },
            LoadByteSource::HighD8 => {
                let low: u8 = self.read_next_byte();
                proof {
                    lemma_byte_bits(low);
                }
                self.bus.read_byte(0xFF00 | (low as u16))
            },
            LoadByteSource::A16I => {
                let addr: u16 = self.read_next_word();
                self.bus.read_byte(addr)
            },
        }
    }

    /// Stores the result of a byte load.
    fn store_byte_target(&mut self, target: LoadByteTarget, source_value: u8)
        requires
            load_target_readable(old(self)@, target),
        ensures
            final(self)@ == load_target(old(self)@, target, source_value),
    {
        match target {
            LoadByteTarget::A => self.registers.a = source_value,
            LoadByteTarget::B => self.registers.b = source_value,
            LoadByteTarget::C => self.registers.c = source_value,
            LoadByteTarget::D => self.registers.d = source_value,
            LoadByteTarget::E => self.registers.e = source_value,
            LoadByteTarget::H => self.registers.h = source_value,
            LoadByteTarget::L => self.registers.l = source_value,
            LoadByteTarget::HLI => {
                let addr: u16 = self.registers.get_hl();
                self.bus.write_byte(addr, source_value)
            },
            LoadByteTarget::BCI => {
                let addr: u16 = self.registers.get_bc();
                self.bus.write_byte(addr, source_value)
            },
            LoadByteTarget::DEI => {
                let addr: u16 = self.registers.get_de();
                self.bus.write_byte(addr, source_value)
            },
            LoadByteTarget::HLIPlus => {
                let addr: u16 = self.registers.get_hl();
                self.bus.write_byte(addr, source_value);
                self.registers.set_hl(addr.wrapping_add(1));
            },
            LoadByteTarget::HLIMinus => {
                let addr: u16 = self.registers.get_hl();
                self.bus.write_byte(addr, source_value);
                self.registers.set_hl(addr.wrapping_sub(1));
            },
            LoadByteTarget::HighC => {
                proof {
                    lemma_byte_bits(self.registers.c);
                }
                self.bus.write_byte(0xFF00 | (self.registers.c as u16), source_value)
            },
            LoadByteTarget::HighD8 => {
                let offset: u16 = self.read_next_byte() as u16;
                proof {
                    lemma_byte_bits(offset as u8);
                }
                self.bus.write_byte(0xFF00 | offset, source_value);
            },
            LoadByteTarget::A16I => {
                let addr: u16 = self.read_next_word();
                self.bus.write_byte(addr, source_value)
            },
        };
    }

    pub(crate) fn execute_load_byte(
        &mut self,
        target: LoadByteTarget,
        source: LoadByteSource,
    ) -> (r: u16)
        requires
            load_ok(old(self)@, Instruction::LD(LoadType::Byte(target, source))),
        ensures
            (final(self)@, r) == load_spec(
                old(self)@,
                Instruction::LD(LoadType::Byte(target, source)),
            ),
    {
        proof {
            lemma_addr_add(self.pc, 1);
            lemma_addr_add(self.pc, 2);
            lemma_addr_add(self.pc, 3);
        }
        // The length is worked out before the operands are used.
        let pc_inc: u16 = byte_load_increment(&target, &source);
        let source_value: u8 = self.load_byte_source(source);
        self.store_byte_target(target, source_value);
        self.pc.wrapping_add(pc_inc)
    }

    /// Stores the result of a word load; memory takes it little endian.
    fn store_word_target(&mut self, target: LoadWordTarget, source_value: u16)
        requires
            target is A16I ==> old(self)@.next_word_readable(),
        ensures
            final(self)@ == word_target(old(self)@, target, source_value),
    {
        match target {
            LoadWordTarget::BC => self.registers.set_bc(source_value),
            LoadWordTarget::DE => self.registers.set_de(source_value),
            LoadWordTarget::HL => self.registers.set_hl(source_value),
            LoadWordTarget::SP => self.sp = source_value,
            LoadWordTarget::A16I => {
                let addr: u16 = self.read_next_word();
                proof {
                    lemma_split_word(source_value);
                }
                self.bus.write_byte(addr, (source_value & 0xFF) as u8);
                self.bus.write_byte(addr.wrapping_add(1), (source_value >> 8) as u8);
            },
        }
    }

    pub(crate) fn execute_load_word(
        &mut self,
        target: LoadWordTarget,
        source: LoadWordSource,
    ) -> (r: u16)
        requires
            load_ok(old(self)@, Instruction::LD(LoadType::Word(target, source))),
        ensures
            (final(self)@, r) == load_spec(
                old(self)@,
                Instruction::LD(LoadType::Word(target, source)),
            ),
    {
        proof {
            lemma_addr_add(self.pc, 1);
            lemma_addr_add(self.pc, 3);
        }
        let pc_inc: u16 = match (&target, &source) {
            (LoadWordTarget::A16I, _) => 3,
            (_, LoadWordSource::D16) => 3,
            _ => 1,
        };
        assert(pc_inc == word_load_length(target, source));
        let source_value: u16 = match source {
            LoadWordSource::D16 => self.read_next_word(),
            LoadWordSource::SP => self.sp,
            LoadWordSource::HL => self.registers.get_hl(),
        };
        self.store_word_target(target, source_value);
        self.pc.wrapping_add(pc_inc)
    }

    /// Loads, ADD SP,e and LD HL,SP+e.
    pub(crate) fn execute_load(&mut self, instruction: Instruction) -> (r: u16)
        requires
            load_ok(old(self)@, instruction),
        ensures
            (final(self)@, r) == load_spec(old(self)@, instruction),
    {
        proof {
            lemma_addr_add(self.pc, 1);
            lemma_addr_add(self.pc, 2);
            lemma_addr_add(self.pc, 3);
        }
        match instruction {
            Instruction::LD(load_type) => match load_type {
                LoadType::Byte(target, source) => self.execute_load_byte(target, source),
                LoadType::Word(target, source) => self.execute_load_word(target, source),
            },
            Instruction::ADDSP => {
                let offset: u8 = self.read_next_byte();
                let sp: u16 = self.sp;
                proof {
                    lemma_word_bits(sp);
                    lemma_word_bits(offset as u16);
                    lemma_sign_extend(offset);
                    lemma_addr_add(sp, signed_byte(offset));
                }
                self.registers.f.zero = false;
                self.registers.f.subtract = false;
                self.registers.f.half_carry = (sp & 0x0F) + ((offset as u16) & 0x0F) > 0x0F;
                self.registers.f.carry = (sp & 0xFF) + ((offset as u16) & 0xFF) > 0xFF;
                // The offset is a signed byte, sign-extended to sixteen bits.
                self.sp = sp.wrapping_add((offset as i8 as i16) as u16);
                self.pc.wrapping_add(2)
            },
            Instruction::LDHLSP => {
                let offset: u8 = self.read_next_byte();
                let sp: u16 = self.sp;
                proof {
                    lemma_word_bits(sp);
                    lemma_word_bits(offset as u16);
                    lemma_sign_extend(offset);
                    lemma_addr_add(sp, signed_byte(offset));
                }
                self.registers.f.zero = false;
                self.registers.f.subtract = false;
                self.registers.f.half_carry = (sp & 0x0F) + ((offset as u16) & 0x0F) > 0x0F;
                self.registers.f.carry = (sp & 0xFF) + ((offset as u16) & 0xFF) > 0xFF;
                let result: u16 = sp.wrapping_add((offset as i8 as i16) as u16);
                self.registers.set_hl(result);
                self.pc.wrapping_add(2)
            },
            _ => self.pc,
        }
    }
}

} // verus!
