use vstd::prelude::*;

use crate::alu::{lemma_addr_add, lemma_sign_extend};
use crate::cpu::Cpu;
use crate::instruction::{Instruction, JumpTest, StackTarget};
use crate::semantics::{control_ok, control_spec};

verus! {

impl Cpu {
    /// Jumps, calls, returns, the stack and the control instructions.
    pub(crate) fn execute_control(&mut self, instruction: Instruction) -> (r: u16)
        requires
            control_ok(old(self)@, instruction),
        ensures
            (final(self)@, r) == control_spec(old(self)@, instruction),
    {
        proof {
            lemma_addr_add(self.pc, 1);
            lemma_addr_add(self.pc, 2);
            lemma_addr_add(self.pc, 3);
        }
        match instruction {
            Instruction::JP(test) => {
                let jump_condition: bool = match test {
                    JumpTest::NotZero => !self.registers.f.zero,
                    JumpTest::NotCarry => !self.registers.f.carry,
                    JumpTest::Zero => self.registers.f.zero,
                    JumpTest::Carry => self.registers.f.carry,
                    JumpTest::Always => true,
                };
                self.jump(jump_condition)
            },
            Instruction::JPHL => self.registers.get_hl(),
            Instruction::JR(test) => {
                let jump_condition: bool = match test {
                    JumpTest::NotZero => !self.registers.f.zero,
                    JumpTest::NotCarry => !self.registers.f.carry,
                    JumpTest::Zero => self.registers.f.zero,
                    JumpTest::Carry => self.registers.f.carry,
                    JumpTest::Always => true,
                };
                // JR is two bytes long.
                let next_pc: u16 = self.pc.wrapping_add(2);
                if jump_condition {
                    let byte: u8 = self.bus.read_byte(self.pc.wrapping_add(1));
                    proof {
                        lemma_sign_extend(byte);
                    }
                    let offset: i8 = byte as i8;
                    next_pc.wrapping_add(offset as u16)
                } else {
                    next_pc
                }
            },
            Instruction::PUSH(target) => {
                let value: u16 = match target {
                    StackTarget::AF => self.registers.get_af(),
                    StackTarget::BC => self.registers.get_bc(),
                    StackTarget::DE => self.registers.get_de(),
                    StackTarget::HL => self.registers.get_hl(),
                };
                self.push(value);
                self.pc.wrapping_add(1)
            },
            Instruction::POP(target) => {
                let result: u16 = self.pop();
                match target {
                    StackTarget::AF => self.registers.set_af(result),
                    StackTarget::BC => self.registers.set_bc(result),
                    StackTarget::DE => self.registers.set_de(result),
                    StackTarget::HL => self.registers.set_hl(result),
                }
                self.pc.wrapping_add(1)
            },
            Instruction::CALL(test) => {
                let jump_condition: bool = match test {
                    JumpTest::NotZero => !self.registers.f.zero,
                    JumpTest::NotCarry => !self.registers.f.carry,
                    JumpTest::Zero => self.registers.f.zero,
                    JumpTest::Carry => self.registers.f.carry,
                    JumpTest::Always => true,
                };
                self.call(jump_condition)
            },
            Instruction::RET(test) => {
                let jump_condition: bool = match test {
                    JumpTest::NotZero => !self.registers.f.zero,
                    JumpTest::NotCarry => !self.registers.f.carry,
                    JumpTest::Zero => self.registers.f.zero,
                    JumpTest::Carry => self.registers.f.carry,
                    JumpTest::Always => true,
                };
                self.return_(jump_condition)
            },
            Instruction::RETI => {
                self.interrupt_master_enable = true;
                self.return_(true)
            },
            Instruction::RST(address) => {
                let next_pc: u16 = self.pc.wrapping_add(1);
                self.push(next_pc);
                address
            },
            Instruction::NOP => self.pc.wrapping_add(1),
            Instruction::STOP => {
                // STOP swallows the byte that follows it.
                self.pc.wrapping_add(2)
            },
            Instruction::HALT => {
                self.halted = true;
                self.pc.wrapping_add(1)
            },
            Instruction::DI => {
                self.interrupt_master_enable = false;
                self.pc.wrapping_add(1)
            },
            Instruction::EI => {
                // The hardware enables interrupts one instruction late; that
                // delay is not modelled.
                self.interrupt_master_enable = true;
                self.pc.wrapping_add(1)
            },
            _ => self.pc,
        }
    }
}

} // verus!
