use vstd::prelude::*;

use crate::flags::FlagsRegister;
use crate::instruction::Instruction;
use crate::memory::{BusView, MemoryBus};
use crate::registers::Registers;
use crate::semantics::{
    can_execute, can_step, execute_spec, has_bit, interrupt_spec, lowest_pending,
    pending_interrupts, step_spec, CpuState,
};

verus! {

/// The CPU: its registers, the program counter and stack pointer, the memory
/// bus and the interrupt state.
pub struct Cpu {
    pub registers: Registers,
    pub pc: u16,
    pub sp: u16,
    pub bus: MemoryBus,
    pub interrupt_master_enable: bool,
    pub halted: bool,
}

impl View for Cpu {
    type V = CpuState;

    open spec fn view(&self) -> CpuState {
        CpuState {
            regs: self.registers,
            pc: self.pc,
            sp: self.sp,
            bus: self.bus@,
            ime: self.interrupt_master_enable,
            halted: self.halted,
        }
    }
}

impl Cpu {
    /// A CPU as the boot ROM leaves it: PC at the cartridge entry point 0x0100,
    /// SP at 0xFFFE, interrupts enabled, with a blank ROM and cleared RAM.
    pub fn new() -> (r: Self)
        ensures
            r.registers == (Registers {
                a: 0,
                b: 0,
                c: 0,
                d: 0,
                e: 0,
                f: FlagsRegister { zero: false, subtract: false, half_carry: false, carry: false },
                h: 0,
                l: 0,
            }),
            r.pc == 0x0100,
            r.sp == 0xFFFE,
            r.interrupt_master_enable,
            !r.halted,
            r@.bus.wf(),
            r@.bus.rom == Seq::new(0x8000, |i: int| 0u8),
            forall|a: u16| #[trigger]
                r@.read(a) == if 0xFEA0 <= a <= 0xFEFF {
                    0xFFu8
                } else {
                    0u8
                },
    {
        let cpu = Cpu {
            registers: Registers::new(),
            // Start at the cartridge entry point: there is no boot ROM.
            pc: 0x0100,
            // The stack pointer as the boot ROM leaves it.
            sp: 0xFFFE,
            bus: MemoryBus::new(),
            interrupt_master_enable: true,
            halted: false,
        };
        cpu
    }

    /// Replaces the cartridge ROM; nothing else changes.
    pub fn load_rom(&mut self, data: Vec<u8>)
        ensures
            final(self)@ == (CpuState {
                bus: BusView { rom: data@, ..old(self)@.bus },
                ..old(self)@
            }),
    {
        self.bus.load_rom(data);
    }

}

impl Cpu {
    /// Executes one decoded instruction: changes registers, flags, memory and
    /// SP as the instruction says and returns the address of the next
    /// instruction; PC itself is left for the caller to move.
    pub fn execute(&mut self, instruction: Instruction) -> (r: u16)
        requires
            can_execute(old(self)@, instruction),
        ensures
            (final(self)@, r) == execute_spec(old(self)@, instruction),
    {
        match instruction {
            Instruction::ADD(_) | Instruction::ADC(_) | Instruction::SUB(_) | Instruction::SBC(_)
            | Instruction::AND(_) | Instruction::OR(_) | Instruction::XOR(_)
            | Instruction::CP(_) => self.execute_arithmetic(instruction),
            Instruction::INC(_) | Instruction::DEC(_) | Instruction::ADDHL(_)
            | Instruction::INC16(_) | Instruction::DEC16(_) => self.execute_inc_dec(instruction),
            Instruction::RLCA | Instruction::RRCA | Instruction::RLA | Instruction::RRA
            | Instruction::CPL | Instruction::SCF | Instruction::CCF
            | Instruction::DAA => self.execute_accumulator(instruction),
            Instruction::LD(_) | Instruction::ADDSP | Instruction::LDHLSP => self.execute_load(
                instruction,
            ),
            Instruction::RLC(_) | Instruction::RRC(_) | Instruction::RL(_) | Instruction::RR(_)
            | Instruction::SLA(_) | Instruction::SRA(_) | Instruction::SWAP(_)
            | Instruction::SRL(_) | Instruction::BIT(_, _) | Instruction::RES(_, _)
            | Instruction::SET(_, _) => self.execute_prefixed(instruction),
            _ => self.execute_control(instruction),
        }
    }
}

proof fn lemma_pending_has_bit(p: u8)
    by (bit_vector)
    requires
        p & 0x1Fu8 == p,
        p != 0,
    ensures
        p & (1u8 << 0u8) != 0 || p & (1u8 << 1u8) != 0 || p & (1u8 << 2u8) != 0 || p & (1u8
            << 3u8) != 0 || p & (1u8 << 4u8) != 0,
{
}

proof fn lemma_mask_pending(ie: u8, iflag: u8)
    by (bit_vector)
    ensures
        (ie & iflag & 0x1Fu8) & 0x1Fu8 == ie & iflag & 0x1Fu8,
{
}

impl Cpu {
    /// Reads the opcode at PC. A 0xCB prefix is followed by the opcode of the
    /// prefixed table, which is returned with `true`.
    pub fn fetch(&self) -> (r: (u8, bool))
        requires
            self@.readable(self.pc),
            self@.read(self.pc) == 0xCB ==> self.pc < 0xFFFF && self@.readable(
                (self.pc + 1) as u16,
            ),
        ensures
            r == if self@.read(self.pc) == 0xCB {
                (self@.read((self.pc + 1) as u16), true)
            } else {
                (self@.read(self.pc), false)
            },
    {
        let mut instruction_byte: u8 = self.bus.read_byte(self.pc);
        let prefixed: bool = instruction_byte == 0xCB;
        if prefixed {
            instruction_byte = self.bus.read_byte(self.pc + 1);
        }
        (instruction_byte, prefixed)
    }

    /// Dispatches a pending interrupt, as `interrupt_spec` describes.
    fn handle_interrupts(&mut self)
        ensures
            final(self)@ == interrupt_spec(old(self)@),
    {
        if !self.interrupt_master_enable && !self.halted {
            return ;
        }
        let interrupt_enable: u8 = self.bus.read_byte(0xFFFF);
        let interrupt_flag: u8 = self.bus.read_byte(0xFF0F);
        // Only the bottom five bits name interrupts.
        let pending: u8 = interrupt_enable & interrupt_flag & 0x1F;
        if pending != 0 {
            // Any pending interrupt wakes the CPU, even with IME clear.
            self.halted = false;
            if self.interrupt_master_enable {
                proof {
                    lemma_mask_pending(interrupt_enable, interrupt_flag);
                    lemma_pending_has_bit(pending);
                }
                // The lowest pending bit has the highest priority.
                let mut bit: u8 = 0;
                while bit < 5 && (pending & (1 << bit)) == 0
                    invariant
                        bit <= 5,
                        pending == pending_interrupts(old(self)@),
                        forall|b: u8| b < bit ==> !has_bit(pending, b),
                        has_bit(pending, 0) || has_bit(pending, 1) || has_bit(pending, 2)
                            || has_bit(pending, 3) || has_bit(pending, 4),
                    decreases 5 - bit,
                {
                    bit = bit + 1;
                }
                assert(bit < 5);
                assert(bit == lowest_pending(pending));
                self.interrupt_master_enable = false;
                self.bus.write_byte(0xFF0F, interrupt_flag & !(1 << bit));
                let pc: u16 = self.pc;
                self.push(pc);
                self.pc = 0x0040 + 8 * (bit as u16);
            }
        }
    }

    /// One step: interrupt dispatch, then, unless the CPU is halted, the
    /// instruction at PC is fetched, decoded and executed, and PC moves on.
    pub fn step(&mut self)
        requires
            can_step(old(self)@),
        ensures
            final(self)@ == step_spec(old(self)@),
    {
        self.handle_interrupts();
        if self.halted {
            return ;
        }
        let (instruction_byte, prefixed) = self.fetch();
        let instruction: Instruction = Instruction::from_byte(instruction_byte, prefixed).unwrap();
        let next_pc: u16 = self.execute(instruction);
        self.pc = next_pc;
    }
}

} // verus!
