use gameboy::cpu::Cpu;
use gameboy::flags::FlagsRegister;
use gameboy::instruction::{
    ArithmeticTarget, HLTarget, IncDecTarget, IncDecTarget16, Instruction, JumpTest,
    LoadByteSource, LoadByteTarget, LoadType, LoadWordSource, LoadWordTarget, PrefixTarget,
    StackTarget,
};

fn flags(zero: bool, subtract: bool, half_carry: bool, carry: bool) -> FlagsRegister {
    FlagsRegister { zero, subtract, half_carry, carry }
}

/// A CPU whose program, from 0x0100, is `program`.
fn cpu_with(program: &[u8]) -> Cpu {
    let mut cpu = Cpu::new();
    let mut rom = vec![0u8; 0x8000];
    rom[0x0100..0x0100 + program.len()].copy_from_slice(program);
    cpu.load_rom(rom);
    cpu
}

#[test]
fn new_cpu_state() {
    let cpu = Cpu::new();
    assert_eq!(cpu.pc, 0x0100);
    assert_eq!(cpu.sp, 0xFFFE);
    assert!(cpu.interrupt_master_enable);
    assert!(!cpu.halted);
    assert_eq!(cpu.registers.a, 0);
    assert_eq!(cpu.registers.f, flags(false, false, false, false));
    assert_eq!(cpu.bus.read_byte(0x0100), 0);
}

#[test]
fn add_sets_all_flags() {
    let mut cpu = Cpu::new();
    cpu.registers.a = 0x3A;
    cpu.registers.b = 0xC6;
    let next = cpu.execute(Instruction::ADD(ArithmeticTarget::B));
    assert_eq!(next, 0x0101);
    assert_eq!(cpu.pc, 0x0100);
    assert_eq!(cpu.registers.a, 0x00);
    assert_eq!(cpu.registers.f, flags(true, false, true, true));
}

#[test]
fn add_without_carries() {
    let mut cpu = Cpu::new();
    cpu.registers.a = 0x12;
    cpu.registers.c = 0x21;
    cpu.execute(Instruction::ADD(ArithmeticTarget::C));
    assert_eq!(cpu.registers.a, 0x33);
    assert_eq!(cpu.registers.f, flags(false, false, false, false));
}

#[test]
fn add_immediate_reads_next_byte() {
    let mut cpu = cpu_with(&[0xC6, 0x0F]);
    cpu.registers.a = 0x01;
    let next = cpu.execute(Instruction::ADD(ArithmeticTarget::D8));
    assert_eq!(next, 0x0102);
    assert_eq!(cpu.registers.a, 0x10);
    assert_eq!(cpu.registers.f, flags(false, false, true, false));
}

#[test]
fn adc_adds_carry() {
    let mut cpu = Cpu::new();
    cpu.registers.a = 0xE1;
    cpu.registers.e = 0x0F;
    cpu.registers.f.carry = true;
    cpu.execute(Instruction::ADC(ArithmeticTarget::E));
    assert_eq!(cpu.registers.a, 0xF1);
    assert_eq!(cpu.registers.f, flags(false, false, true, false));
    // 0xFF plus the carry wraps a whole byte.
    cpu.registers.a = 0x01;
    cpu.registers.e = 0xFF;
    cpu.registers.f.carry = true;
    cpu.execute(Instruction::ADC(ArithmeticTarget::E));
    assert_eq!(cpu.registers.a, 0x01);
    assert_eq!(cpu.registers.f, flags(false, false, true, true));
}

#[test]
fn sub_and_borrow() {
    let mut cpu = Cpu::new();
    cpu.registers.a = 0x3E;
    cpu.registers.e = 0x3E;
    cpu.execute(Instruction::SUB(ArithmeticTarget::E));
    assert_eq!(cpu.registers.a, 0);
    assert_eq!(cpu.registers.f, flags(true, true, false, false));
    cpu.registers.a = 0x3E;
    cpu.registers.e = 0x40;
    cpu.execute(Instruction::SUB(ArithmeticTarget::E));
    assert_eq!(cpu.registers.a, 0xFE);
    assert_eq!(cpu.registers.f, flags(false, true, false, true));
    cpu.registers.a = 0x30;
    cpu.registers.e = 0x01;
    cpu.execute(Instruction::SUB(ArithmeticTarget::E));
    assert_eq!(cpu.registers.a, 0x2F);
    assert_eq!(cpu.registers.f, flags(false, true, true, false));
}

#[test]
fn sbc_subtracts_carry() {
    let mut cpu = Cpu::new();
    cpu.registers.a = 0x3B;
    cpu.registers.h = 0x2A;
    cpu.registers.f.carry = true;
    cpu.execute(Instruction::SBC(ArithmeticTarget::H));
    assert_eq!(cpu.registers.a, 0x10);
    assert_eq!(cpu.registers.f, flags(false, true, false, false));
    cpu.registers.a = 0x00;
    cpu.registers.h = 0xFF;
    cpu.registers.f.carry = true;
    cpu.execute(Instruction::SBC(ArithmeticTarget::H));
    assert_eq!(cpu.registers.a, 0x00);
    assert_eq!(cpu.registers.f, flags(true, true, true, true));
}

#[test]
fn logic_operations() {
    let mut cpu = Cpu::new();
    cpu.registers.a = 0x5A;
    cpu.registers.l = 0x3F;
    cpu.execute(Instruction::AND(ArithmeticTarget::L));
    assert_eq!(cpu.registers.a, 0x1A);
    assert_eq!(cpu.registers.f, flags(false, false, true, false));
    cpu.registers.a = 0x5A;
    cpu.execute(Instruction::OR(ArithmeticTarget::L));
    assert_eq!(cpu.registers.a, 0x7F);
    assert_eq!(cpu.registers.f, flags(false, false, false, false));
    cpu.execute(Instruction::XOR(ArithmeticTarget::A));
    assert_eq!(cpu.registers.a, 0x00);
    assert_eq!(cpu.registers.f, flags(true, false, false, false));
}

#[test]
fn compare_keeps_a() {
    let mut cpu = Cpu::new();
    cpu.registers.a = 0x3C;
    cpu.registers.b = 0x2F;
    cpu.execute(Instruction::CP(ArithmeticTarget::B));
    assert_eq!(cpu.registers.a, 0x3C);
    assert_eq!(cpu.registers.f, flags(false, true, true, false));
    let mut other = Cpu::new();
    other.registers.a = 0x3C;
    other.registers.b = 0x2F;
    other.execute(Instruction::SUB(ArithmeticTarget::B));
    assert_eq!(other.registers.f, cpu.registers.f);
}

#[test]
fn arithmetic_on_memory_operand() {
    let mut cpu = Cpu::new();
    cpu.registers.set_hl(0xC000);
    cpu.bus.write_byte(0xC000, 0x05);
    cpu.registers.a = 0x03;
    cpu.execute(Instruction::ADD(ArithmeticTarget::HLI));
    assert_eq!(cpu.registers.a, 0x08);
}

#[test]
fn inc_and_dec_keep_carry() {
    let mut cpu = Cpu::new();
    cpu.registers.b = 0x0F;
    cpu.registers.f.carry = true;
    let next = cpu.execute(Instruction::INC(IncDecTarget::B));
    assert_eq!(next, 0x0101);
    assert_eq!(cpu.registers.b, 0x10);
    assert_eq!(cpu.registers.f, flags(false, false, true, true));
    cpu.registers.c = 0x01;
    cpu.execute(Instruction::DEC(IncDecTarget::C));
    assert_eq!(cpu.registers.c, 0x00);
    assert_eq!(cpu.registers.f, flags(true, true, false, true));
    cpu.registers.c = 0x00;
    cpu.execute(Instruction::DEC(IncDecTarget::C));
    assert_eq!(cpu.registers.c, 0xFF);
    assert_eq!(cpu.registers.f, flags(false, true, true, true));
    cpu.registers.a = 0xFF;
    cpu.execute(Instruction::INC(IncDecTarget::A));
    assert_eq!(cpu.registers.a, 0x00);
    assert_eq!(cpu.registers.f, flags(true, false, true, true));
}

#[test]
fn inc_dec_memory_and_inverse() {
    let mut cpu = Cpu::new();
    cpu.registers.set_hl(0xD000);
    cpu.bus.write_byte(0xD000, 0x7F);
    cpu.execute(Instruction::INC(IncDecTarget::HLI));
    assert_eq!(cpu.bus.read_byte(0xD000), 0x80);
    cpu.execute(Instruction::DEC(IncDecTarget::HLI));
    assert_eq!(cpu.bus.read_byte(0xD000), 0x7F);
}

#[test]
fn add_hl_sixteen_bit() {
    let mut cpu = Cpu::new();
    cpu.registers.set_hl(0x8A23);
    cpu.registers.set_bc(0x0605);
    cpu.registers.f.zero = true;
    cpu.execute(Instruction::ADDHL(HLTarget::BC));
    assert_eq!(cpu.registers.get_hl(), 0x9028);
    assert_eq!(cpu.registers.f, flags(true, false, true, false));
    cpu.registers.set_hl(0x8A23);
    cpu.execute(Instruction::ADDHL(HLTarget::HL));
    assert_eq!(cpu.registers.get_hl(), 0x1446);
    assert_eq!(cpu.registers.f, flags(true, false, true, true));
    cpu.registers.set_hl(0x0001);
    cpu.sp = 0xFFFF;
    cpu.execute(Instruction::ADDHL(HLTarget::SP));
    assert_eq!(cpu.registers.get_hl(), 0x0000);
    assert_eq!(cpu.registers.f.carry, true);
}

#[test]
fn sixteen_bit_inc_dec_wrap() {
    let mut cpu = Cpu::new();
    cpu.registers.set_de(0xFFFF);
    cpu.execute(Instruction::INC16(IncDecTarget16::DE));
    assert_eq!(cpu.registers.get_de(), 0x0000);
    cpu.execute(Instruction::DEC16(IncDecTarget16::DE));
    assert_eq!(cpu.registers.get_de(), 0xFFFF);
    cpu.sp = 0x0000;
    cpu.execute(Instruction::DEC16(IncDecTarget16::SP));
    assert_eq!(cpu.sp, 0xFFFF);
    cpu.registers.set_bc(0x00FF);
    cpu.execute(Instruction::INC16(IncDecTarget16::BC));
    assert_eq!(cpu.registers.get_bc(), 0x0100);
    // Sixteen-bit increments leave the flags alone.
    assert_eq!(cpu.registers.f, flags(false, false, false, false));
}

#[test]
fn rotations_of_a() {
    let mut cpu = Cpu::new();
    cpu.registers.a = 0x85;
    cpu.execute(Instruction::RLCA);
    assert_eq!(cpu.registers.a, 0x0B);
    assert_eq!(cpu.registers.f, flags(false, false, false, true));
    cpu.execute(Instruction::RRCA);
    assert_eq!(cpu.registers.a, 0x85);
    assert_eq!(cpu.registers.f, flags(false, false, false, true));
    cpu.registers.a = 0x95;
    cpu.registers.f.carry = true;
    cpu.execute(Instruction::RLA);
    assert_eq!(cpu.registers.a, 0x2B);
    assert_eq!(cpu.registers.f.carry, true);
    cpu.registers.a = 0x81;
    cpu.registers.f.carry = false;
    cpu.execute(Instruction::RRA);
    assert_eq!(cpu.registers.a, 0x40);
    assert_eq!(cpu.registers.f, flags(false, false, false, true));
    // Zero is cleared even for a zero result.
    cpu.registers.a = 0;
    cpu.registers.f.carry = false;
    cpu.execute(Instruction::RLCA);
    assert_eq!(cpu.registers.f.zero, false);
}

#[test]
fn flag_instructions() {
    let mut cpu = Cpu::new();
    cpu.registers.a = 0x35;
    cpu.execute(Instruction::CPL);
    assert_eq!(cpu.registers.a, 0xCA);
    assert_eq!(cpu.registers.f, flags(false, true, true, false));
    cpu.execute(Instruction::SCF);
    assert_eq!(cpu.registers.f, flags(false, false, false, true));
    cpu.execute(Instruction::CCF);
    assert_eq!(cpu.registers.f, flags(false, false, false, false));
    cpu.execute(Instruction::CCF);
    assert_eq!(cpu.registers.f.carry, true);
}

#[test]
fn daa_after_addition_and_subtraction() {
    let mut cpu = Cpu::new();
    cpu.registers.a = 0x45;
    cpu.registers.b = 0x38;
    cpu.execute(Instruction::ADD(ArithmeticTarget::B));
    assert_eq!(cpu.registers.a, 0x7D);
    cpu.execute(Instruction::DAA);
    assert_eq!(cpu.registers.a, 0x83);
    assert_eq!(cpu.registers.f, flags(false, false, false, false));
    cpu.execute(Instruction::SUB(ArithmeticTarget::B));
    assert_eq!(cpu.registers.a, 0x4B);
    cpu.execute(Instruction::DAA);
    assert_eq!(cpu.registers.a, 0x45);
    assert_eq!(cpu.registers.f, flags(false, true, false, false));
    cpu.registers.a = 0x99;
    cpu.registers.b = 0x01;
    cpu.execute(Instruction::ADD(ArithmeticTarget::B));
    cpu.execute(Instruction::DAA);
    assert_eq!(cpu.registers.a, 0x00);
    assert_eq!(cpu.registers.f, flags(true, false, false, true));
}

#[test]
fn jumps() {
    let mut cpu = cpu_with(&[0xC3, 0x34, 0x12]);
    assert_eq!(cpu.execute(Instruction::JP(JumpTest::Always)), 0x1234);
    assert_eq!(cpu.execute(Instruction::JP(JumpTest::Zero)), 0x0103);
    cpu.registers.f.zero = true;
    assert_eq!(cpu.execute(Instruction::JP(JumpTest::Zero)), 0x1234);
    assert_eq!(cpu.execute(Instruction::JP(JumpTest::NotZero)), 0x0103);
    cpu.registers.f.carry = true;
    assert_eq!(cpu.execute(Instruction::JP(JumpTest::Carry)), 0x1234);
    assert_eq!(cpu.execute(Instruction::JP(JumpTest::NotCarry)), 0x0103);
    cpu.registers.set_hl(0x4321);
    assert_eq!(cpu.execute(Instruction::JPHL), 0x4321);
}

#[test]
fn relative_jumps() {
    let mut cpu = cpu_with(&[0x18, 0xFE]);
    // An offset of -2 jumps back onto the instruction itself.
    assert_eq!(cpu.execute(Instruction::JR(JumpTest::Always)), 0x0100);
    let mut cpu = cpu_with(&[0x18, 0x05]);
    assert_eq!(cpu.execute(Instruction::JR(JumpTest::Always)), 0x0107);
    assert_eq!(cpu.execute(Instruction::JR(JumpTest::Carry)), 0x0102);
}

#[test]
fn byte_loads() {
    let mut cpu = cpu_with(&[0x06, 0x77]);
    let next = cpu.execute(Instruction::LD(LoadType::Byte(LoadByteTarget::B, LoadByteSource::D8)));
    assert_eq!(next, 0x0102);
    assert_eq!(cpu.registers.b, 0x77);
    assert_eq!(
        cpu.execute(Instruction::LD(LoadType::Byte(LoadByteTarget::C, LoadByteSource::B))),
        0x0101
    );
    assert_eq!(cpu.registers.c, 0x77);
    cpu.registers.set_hl(0xC100);
    cpu.execute(Instruction::LD(LoadType::Byte(LoadByteTarget::HLIPlus, LoadByteSource::C)));
    assert_eq!(cpu.bus.read_byte(0xC100), 0x77);
    assert_eq!(cpu.registers.get_hl(), 0xC101);
    cpu.registers.set_hl(0xC100);
    cpu.execute(Instruction::LD(LoadType::Byte(LoadByteTarget::A, LoadByteSource::HLIMinus)));
    assert_eq!(cpu.registers.a, 0x77);
    assert_eq!(cpu.registers.get_hl(), 0xC0FF);
    cpu.registers.c = 0x80;
    cpu.execute(Instruction::LD(LoadType::Byte(LoadByteTarget::HighC, LoadByteSource::A)));
    assert_eq!(cpu.bus.read_byte(0xFF80), 0x77);
    cpu.registers.set_de(0xFF80);
    cpu.execute(Instruction::LD(LoadType::Byte(LoadByteTarget::E, LoadByteSource::DEI)));
    assert_eq!(cpu.registers.e, 0x77);
}

#[test]
fn load_lengths() {
    let mut cpu = cpu_with(&[0xEA, 0x00, 0xC0]);
    cpu.registers.a = 0x5C;
    let next = cpu.execute(Instruction::LD(LoadType::Byte(LoadByteTarget::A16I, LoadByteSource::A)));
    assert_eq!(next, 0x0103);
    assert_eq!(cpu.bus.read_byte(0xC000), 0x5C);
    let mut cpu = cpu_with(&[0xE0, 0x90]);
    cpu.registers.a = 0x11;
    let next = cpu.execute(Instruction::LD(LoadType::Byte(LoadByteTarget::HighD8, LoadByteSource::A)));
    assert_eq!(next, 0x0102);
    assert_eq!(cpu.bus.read_byte(0xFF90), 0x11);
    let next = cpu.execute(Instruction::LD(LoadType::Byte(LoadByteTarget::B, LoadByteSource::HighD8)));
    assert_eq!(next, 0x0102);
    assert_eq!(cpu.registers.b, 0x11);
}

#[test]
fn word_loads() {
    let mut cpu = cpu_with(&[0x01, 0xCD, 0xAB]);
    let next = cpu.execute(Instruction::LD(LoadType::Word(LoadWordTarget::BC, LoadWordSource::D16)));
    assert_eq!(next, 0x0103);
    assert_eq!(cpu.registers.get_bc(), 0xABCD);
    cpu.registers.set_hl(0xC0DE);
    assert_eq!(
        cpu.execute(Instruction::LD(LoadType::Word(LoadWordTarget::SP, LoadWordSource::HL))),
        0x0101
    );
    assert_eq!(cpu.sp, 0xC0DE);
    let mut cpu = cpu_with(&[0x08, 0x10, 0xC0]);
    cpu.sp = 0xBEEF;
    let next = cpu.execute(Instruction::LD(LoadType::Word(LoadWordTarget::A16I, LoadWordSource::SP)));
    assert_eq!(next, 0x0103);
    assert_eq!(cpu.bus.read_byte(0xC010), 0xEF);
    assert_eq!(cpu.bus.read_byte(0xC011), 0xBE);
}

#[test]
fn stack_pointer_offsets() {
    let mut cpu = cpu_with(&[0xE8, 0xFE]);
    cpu.sp = 0xFFF8;
    let next = cpu.execute(Instruction::ADDSP);
    assert_eq!(next, 0x0102);
    assert_eq!(cpu.sp, 0xFFF6);
    assert_eq!(cpu.registers.f, flags(false, false, true, true));
    let mut cpu = cpu_with(&[0xF8, 0x02]);
    cpu.sp = 0xFFF8;
    cpu.execute(Instruction::LDHLSP);
    assert_eq!(cpu.registers.get_hl(), 0xFFFA);
    assert_eq!(cpu.sp, 0xFFF8);
    assert_eq!(cpu.registers.f, flags(false, false, false, false));
}

#[test]
fn push_and_pop() {
    let mut cpu = Cpu::new();
    cpu.registers.set_bc(0x1234);
    cpu.execute(Instruction::PUSH(StackTarget::BC));
    assert_eq!(cpu.sp, 0xFFFC);
    assert_eq!(cpu.bus.read_byte(0xFFFD), 0x12);
    assert_eq!(cpu.bus.read_byte(0xFFFC), 0x34);
    cpu.execute(Instruction::POP(StackTarget::DE));
    assert_eq!(cpu.registers.get_de(), 0x1234);
    assert_eq!(cpu.sp, 0xFFFE);
    cpu.registers.set_hl(0x12FF);
    cpu.execute(Instruction::PUSH(StackTarget::HL));
    cpu.execute(Instruction::POP(StackTarget::AF));
    assert_eq!(cpu.registers.get_af(), 0x12F0);
}

#[test]
fn call_and_return() {
    let mut cpu = cpu_with(&[0xCD, 0x00, 0x20]);
    let target = cpu.execute(Instruction::CALL(JumpTest::Always));
    assert_eq!(target, 0x2000);
    assert_eq!(cpu.sp, 0xFFFC);
    cpu.pc = target;
    let back = cpu.execute(Instruction::RET(JumpTest::Always));
    assert_eq!(back, 0x0103);
    assert_eq!(cpu.sp, 0xFFFE);
    cpu.pc = 0x0100;
    assert_eq!(cpu.execute(Instruction::CALL(JumpTest::Zero)), 0x0103);
    assert_eq!(cpu.sp, 0xFFFE);
    assert_eq!(cpu.execute(Instruction::RET(JumpTest::Zero)), 0x0101);
}

#[test]
fn restart_and_interrupt_enable() {
    let mut cpu = Cpu::new();
    assert_eq!(cpu.execute(Instruction::RST(0x0038)), 0x0038);
    assert_eq!(cpu.sp, 0xFFFC);
    cpu.pc = 0x0038;
    cpu.execute(Instruction::DI);
    assert!(!cpu.interrupt_master_enable);
    assert_eq!(cpu.execute(Instruction::RETI), 0x0101);
    assert!(cpu.interrupt_master_enable);
    cpu.execute(Instruction::DI);
    cpu.execute(Instruction::EI);
    assert!(cpu.interrupt_master_enable);
    assert_eq!(cpu.execute(Instruction::NOP), 0x0039);
    assert_eq!(cpu.execute(Instruction::STOP), 0x003A);
}

#[test]
fn prefixed_rotations_and_shifts() {
    let mut cpu = Cpu::new();
    cpu.registers.b = 0x85;
    assert_eq!(cpu.execute(Instruction::RLC(PrefixTarget::B)), 0x0102);
    assert_eq!(cpu.registers.b, 0x0B);
    assert_eq!(cpu.registers.f, flags(false, false, false, true));
    cpu.registers.c = 0x01;
    cpu.execute(Instruction::RRC(PrefixTarget::C));
    assert_eq!(cpu.registers.c, 0x80);
    assert_eq!(cpu.registers.f.carry, true);
    cpu.registers.d = 0x80;
    cpu.registers.f.carry = false;
    cpu.execute(Instruction::RL(PrefixTarget::D));
    assert_eq!(cpu.registers.d, 0x00);
    assert_eq!(cpu.registers.f, flags(true, false, false, true));
    cpu.registers.e = 0x01;
    cpu.registers.f.carry = false;
    cpu.execute(Instruction::RR(PrefixTarget::E));
    assert_eq!(cpu.registers.e, 0x00);
    assert_eq!(cpu.registers.f, flags(true, false, false, true));
    cpu.registers.h = 0xFF;
    cpu.execute(Instruction::SLA(PrefixTarget::H));
    assert_eq!(cpu.registers.h, 0xFE);
    assert_eq!(cpu.registers.f.carry, true);
    cpu.registers.l = 0x8A;
    cpu.execute(Instruction::SRA(PrefixTarget::L));
    assert_eq!(cpu.registers.l, 0xC5);
    assert_eq!(cpu.registers.f.carry, false);
    cpu.registers.a = 0x01;
    cpu.execute(Instruction::SRL(PrefixTarget::A));
    assert_eq!(cpu.registers.a, 0x00);
    assert_eq!(cpu.registers.f, flags(true, false, false, true));
}

#[test]
fn swap_twice_restores() {
    let mut cpu = Cpu::new();
    cpu.registers.a = 0xF1;
    cpu.execute(Instruction::SWAP(PrefixTarget::A));
    assert_eq!(cpu.registers.a, 0x1F);
    assert_eq!(cpu.registers.f, flags(false, false, false, false));
    cpu.execute(Instruction::SWAP(PrefixTarget::A));
    assert_eq!(cpu.registers.a, 0xF1);
    cpu.registers.set_hl(0xC000);
    cpu.execute(Instruction::SWAP(PrefixTarget::HLI));
    assert_eq!(cpu.registers.f.zero, true);
}

#[test]
fn bit_operations() {
    let mut cpu = Cpu::new();
    cpu.registers.set_hl(0xC000);
    cpu.bus.write_byte(0xC000, 0b0000_0100);
    cpu.registers.f.carry = true;
    cpu.execute(Instruction::BIT(2, PrefixTarget::HLI));
    assert_eq!(cpu.registers.f, flags(false, false, true, true));
    cpu.execute(Instruction::BIT(3, PrefixTarget::HLI));
    assert_eq!(cpu.registers.f, flags(true, false, true, true));
    cpu.execute(Instruction::SET(7, PrefixTarget::HLI));
    assert_eq!(cpu.bus.read_byte(0xC000), 0b1000_0100);
    cpu.execute(Instruction::RES(2, PrefixTarget::HLI));
    assert_eq!(cpu.bus.read_byte(0xC000), 0b1000_0000);
    // RES and SET leave the flags alone.
    assert_eq!(cpu.registers.f, flags(true, false, true, true));
}

#[test]
fn rotate_left_then_right_restores() {
    let mut cpu = Cpu::new();
    for v in [0x00u8, 0x01, 0x80, 0xA5, 0xFF] {
        cpu.registers.b = v;
        cpu.execute(Instruction::RLC(PrefixTarget::B));
        cpu.execute(Instruction::RRC(PrefixTarget::B));
        assert_eq!(cpu.registers.b, v);
    }
}

#[test]
fn step_runs_a_program() {
    // INC A; ADD A,d8 0x10; PUSH AF; POP BC; XOR A
    let mut cpu = cpu_with(&[0x3C, 0xC6, 0x10, 0xF5, 0xC1, 0xAF]);
    cpu.interrupt_master_enable = false;
    cpu.step();
    assert_eq!(cpu.pc, 0x0101);
    assert_eq!(cpu.registers.a, 0x01);
    cpu.step();
    assert_eq!(cpu.pc, 0x0103);
    assert_eq!(cpu.registers.a, 0x11);
    cpu.step();
    cpu.step();
    assert_eq!(cpu.registers.b, 0x11);
    assert_eq!(cpu.sp, 0xFFFE);
    cpu.step();
    assert_eq!(cpu.pc, 0x0106);
    assert_eq!(cpu.registers.a, 0);
    assert!(cpu.registers.f.zero);
}

#[test]
fn halted_cpu_idles_without_interrupts() {
    let mut cpu = cpu_with(&[0x3C]);
    cpu.halted = true;
    cpu.step();
    assert_eq!(cpu.pc, 0x0100);
    assert_eq!(cpu.registers.a, 0);
    assert!(cpu.halted);
}

#[test]
fn halted_cpu_wakes_on_pending_interrupt() {
    let mut cpu = cpu_with(&[0x3C]);
    cpu.halted = true;
    cpu.interrupt_master_enable = false;
    cpu.bus.write_byte(0xFFFF, 0x01);
    cpu.bus.write_byte(0xFF0F, 0x01);
    cpu.step();
    assert!(!cpu.halted);
    // With IME clear the interrupt is not taken; the next instruction runs.
    assert_eq!(cpu.pc, 0x0101);
    assert_eq!(cpu.registers.a, 1);
    assert_eq!(cpu.bus.read_byte(0xFF0F), 0x01);
}

#[test]
fn interrupt_dispatch_and_return() {
    let mut rom = vec![0u8; 0x8000];
    rom[0x0100] = 0x3C; // INC A
    rom[0x0050] = 0xC1; // POP BC at the timer vector
    let mut cpu = Cpu::new();
    cpu.load_rom(rom);
    // Timer (bit 2) and joypad (bit 4) are both requested and enabled.
    cpu.bus.write_byte(0xFFFF, 0b0001_0100);
    cpu.bus.write_byte(0xFF0F, 0b0001_0110);
    cpu.registers.set_bc(0x0000);
    cpu.step();
    // The timer has priority; it is acknowledged, PC is pushed and IME cleared.
    assert_eq!(cpu.bus.read_byte(0xFF0F), 0b0001_0010);
    assert!(!cpu.interrupt_master_enable);
    assert_eq!(cpu.pc, 0x0051);
    // The popped word is the interrupted PC.
    assert_eq!(cpu.registers.get_bc(), 0x0100);
}

#[test]
fn reti_returns_from_interrupt() {
    let mut cpu = cpu_with(&[0x00]);
    cpu.bus.write_byte(0xFFFF, 0x01);
    cpu.bus.write_byte(0xFF0F, 0x01);
    cpu.pc = 0x0150;
    let mut rom = vec![0u8; 0x8000];
    rom[0x0040] = 0x3C;
    cpu.load_rom(rom);
    cpu.step();
    // VBlank vector, then the INC A there.
    assert_eq!(cpu.pc, 0x0041);
    assert_eq!(cpu.execute(Instruction::RETI), 0x0150);
    assert!(cpu.interrupt_master_enable);
    assert_eq!(cpu.sp, 0xFFFE);
}

#[test]
fn fetch_reads_opcode_and_prefix() {
    let cpu = cpu_with(&[0xCB, 0x37]);
    assert_eq!(cpu.fetch(), (0x37, true));
    let cpu = cpu_with(&[0x80]);
    assert_eq!(cpu.fetch(), (0x80, false));
}

#[test]
fn add_then_sub_restores_a() {
    let mut cpu = Cpu::new();
    for (a, v) in [(0x00u8, 0x00u8), (0x7F, 0x01), (0xF0, 0x20), (0xFF, 0xFF)] {
        cpu.registers.a = a;
        cpu.registers.b = v;
        cpu.execute(Instruction::ADD(ArithmeticTarget::B));
        let carry_of_add = cpu.registers.f.carry;
        cpu.execute(Instruction::SUB(ArithmeticTarget::B));
        assert_eq!(cpu.registers.a, a);
        assert_eq!(cpu.registers.f.carry, carry_of_add);
    }
}

#[test]
fn writes_into_rom_are_ignored() {
    let mut cpu = cpu_with(&[0x11, 0x22]);
    cpu.registers.set_hl(0x0100);
    cpu.registers.a = 0x99;
    cpu.execute(Instruction::LD(LoadType::Byte(LoadByteTarget::HLI, LoadByteSource::A)));
    assert_eq!(cpu.bus.read_byte(0x0100), 0x11);
    cpu.execute(Instruction::INC(IncDecTarget::HLI));
    assert_eq!(cpu.bus.read_byte(0x0100), 0x11);
    assert_eq!(cpu.pc, 0x0100);
}

#[test]
fn interrupts_wait_while_ime_is_clear() {
    let mut cpu = cpu_with(&[0x3C]);
    cpu.interrupt_master_enable = false;
    cpu.bus.write_byte(0xFFFF, 0x1F);
    cpu.bus.write_byte(0xFF0F, 0x1F);
    cpu.step();
    assert_eq!(cpu.pc, 0x0101);
    assert_eq!(cpu.sp, 0xFFFE);
    assert_eq!(cpu.bus.read_byte(0xFF0F), 0x1F);
    assert_eq!(cpu.registers.a, 1);
}

#[test]
fn interrupt_vectors_follow_priority() {
    for bit in 0..5u8 {
        let mut cpu = cpu_with(&[0x00]);
        let mut rom = vec![0u8; 0x8000];
        rom[0x40 + 8 * bit as usize] = 0x3C;
        cpu.load_rom(rom);
        cpu.bus.write_byte(0xFFFF, 0x1F);
        // This bit and every higher one are requested.
        cpu.bus.write_byte(0xFF0F, 0x1F & !((1u8 << bit) - 1));
        cpu.step();
        assert_eq!(cpu.pc, 0x40 + 8 * bit as u16 + 1);
        assert_eq!(cpu.bus.read_byte(0xFF0F), 0x1F & !((1u8 << (bit + 1)) - 1));
    }
}

#[test]
fn push_af_pop_keeps_upper_flag_nibble() {
    let mut cpu = Cpu::new();
    cpu.registers.a = 0xA5;
    cpu.registers.f = flags(true, false, true, false);
    cpu.execute(Instruction::PUSH(StackTarget::AF));
    cpu.execute(Instruction::POP(StackTarget::BC));
    assert_eq!(cpu.registers.get_bc(), 0xA5A0);
}
