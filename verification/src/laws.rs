use vstd::prelude::*;

use crate::alu::{addr_add, dec8, inc8};
use crate::flags::FlagsRegister;
use crate::instruction::{ArithmeticTarget, Instruction, JumpTest, StackTarget};
use crate::memory::{lemma_read_after_write, BusView};
use crate::registers::{high_byte, low_byte, Registers};
use crate::semantics::{
    accumulator_spec, arithmetic_spec, control_spec, inc_dec_spec, load_spec, prefixed_spec,
    can_execute, can_step, execute_spec, interrupt_spec, lowest_pending, pending_interrupts,
    stack_value, step_spec, with_stack_target, CpuState,
};

verus! {

/// Two stack cells below SP that a push writes to and a pop reads from.
pub open spec fn stack_writable(s: CpuState) -> bool {
    BusView::writable(addr_add(s.sp, -1)) && BusView::writable(addr_add(s.sp, -2))
}

/// A pushed word is popped back unchanged, and SP returns to where it was,
/// when the two cells below SP are writable.
pub proof fn lemma_push_pop(s: CpuState, v: u16)
    requires
        s.bus.wf(),
        stack_writable(s),
    ensures
        s.push(v).stack_readable(),
        s.push(v).pop().1 == v,
        s.push(v).pop().0 == (CpuState { sp: s.sp, ..s.push(v) }),
{
    let sp1 = addr_add(s.sp, -1);
    let sp2 = addr_add(s.sp, -2);
    let b1 = s.bus.write(sp1, high_byte(v));
    lemma_read_after_write(s.bus, sp1, high_byte(v), sp1);
    lemma_read_after_write(b1, sp2, low_byte(v), sp1);
    lemma_read_after_write(b1, sp2, low_byte(v), sp2);
    assert(addr_add(sp2, 1) == sp1);
    assert(addr_add(sp2, 2) == s.sp);
}

/// Compare sets the flags exactly as subtraction does and leaves A alone.
pub proof fn lemma_compare_is_subtraction(s: CpuState, t: ArithmeticTarget)
    ensures
        execute_spec(s, Instruction::CP(t)).1 == execute_spec(s, Instruction::SUB(t)).1,
        execute_spec(s, Instruction::CP(t)).0 == execute_spec(s, Instruction::SUB(t)).0.with_regs(
            Registers { a: s.regs.a, ..execute_spec(s, Instruction::SUB(t)).0.regs },
        ),
{
}

/// A halted CPU with no pending interrupt stays exactly as it is.
pub proof fn lemma_halted_stays(s: CpuState)
    requires
        s.halted,
        pending_interrupts(s) == 0,
    ensures
        can_step(s),
        step_spec(s) == s,
{
}

/// Any pending interrupt wakes a halted CPU, whether or not IME is set.
pub proof fn lemma_interrupt_wakes(s: CpuState)
    requires
        s.halted,
        pending_interrupts(s) != 0,
    ensures
        !interrupt_spec(s).halted,
{
}

/// With IME clear and the CPU running, interrupts change nothing.
pub proof fn lemma_interrupts_masked(s: CpuState)
    requires
        !s.ime,
        !s.halted,
    ensures
        interrupt_spec(s) == s,
{
}

/// Dispatching an interrupt jumps to its vector with IME cleared, and a RETI
/// there returns to the interrupted PC with IME set and SP restored.
pub proof fn lemma_interrupt_return(s: CpuState)
    requires
        s.bus.wf(),
        s.ime,
        pending_interrupts(s) != 0,
        stack_writable(s),
    ensures
        interrupt_spec(s).pc == 0x40 + 8 * lowest_pending(pending_interrupts(s)),
        !interrupt_spec(s).ime,
        can_execute(interrupt_spec(s), Instruction::RETI),
        execute_spec(interrupt_spec(s), Instruction::RETI).1 == s.pc,
        execute_spec(interrupt_spec(s), Instruction::RETI).0.ime,
        execute_spec(interrupt_spec(s), Instruction::RETI).0.sp == s.sp,
{
    let bit = lowest_pending(pending_interrupts(s));
    let acknowledged = s.read(0xFF0F) & !(1u8 << bit);
    let s1 = CpuState { halted: false, ime: false, ..s }.write(0xFF0F, acknowledged);
    crate::memory::lemma_write_keeps_rom(s.bus, 0xFF0F, acknowledged);
    lemma_push_pop(s1, s.pc);
}

/// A CALL followed, at its target, by a RET comes back to the instruction
/// after the CALL, with SP restored.
pub proof fn lemma_call_return(s: CpuState)
    requires
        s.bus.wf(),
        stack_writable(s),
        s.next_word_readable(),
    ensures
        ({
            let (s1, target) = execute_spec(s, Instruction::CALL(JumpTest::Always));
            let s2 = CpuState { pc: target, ..s1 };
            &&& can_execute(s2, Instruction::RET(JumpTest::Always))
            &&& execute_spec(s2, Instruction::RET(JumpTest::Always)).1 == addr_add(s.pc, 3)
            &&& execute_spec(s2, Instruction::RET(JumpTest::Always)).0.sp == s.sp
        }),
{
    lemma_push_pop(s, addr_add(s.pc, 3));
}

/// PUSH of one register pair followed by POP into another copies the pair
/// (for AF the low nibble of F reads back as zero) and restores SP.
pub proof fn lemma_push_then_pop(s: CpuState, src: StackTarget, dst: StackTarget)
    requires
        s.bus.wf(),
        stack_writable(s),
    ensures
        ({
            let (s1, next) = execute_spec(s, Instruction::PUSH(src));
            let s2 = CpuState { pc: next, ..s1 };
            &&& can_execute(s2, Instruction::POP(dst))
            &&& execute_spec(s2, Instruction::POP(dst)).0 == with_stack_target(
                CpuState { sp: s.sp, ..s2 },
                dst,
                stack_value(s, src),
            )
        }),
{
    lemma_push_pop(s, stack_value(s, src));
}

/// Incrementing and then decrementing a byte gives it back.
pub proof fn lemma_inc_dec_inverse(v: u8, f: FlagsRegister, g: FlagsRegister)
    ensures
        dec8(inc8(v, f).0, g).0 == v,
        inc8(dec8(v, f).0, g).0 == v,
{
    reveal(inc8);
    reveal(dec8);
}

proof fn lemma_arithmetic_frame(s: CpuState, i: Instruction)
    requires
        s.bus.wf(),
    ensures
        arithmetic_spec(s, i).0.pc == s.pc,
        arithmetic_spec(s, i).0.bus.rom == s.bus.rom,
        arithmetic_spec(s, i).0.bus.wf(),
{
    broadcast use crate::memory::lemma_write_keeps_rom;

}

proof fn lemma_inc_dec_frame(s: CpuState, i: Instruction)
    requires
        s.bus.wf(),
    ensures
        inc_dec_spec(s, i).0.pc == s.pc,
        inc_dec_spec(s, i).0.bus.rom == s.bus.rom,
        inc_dec_spec(s, i).0.bus.wf(),
{
    broadcast use crate::memory::lemma_write_keeps_rom;

}

proof fn lemma_accumulator_frame(s: CpuState, i: Instruction)
    requires
        s.bus.wf(),
    ensures
        accumulator_spec(s, i).0.pc == s.pc,
        accumulator_spec(s, i).0.bus.rom == s.bus.rom,
        accumulator_spec(s, i).0.bus.wf(),
{
    broadcast use crate::memory::lemma_write_keeps_rom;

}

proof fn lemma_load_frame(s: CpuState, i: Instruction)
    requires
        s.bus.wf(),
    ensures
        load_spec(s, i).0.pc == s.pc,
        load_spec(s, i).0.bus.rom == s.bus.rom,
        load_spec(s, i).0.bus.wf(),
{
    broadcast use crate::memory::lemma_write_keeps_rom;

}

proof fn lemma_control_frame(s: CpuState, i: Instruction)
    requires
        s.bus.wf(),
    ensures
        control_spec(s, i).0.pc == s.pc,
        control_spec(s, i).0.bus.rom == s.bus.rom,
        control_spec(s, i).0.bus.wf(),
{
    broadcast use crate::memory::lemma_write_keeps_rom;

}

proof fn lemma_prefixed_frame(s: CpuState, i: Instruction)
    requires
        s.bus.wf(),
    ensures
        prefixed_spec(s, i).0.pc == s.pc,
        prefixed_spec(s, i).0.bus.rom == s.bus.rom,
        prefixed_spec(s, i).0.bus.wf(),
{
    broadcast use crate::memory::lemma_write_keeps_rom;

}

/// Executing an instruction leaves PC for the step to move, never changes
/// the ROM (so what could be read still can), and keeps the region sizes.
pub proof fn lemma_execute_frame(s: CpuState, i: Instruction)
    requires
        s.bus.wf(),
    ensures
        execute_spec(s, i).0.pc == s.pc,
        execute_spec(s, i).0.bus.rom == s.bus.rom,
        execute_spec(s, i).0.bus.wf(),
{
    lemma_arithmetic_frame(s, i);
    lemma_inc_dec_frame(s, i);
    lemma_accumulator_frame(s, i);
    lemma_load_frame(s, i);
    lemma_control_frame(s, i);
    lemma_prefixed_frame(s, i);
}

/// A step never changes the ROM.
pub proof fn lemma_step_keeps_rom(s: CpuState)
    requires
        s.bus.wf(),
        can_step(s),
    ensures
        step_spec(s).bus.rom == s.bus.rom,
        step_spec(s).bus.wf(),
{
    broadcast use crate::memory::lemma_write_keeps_rom;
    let s1 = interrupt_spec(s);
    if !s1.halted {
        lemma_execute_frame(s1, crate::semantics::fetched(s1).unwrap());
    }
}

/// Bit `i` of a byte.
pub open spec fn bit_of(x: u8, i: u8) -> bool {
    (x >> i) & 1u8 == 1u8
}

/// ADD and ADC: the result and the carry flag together make up the whole sum
/// of A, the operand and (for ADC) the incoming carry; Z tells a zero result
/// and N is clear.
pub proof fn lemma_add_carry_out(s: CpuState, t: ArithmeticTarget)
    ensures
        ({
            let v = crate::semantics::arithmetic_value(s, t);
            let cin = crate::flags::bit_value(s.regs.f.carry);
            let r = execute_spec(s, Instruction::ADC(t)).0.regs;
            &&& r.a + 256 * crate::flags::bit_value(r.f.carry) == s.regs.a + v + cin
            &&& r.f.zero == (r.a == 0)
            &&& !r.f.subtract
        }),
        ({
            let v = crate::semantics::arithmetic_value(s, t);
            let r = execute_spec(s, Instruction::ADD(t)).0.regs;
            &&& r.a + 256 * crate::flags::bit_value(r.f.carry) == s.regs.a + v
            &&& r.f.zero == (r.a == 0)
            &&& !r.f.subtract
        }),
{
    reveal(crate::alu::add8);
}

/// SUB, SBC and CP: the result less 256 for a borrow is A minus the operand
/// and (for SBC) the incoming carry; the carry flag is that borrow, N is set,
/// and CP sets the flags of SUB.
pub proof fn lemma_sub_borrow(s: CpuState, t: ArithmeticTarget)
    ensures
        ({
            let v = crate::semantics::arithmetic_value(s, t);
            let cin = crate::flags::bit_value(s.regs.f.carry);
            let r = execute_spec(s, Instruction::SBC(t)).0.regs;
            &&& r.a - 256 * crate::flags::bit_value(r.f.carry) == s.regs.a - v - cin
            &&& r.f.carry == (s.regs.a < v + cin)
            &&& r.f.zero == (r.a == 0)
            &&& r.f.subtract
        }),
        ({
            let v = crate::semantics::arithmetic_value(s, t);
            let r = execute_spec(s, Instruction::SUB(t)).0.regs;
            &&& r.a - 256 * crate::flags::bit_value(r.f.carry) == s.regs.a - v
            &&& r.f.carry == (s.regs.a < v)
            &&& r.f.zero == (r.a == 0)
            &&& r.f.subtract
        }),
{
    reveal(crate::alu::sub8);
}

/// The register that INC r (opcode 00rrr100) and DEC r (00rrr101) change is
/// the one that ADD r (10000rrr) reads: after INC it reads one more, after
/// DEC one less, modulo 256.
pub proof fn lemma_inc_dec_decode_register(s: CpuState, r: u8)
    requires
        r < 8,
        r != 6,
    ensures
        ({
            let add_t = crate::instruction::decode((0x80 + r) as u8, false).unwrap()->ADD_0;
            let inc_i = crate::instruction::decode((0x04 + 8 * r) as u8, false).unwrap();
            let dec_i = crate::instruction::decode((0x05 + 8 * r) as u8, false).unwrap();
            let v = crate::semantics::arithmetic_value(s, add_t);
            &&& inc_i is INC
            &&& dec_i is DEC
            &&& crate::semantics::arithmetic_value(execute_spec(s, inc_i).0, add_t) == (v + 1)
                % 256
            &&& crate::semantics::arithmetic_value(execute_spec(s, dec_i).0, add_t) == (v + 255)
                % 256
        }),
{
    reveal(crate::semantics::arithmetic_value);
    reveal(crate::alu::inc8);
    reveal(crate::alu::dec8);
}

/// No two opcodes decode to the same increment, decrement, push or pop.
pub proof fn lemma_decode_injective(b1: u8, b2: u8)
    requires
        crate::instruction::decode(b1, false) == crate::instruction::decode(b2, false),
        crate::instruction::decode(b1, false) is Some,
        ({
            let i = crate::instruction::decode(b1, false).unwrap();
            i is INC || i is DEC || i is PUSH || i is POP
        }),
    ensures
        b1 == b2,
{
}

/// SET b sets bit b of its operand and keeps every other bit; RES b clears
/// bit b and keeps the others; BIT b sets Z exactly when bit b is clear.
pub proof fn lemma_bit_operations(s: CpuState, b: u8, t: crate::instruction::PrefixTarget, i: u8)
    requires
        b < 8,
        i < 8,
        s.bus.wf(),
        t is HLI ==> BusView::writable(s.regs.hl()),
    ensures
        ({
            let v = crate::semantics::prefix_value(s, t);
            let set = crate::semantics::prefix_value(execute_spec(s, Instruction::SET(b, t)).0, t);
            let res = crate::semantics::prefix_value(execute_spec(s, Instruction::RES(b, t)).0, t);
            &&& bit_of(set, i) == (i == b || bit_of(v, i))
            &&& bit_of(res, i) == (i != b && bit_of(v, i))
            &&& execute_spec(s, Instruction::BIT(b, t)).0.regs.f.zero == !bit_of(v, b)
        }),
{
    let v = crate::semantics::prefix_value(s, t);
    lemma_set_res_bits(v, b, i);
    let hl = s.regs.hl();
    lemma_read_after_write(s.bus, hl, v | (1u8 << b), hl);
    lemma_read_after_write(s.bus, hl, v & !(1u8 << b), hl);
}

proof fn lemma_set_res_bits(v: u8, b: u8, i: u8)
    by (bit_vector)
    requires
        b < 8,
        i < 8,
    ensures
        ((v | (1u8 << b)) >> i) & 1u8 == 1u8 <==> (i == b || (v >> i) & 1u8 == 1u8),
        ((v & !(1u8 << b)) >> i) & 1u8 == 1u8 <==> (i != b && (v >> i) & 1u8 == 1u8),
        (v & (1u8 << b) == 0) <==> !((v >> b) & 1u8 == 1u8),
{
}

/// PUSH rr stores the two registers of the pair: the first (high) one just
/// below SP and the second (low) one below that; SP drops by two.
pub proof fn lemma_push_stores_pair(s: CpuState, t: StackTarget)
    requires
        s.bus.wf(),
        stack_writable(s),
    ensures
        ({
            let s1 = execute_spec(s, Instruction::PUSH(t)).0;
            let hi = s1.read(addr_add(s.sp, -1));
            let lo = s1.read(addr_add(s.sp, -2));
            &&& s1.sp == addr_add(s.sp, -2)
            &&& t is BC ==> hi == s.regs.b && lo == s.regs.c
            &&& t is DE ==> hi == s.regs.d && lo == s.regs.e
            &&& t is HL ==> hi == s.regs.h && lo == s.regs.l
            &&& t is AF ==> hi == s.regs.a && lo == crate::flags::flags_to_byte(s.regs.f)
        }),
{
    let v = stack_value(s, t);
    let sp1 = addr_add(s.sp, -1);
    let sp2 = addr_add(s.sp, -2);
    let b1 = s.bus.write(sp1, high_byte(v));
    lemma_read_after_write(s.bus, sp1, high_byte(v), sp1);
    lemma_read_after_write(b1, sp2, low_byte(v), sp1);
    lemma_read_after_write(b1, sp2, low_byte(v), sp2);
}

} // verus!
