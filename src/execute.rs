//! The instruction executor: what each instruction does to the registers,
//! the interrupt-enable flag and memory, and how many machine cycles it takes.
use vstd::prelude::*;

use crate::alu::{
    add_hl, add_hl_spec, add_sp, add_sp_spec, alu, alu_spec, daa, daa_spec, dec8, dec8_spec, inc8,
    inc8_spec, shift, shift_spec, signed8, AluOp, ShiftOp,
};
use crate::bytes::{bit_u8, get_bit_u8, lemma_word_parts, set_bit_u8, with_bit_u8};
use crate::cpu::Cpu;
use crate::fault::Fault;
use crate::instruction::Instruction;
use crate::memory::{
    lemma_word_round_trip, bus_read, bus_read_word, bus_write, bus_write_word, next_address, wrap16, Memory,
};
use crate::operands::{Cond, B3, R16MEM, R16STK, R8};
use crate::registers::{flags_byte, lemma_flags_byte_of, Flags, Register16, Register8, RegisterState};

verus! {

/// Everything an instruction can read or change.
pub struct Machine {
    pub regs: RegisterState,
    pub ime: bool,
    pub mem: Seq<u8>,
}

pub open spec fn machine(cpu: Cpu, memory: Memory) -> Machine {
    Machine { regs: cpu.registers@, ime: cpu.ime, mem: memory@ }
}

/// An 8-bit operand: a register, a memory cell, or an immediate byte.
#[derive(Debug, Clone, Copy, PartialEq, Eq, Structural)]
pub enum Operand8 {
    Reg(R8),
    Mem(u16),
    Imm(u8),
}

/// The operations that read an 8-bit operand and write it back (or, for
/// BIT, only set flags).
#[derive(Debug, Clone, Copy, PartialEq, Eq, Structural)]
pub enum UnaryOp {
    Inc,
    Dec,
    Shift(ShiftOp),
    TestBit(B3),
    ResetBit(B3),
    SetBit(B3),
}

pub open spec fn with_regs(m: Machine, regs: RegisterState) -> Machine {
    Machine { regs, ..m }
}

pub open spec fn load8(m: Machine, o: Operand8) -> Result<u8, Fault> {
    match o {
        Operand8::Reg(r) => Ok(m.regs.r8(r.register())),
        Operand8::Mem(a) => bus_read(m.mem, a),
        Operand8::Imm(v) => Ok(v),
    }
}

pub open spec fn store8(m: Machine, o: Operand8, v: u8) -> Result<Machine, Fault> {
    match o {
        Operand8::Reg(r) => Ok(with_regs(m, m.regs.with_r8(r.register(), v))),
        Operand8::Mem(a) => match bus_write(m.mem, a, v) {
            Ok(mem) => Ok(Machine { mem, ..m }),
            Err(e) => Err(e),
        },
        Operand8::Imm(_) => Ok(m),
    }
}

/// The machine after a step that may have faulted, with its cycle count.
pub open spec fn finish(r: Result<Machine, Fault>, cycles: u8) -> Result<(Machine, u8), Fault> {
    match r {
        Ok(m) => Ok((m, cycles)),
        Err(e) => Err(e),
    }
}

/// `dst` takes the value of `src`; no flag changes.
pub open spec fn ld_step(dst: Operand8, src: Operand8, m: Machine, cycles: u8) -> Result<
    (Machine, u8),
    Fault,
> {
    match load8(m, src) {
        Ok(v) => finish(store8(m, dst, v), cycles),
        Err(e) => Err(e),
    }
}

/// A = A `op` `src` (CP keeps A), with the flags of the operation.
pub open spec fn alu_step(op: AluOp, src: Operand8, m: Machine, cycles: u8) -> Result<
    (Machine, u8),
    Fault,
> {
    match load8(m, src) {
        Ok(v) => {
            let (res, f) = alu_spec(op, m.regs.a, v, m.regs.flags.c);
            let regs = if op == AluOp::Cp {
                m.regs
            } else {
                m.regs.with_r8(Register8::A, res)
            };
            Ok((with_regs(m, regs.with_flags(f)), cycles))
        },
        Err(e) => Err(e),
    }
}

/// The new value and flags of a read-modify-write operation on `v`.
pub open spec fn unary_spec(op: UnaryOp, v: u8, f: Flags) -> (u8, Flags) {
    match op {
        UnaryOp::Inc => inc8_spec(v, f),
        UnaryOp::Dec => dec8_spec(v, f),
        UnaryOp::Shift(s) => {
            let (res, c) = shift_spec(s, v, f.c);
            (res, Flags { z: res == 0, n: false, h: false, c })
        },
        UnaryOp::TestBit(b) => (v, Flags { z: bit_u8(v, b.code()) == 0, n: false, h: true, c: f.c }),
        UnaryOp::ResetBit(b) => (with_bit_u8(v, b.code(), 0), f),
        UnaryOp::SetBit(b) => (with_bit_u8(v, b.code(), 1), f),
    }
}

/// Reads `target`, writes back the result of `op` (BIT writes nothing) and sets the flags.
pub open spec fn unary_step(op: UnaryOp, target: Operand8, m: Machine, cycles: u8) -> Result<
    (Machine, u8),
    Fault,
> {
    match load8(m, target) {
        Ok(v) => {
            let (res, f) = unary_spec(op, v, m.regs.flags);
            if op is TestBit {
                Ok((with_regs(m, m.regs.with_flags(f)), cycles))
            } else {
                match store8(m, target, res) {
                    Ok(m2) => Ok((with_regs(m2, m2.regs.with_flags(f)), cycles)),
                    Err(e) => Err(e),
                }
            }
        },
        Err(e) => Err(e),
    }
}

/// RLCA, RRCA, RLA, RRA: rotate A; Z, N and H clear, C the bit rotated out.
pub open spec fn rotate_a(op: ShiftOp, regs: RegisterState) -> RegisterState {
    let (res, c) = shift_spec(op, regs.a, regs.flags.c);
    regs.with_r8(Register8::A, res).with_flags(Flags { z: false, n: false, h: false, c })
}

pub open spec fn cond_holds(cc: Cond, f: Flags) -> bool {
    match cc {
        Cond::NotZero => !f.z,
        Cond::Zero => f.z,
        Cond::NotCarry => !f.c,
        Cond::Carry => f.c,
    }
}

pub open spec fn set_r16(m: Machine, r: Register16, v: u16) -> Machine {
    with_regs(m, m.regs.with_r16(r, v))
}

/// SP drops by 2, then `v` is written little-endian at the new SP.
pub open spec fn push_spec(m: Machine, v: u16) -> Result<Machine, Fault> {
    let sp = wrap16(m.regs.sp - 2);
    match bus_write_word(m.mem, sp, v) {
        Ok(mem) => Ok(Machine { regs: m.regs.with_r16(Register16::SP, sp), mem, ..m }),
        Err(e) => Err(e),
    }
}

/// The word at SP is read, then SP rises by 2.
pub open spec fn pop_spec(m: Machine) -> Result<(Machine, u16), Fault> {
    match bus_read_word(m.mem, m.regs.sp) {
        Ok(v) => Ok((set_r16(m, Register16::SP, wrap16(m.regs.sp + 2)), v)),
        Err(e) => Err(e),
    }
}

/// Pushes PC, then jumps to `target`.
pub open spec fn call_step(m: Machine, target: u16, cycles: u8) -> Result<(Machine, u8), Fault> {
    match push_spec(m, m.regs.pc) {
        Ok(m2) => Ok((set_r16(m2, Register16::PC, target), cycles)),
        Err(e) => Err(e),
    }
}

/// Pops PC.
pub open spec fn ret_step(m: Machine, cycles: u8) -> Result<(Machine, u8), Fault> {
    match pop_spec(m) {
        Ok((m2, v)) => Ok((set_r16(m2, Register16::PC, v), cycles)),
        Err(e) => Err(e),
    }
}

/// After an access through `r`: HL+1 for `Hli`, HL-1 for `Hld`.
pub open spec fn hl_adjust(regs: RegisterState, r: R16MEM) -> RegisterState {
    match r {
        R16MEM::Hli => regs.with_r16(Register16::HL, wrap16(regs.hl + 1)),
        R16MEM::Hld => regs.with_r16(Register16::HL, wrap16(regs.hl - 1)),
        _ => regs,
    }
}

pub open spec fn hl_step(m: Machine, r: R16MEM) -> Machine {
    with_regs(m, hl_adjust(m.regs, r))
}

/// The address 0xFF00 + `offset` of the high page.
pub open spec fn high(offset: u8) -> u16 {
    (0xFF00 + offset) as u16
}

/// `step` for the instructions of one family: the 16-bit loads.
pub open spec fn word_load_step(i: Instruction, m: Machine) -> Result<(Machine, u8), Fault> {
    let regs = m.regs;
    match i {
        Instruction::Nop => Ok((m, 1)),
        Instruction::LdR16Imm16(r, n) => Ok((set_r16(m, r.register(), n), 3)),
        Instruction::LdR16MemA(r) => match store8(m, Operand8::Mem(regs.r16(r.register())), regs.a) {
            Ok(m2) => Ok((hl_step(m2, r), 2)),
            Err(e) => Err(e),
        },
        Instruction::LdAR16Mem(r) => match ld_step(Operand8::Reg(R8::A), Operand8::Mem(regs.r16(r.register())), m, 2) {
            Ok((m2, c)) => Ok((hl_step(m2, r), c)),
            Err(e) => Err(e),
        },
        Instruction::LdMemImm16SP(n) => match bus_write_word(m.mem, n, regs.sp) {
            Ok(mem) => Ok((Machine { mem, ..m }, 5)),
            Err(e) => Err(e),
        },
        // the other instructions belong to other families
        _ => Err(Fault::Unimplemented),
    }
}

/// `step` for the instructions of one family: the 16-bit arithmetic.
pub open spec fn word_arith_step(i: Instruction, m: Machine) -> Result<(Machine, u8), Fault> {
    let regs = m.regs;
    match i {
        Instruction::IncR16(r) => Ok(
            (set_r16(m, r.register(), wrap16(regs.r16(r.register()) + 1)), 2),
        ),
        Instruction::DecR16(r) => Ok(
            (set_r16(m, r.register(), wrap16(regs.r16(r.register()) - 1)), 2),
        ),
        Instruction::AddHlR16(r) => {
            let (res, f) = add_hl_spec(regs.hl, regs.r16(r.register()), regs.flags);
            Ok((with_regs(m, regs.with_r16(Register16::HL, res).with_flags(f)), 2))
        },
        // the other instructions belong to other families
        _ => Err(Fault::Unimplemented),
    }
}

/// `step` for the instructions of one family: sP arithmetic, DI and EI; HALT and STOP, which the core does not model.
pub open spec fn stack_pointer_step(i: Instruction, m: Machine) -> Result<(Machine, u8), Fault> {
    let regs = m.regs;
    match i {
        Instruction::LdSpHl => Ok((set_r16(m, Register16::SP, regs.hl), 2)),
        Instruction::AddSpImm8(e) => {
            let (res, f) = add_sp_spec(regs.sp, e);
            Ok((with_regs(m, regs.with_r16(Register16::SP, res).with_flags(f)), 4))
        },
        Instruction::LdHlSpImm8(e) => {
            let (res, f) = add_sp_spec(regs.sp, e);
            Ok((with_regs(m, regs.with_r16(Register16::HL, res).with_flags(f)), 3))
        },
        Instruction::Di => Ok((Machine { ime: false, ..m }, 1)),
        Instruction::Ei => Ok((Machine { ime: true, ..m }, 1)),
        Instruction::Stop => Err(Fault::Unimplemented),
        Instruction::Halt => Err(Fault::Unimplemented),
        // the other instructions belong to other families
        _ => Err(Fault::Unimplemented),
    }
}

/// `step` for the instructions of one family: iNC, DEC and loads of 8-bit registers and of memory at HL.
pub open spec fn byte_step(i: Instruction, m: Machine) -> Result<(Machine, u8), Fault> {
    let regs = m.regs;
    let hl = Operand8::Mem(regs.hl);
    match i {
        Instruction::IncR8(r) => unary_step(UnaryOp::Inc, Operand8::Reg(r), m, 1),
        Instruction::IncMemHl => unary_step(UnaryOp::Inc, hl, m, 3),
        Instruction::DecR8(r) => unary_step(UnaryOp::Dec, Operand8::Reg(r), m, 1),
        Instruction::DecMemHl => unary_step(UnaryOp::Dec, hl, m, 3),
        Instruction::LdR8Imm8(r, n) => ld_step(Operand8::Reg(r), Operand8::Imm(n), m, 2),
        Instruction::LdMemHlImm8(n) => ld_step(hl, Operand8::Imm(n), m, 3),
        Instruction::LdR8R8(d, s) => ld_step(Operand8::Reg(d), Operand8::Reg(s), m, 1),
        Instruction::LdR8MemHl(d) => ld_step(Operand8::Reg(d), hl, m, 2),
        Instruction::LdMemHlR8(s) => ld_step(hl, Operand8::Reg(s), m, 2),
        // the other instructions belong to other families
        _ => Err(Fault::Unimplemented),
    }
}

/// `step` for the instructions of one family: loads between A and an absolute or high-page address.
pub open spec fn load_a_step(i: Instruction, m: Machine) -> Result<(Machine, u8), Fault> {
    let regs = m.regs;
    let a = Operand8::Reg(R8::A);
    match i {
        Instruction::LdhMemCA => ld_step(Operand8::Mem(high(regs.r8(Register8::C))), a, m, 2),
        Instruction::LdhMemImm8A(n) => ld_step(Operand8::Mem(high(n)), a, m, 3),
        Instruction::LdMemImm16A(n) => ld_step(Operand8::Mem(n), a, m, 4),
        Instruction::LdAMemC => ld_step(a, Operand8::Mem(high(regs.r8(Register8::C))), m, 2),
        Instruction::LdhAMemImm8(n) => ld_step(a, Operand8::Mem(high(n)), m, 3),
        Instruction::LdAMemImm16(n) => ld_step(a, Operand8::Mem(n), m, 4),
        // the other instructions belong to other families
        _ => Err(Fault::Unimplemented),
    }
}

/// `step` for the instructions of one family: the rotates of A, DAA, CPL, SCF, CCF.
pub open spec fn accumulator_step(i: Instruction, m: Machine) -> Result<(Machine, u8), Fault> {
    let regs = m.regs;
    match i {
        Instruction::Rlca => Ok((with_regs(m, rotate_a(ShiftOp::Rlc, regs)), 1)),
        Instruction::Rrca => Ok((with_regs(m, rotate_a(ShiftOp::Rrc, regs)), 1)),
        Instruction::Rla => Ok((with_regs(m, rotate_a(ShiftOp::Rl, regs)), 1)),
        Instruction::Rra => Ok((with_regs(m, rotate_a(ShiftOp::Rr, regs)), 1)),
        Instruction::Daa => {
            let (res, f) = daa_spec(regs.a, regs.flags);
            Ok((with_regs(m, regs.with_r8(Register8::A, res).with_flags(f)), 1))
        },
        Instruction::Cpl => Ok(
            (
                with_regs(
                    m,
                    regs.with_r8(Register8::A, (255 - regs.a) as u8).with_flags(
                        Flags { n: true, h: true, ..regs.flags },
                    ),
                ),
                1,
            ),
        ),
        Instruction::Scf => Ok(
            (with_regs(m, regs.with_flags(Flags { n: false, h: false, c: true, ..regs.flags })), 1),
        ),
        Instruction::Ccf => Ok(
            (
                with_regs(
                    m,
                    regs.with_flags(Flags { n: false, h: false, c: !regs.flags.c, ..regs.flags }),
                ),
                1,
            ),
        ),
        // the other instructions belong to other families
        _ => Err(Fault::Unimplemented),
    }
}

/// `step` for the instructions of one family: arithmetic and logic on A and a register.
pub open spec fn alu_register_step(i: Instruction, m: Machine) -> Result<(Machine, u8), Fault> {
    let regs = m.regs;
    match i {
        Instruction::AddAR8(r) => alu_step(AluOp::Add, Operand8::Reg(r), m, 1),
        Instruction::AdcAR8(r) => alu_step(AluOp::Adc, Operand8::Reg(r), m, 1),
        Instruction::SubAR8(r) => alu_step(AluOp::Sub, Operand8::Reg(r), m, 1),
        Instruction::SbcAR8(r) => alu_step(AluOp::Sbc, Operand8::Reg(r), m, 1),
        Instruction::AndAR8(r) => alu_step(AluOp::And, Operand8::Reg(r), m, 1),
        Instruction::XorAR8(r) => alu_step(AluOp::Xor, Operand8::Reg(r), m, 1),
        Instruction::OrAR8(r) => alu_step(AluOp::Or, Operand8::Reg(r), m, 1),
        Instruction::CpAR8(r) => alu_step(AluOp::Cp, Operand8::Reg(r), m, 1),
        // the other instructions belong to other families
        _ => Err(Fault::Unimplemented),
    }
}

/// `step` for the instructions of one family: arithmetic and logic on A and memory at HL.
pub open spec fn alu_memory_step(i: Instruction, m: Machine) -> Result<(Machine, u8), Fault> {
    let regs = m.regs;
    let hl = Operand8::Mem(regs.hl);
    match i {
        Instruction::AddAMemHl => alu_step(AluOp::Add, hl, m, 2),
        Instruction::AdcAMemHl => alu_step(AluOp::Adc, hl, m, 2),
        Instruction::SubAMemHl => alu_step(AluOp::Sub, hl, m, 2),
        Instruction::SbcAMemHl => alu_step(AluOp::Sbc, hl, m, 2),
        Instruction::AndAMemHl => alu_step(AluOp::And, hl, m, 2),
        Instruction::XorAMemHl => alu_step(AluOp::Xor, hl, m, 2),
        Instruction::OrAMemHl => alu_step(AluOp::Or, hl, m, 2),
        Instruction::CpAMemHl => alu_step(AluOp::Cp, hl, m, 2),
        // the other instructions belong to other families
        _ => Err(Fault::Unimplemented),
    }
}

/// `step` for the instructions of one family: arithmetic and logic on A and an immediate byte.
pub open spec fn alu_immediate_step(i: Instruction, m: Machine) -> Result<(Machine, u8), Fault> {
    let regs = m.regs;
    match i {
        Instruction::AddAImm8(n) => alu_step(AluOp::Add, Operand8::Imm(n), m, 2),
        Instruction::AdcAImm8(n) => alu_step(AluOp::Adc, Operand8::Imm(n), m, 2),
        Instruction::SubAImm8(n) => alu_step(AluOp::Sub, Operand8::Imm(n), m, 2),
        Instruction::SbcAImm8(n) => alu_step(AluOp::Sbc, Operand8::Imm(n), m, 2),
        Instruction::AndAImm8(n) => alu_step(AluOp::And, Operand8::Imm(n), m, 2),
        Instruction::XorAImm8(n) => alu_step(AluOp::Xor, Operand8::Imm(n), m, 2),
        Instruction::OrAImm8(n) => alu_step(AluOp::Or, Operand8::Imm(n), m, 2),
        Instruction::CpAImm8(n) => alu_step(AluOp::Cp, Operand8::Imm(n), m, 2),
        // the other instructions belong to other families
        _ => Err(Fault::Unimplemented),
    }
}

/// `step` for the instructions of one family: relative and absolute jumps.
pub open spec fn jump_step(i: Instruction, m: Machine) -> Result<(Machine, u8), Fault> {
    let regs = m.regs;
    match i {
        Instruction::JrImm8(e) => Ok((set_r16(m, Register16::PC, wrap16(regs.pc + signed8(e))), 3)),
        Instruction::JrCondImm8(cc, e) => if cond_holds(cc, regs.flags) {
            Ok((set_r16(m, Register16::PC, wrap16(regs.pc + signed8(e))), 3))
        } else {
            Ok((m, 2))
        },
        Instruction::JpCondImm16(cc, n) => if cond_holds(cc, regs.flags) {
            Ok((set_r16(m, Register16::PC, n), 4))
        } else {
            Ok((m, 3))
        },
        Instruction::JpImm16(n) => Ok((set_r16(m, Register16::PC, n), 4)),
        Instruction::JpHl => Ok((set_r16(m, Register16::PC, regs.hl), 1)),
        // the other instructions belong to other families
        _ => Err(Fault::Unimplemented),
    }
}

/// `step` for the instructions of one family: calls, returns, restarts, PUSH and POP.
pub open spec fn stack_step(i: Instruction, m: Machine) -> Result<(Machine, u8), Fault> {
    let regs = m.regs;
    match i {
        Instruction::RetCond(cc) => if cond_holds(cc, regs.flags) {
            ret_step(m, 5)
        } else {
            Ok((m, 2))
        },
        Instruction::Ret => ret_step(m, 4),
        Instruction::Reti => match ret_step(m, 4) {
            Ok((m2, c)) => Ok((Machine { ime: true, ..m2 }, c)),
            Err(e) => Err(e),
        },
        Instruction::CallCondImm16(cc, n) => if cond_holds(cc, regs.flags) {
            call_step(m, n, 6)
        } else {
            Ok((m, 3))
        },
        Instruction::CallImm16(n) => call_step(m, n, 6),
        Instruction::RstTgt3(t) => call_step(m, (8 * t.code()) as u16, 4),
        Instruction::PopR16Stk(r) => match pop_spec(m) {
            Ok((m2, v)) => Ok((set_r16(m2, r.register(), v), 3)),
            Err(e) => Err(e),
        },
        Instruction::PushR16Stk(r) => finish(push_spec(m, regs.r16(r.register())), 4),
        // the other instructions belong to other families
        _ => Err(Fault::Unimplemented),
    }
}

/// `step` for the instructions of one family: rotates and shifts of a register (0xCB prefix).
pub open spec fn shift_register_step(i: Instruction, m: Machine) -> Result<(Machine, u8), Fault> {
    let regs = m.regs;
    match i {
        Instruction::RlcR8(r) => unary_step(UnaryOp::Shift(ShiftOp::Rlc), Operand8::Reg(r), m, 2),
        Instruction::RrcR8(r) => unary_step(UnaryOp::Shift(ShiftOp::Rrc), Operand8::Reg(r), m, 2),
        Instruction::RlR8(r) => unary_step(UnaryOp::Shift(ShiftOp::Rl), Operand8::Reg(r), m, 2),
        Instruction::RrR8(r) => unary_step(UnaryOp::Shift(ShiftOp::Rr), Operand8::Reg(r), m, 2),
        Instruction::SlaR8(r) => unary_step(UnaryOp::Shift(ShiftOp::Sla), Operand8::Reg(r), m, 2),
        Instruction::SraR8(r) => unary_step(UnaryOp::Shift(ShiftOp::Sra), Operand8::Reg(r), m, 2),
        Instruction::SwapR8(r) => unary_step(UnaryOp::Shift(ShiftOp::Swap), Operand8::Reg(r), m, 2),
        Instruction::SrlR8(r) => unary_step(UnaryOp::Shift(ShiftOp::Srl), Operand8::Reg(r), m, 2),
        // the other instructions belong to other families
        _ => Err(Fault::Unimplemented),
    }
}

/// `step` for the instructions of one family: rotates and shifts of memory at HL (0xCB prefix).
pub open spec fn shift_memory_step(i: Instruction, m: Machine) -> Result<(Machine, u8), Fault> {
    let regs = m.regs;
    let hl = Operand8::Mem(regs.hl);
    match i {
        Instruction::RlcMemHl => unary_step(UnaryOp::Shift(ShiftOp::Rlc), hl, m, 4),
        Instruction::RrcMemHl => unary_step(UnaryOp::Shift(ShiftOp::Rrc), hl, m, 4),
        Instruction::RlMemHl => unary_step(UnaryOp::Shift(ShiftOp::Rl), hl, m, 4),
        Instruction::RrMemHl => unary_step(UnaryOp::Shift(ShiftOp::Rr), hl, m, 4),
        Instruction::SlaMemHl => unary_step(UnaryOp::Shift(ShiftOp::Sla), hl, m, 4),
        Instruction::SraMemHl => unary_step(UnaryOp::Shift(ShiftOp::Sra), hl, m, 4),
        Instruction::SwapMemHl => unary_step(UnaryOp::Shift(ShiftOp::Swap), hl, m, 4),
        Instruction::SrlMemHl => unary_step(UnaryOp::Shift(ShiftOp::Srl), hl, m, 4),
        // the other instructions belong to other families
        _ => Err(Fault::Unimplemented),
    }
}

/// `step` for the instructions of one family: bIT, RES and SET (0xCB prefix).
pub open spec fn bit_step(i: Instruction, m: Machine) -> Result<(Machine, u8), Fault> {
    let regs = m.regs;
    let hl = Operand8::Mem(regs.hl);
    match i {
        Instruction::BitB3MemHl(b) => unary_step(UnaryOp::TestBit(b), hl, m, 3),
        Instruction::BitB3R8(b, r) => unary_step(UnaryOp::TestBit(b), Operand8::Reg(r), m, 2),
        Instruction::ResB3MemHl(b) => unary_step(UnaryOp::ResetBit(b), hl, m, 4),
        Instruction::ResB3R8(b, r) => unary_step(UnaryOp::ResetBit(b), Operand8::Reg(r), m, 2),
        Instruction::SetB3MemHl(b) => unary_step(UnaryOp::SetBit(b), hl, m, 4),
        Instruction::SetB3R8(b, r) => unary_step(UnaryOp::SetBit(b), Operand8::Reg(r), m, 2),
        // the other instructions belong to other families
        _ => Err(Fault::Unimplemented),
    }
}

/// What executing `i` does to `m`, and the machine cycles it takes; PC
/// already points past `i`.
pub open spec fn step(i: Instruction, m: Machine) -> Result<(Machine, u8), Fault> {
    match i {
        Instruction::Nop | Instruction::LdR16Imm16(..) | Instruction::LdR16MemA(..) | Instruction::LdAR16Mem(..) | Instruction::LdMemImm16SP(..) => word_load_step(i, m),
        Instruction::IncR16(..) | Instruction::DecR16(..) | Instruction::AddHlR16(..) => word_arith_step(i, m),
        Instruction::LdSpHl | Instruction::AddSpImm8(..) | Instruction::LdHlSpImm8(..) | Instruction::Di | Instruction::Ei | Instruction::Stop | Instruction::Halt => stack_pointer_step(i, m),
        Instruction::IncR8(..) | Instruction::IncMemHl | Instruction::DecR8(..) | Instruction::DecMemHl | Instruction::LdR8Imm8(..) | Instruction::LdMemHlImm8(..) | Instruction::LdR8R8(..) | Instruction::LdR8MemHl(..) | Instruction::LdMemHlR8(..) => byte_step(i, m),
        Instruction::LdhMemCA | Instruction::LdhMemImm8A(..) | Instruction::LdMemImm16A(..) | Instruction::LdAMemC | Instruction::LdhAMemImm8(..) | Instruction::LdAMemImm16(..) => load_a_step(i, m),
        Instruction::Rlca | Instruction::Rrca | Instruction::Rla | Instruction::Rra | Instruction::Daa | Instruction::Cpl | Instruction::Scf | Instruction::Ccf => accumulator_step(i, m),
        Instruction::AddAR8(..) | Instruction::AdcAR8(..) | Instruction::SubAR8(..) | Instruction::SbcAR8(..) | Instruction::AndAR8(..) | Instruction::XorAR8(..) | Instruction::OrAR8(..) | Instruction::CpAR8(..) => alu_register_step(i, m),
        Instruction::AddAMemHl | Instruction::AdcAMemHl | Instruction::SubAMemHl | Instruction::SbcAMemHl | Instruction::AndAMemHl | Instruction::XorAMemHl | Instruction::OrAMemHl | Instruction::CpAMemHl => alu_memory_step(i, m),
        Instruction::AddAImm8(..) | Instruction::AdcAImm8(..) | Instruction::SubAImm8(..) | Instruction::SbcAImm8(..) | Instruction::AndAImm8(..) | Instruction::XorAImm8(..) | Instruction::OrAImm8(..) | Instruction::CpAImm8(..) => alu_immediate_step(i, m),
        Instruction::JrImm8(..) | Instruction::JrCondImm8(..) | Instruction::JpCondImm16(..) | Instruction::JpImm16(..) | Instruction::JpHl => jump_step(i, m),
        Instruction::RetCond(..) | Instruction::Ret | Instruction::Reti | Instruction::CallCondImm16(..) | Instruction::CallImm16(..) | Instruction::RstTgt3(..) | Instruction::PopR16Stk(..) | Instruction::PushR16Stk(..) => stack_step(i, m),
        Instruction::RlcR8(..) | Instruction::RrcR8(..) | Instruction::RlR8(..) | Instruction::RrR8(..) | Instruction::SlaR8(..) | Instruction::SraR8(..) | Instruction::SwapR8(..) | Instruction::SrlR8(..) => shift_register_step(i, m),
        Instruction::RlcMemHl | Instruction::RrcMemHl | Instruction::RlMemHl | Instruction::RrMemHl | Instruction::SlaMemHl | Instruction::SraMemHl | Instruction::SwapMemHl | Instruction::SrlMemHl => shift_memory_step(i, m),
        Instruction::BitB3MemHl(..) | Instruction::BitB3R8(..) | Instruction::ResB3MemHl(..) | Instruction::ResB3R8(..) | Instruction::SetB3MemHl(..) | Instruction::SetB3R8(..) => bit_step(i, m),
    }
}

/// `r` and `after` are what `spec` says; a fault leaves the machine as it was.
pub open spec fn outcome(
    spec: Result<(Machine, u8), Fault>,
    before: Machine,
    r: Result<u8, Fault>,
    after: Machine,
) -> bool {
    match spec {
        Ok((m, c)) => r == Ok::<u8, Fault>(c) && after == m,
        Err(e) => r == Err::<u8, Fault>(e) && after == before,
    }
}

/// `r` and `after` are what `spec` says; a fault leaves the machine as it was.
pub open spec fn stored(spec: Result<Machine, Fault>, before: Machine, r: Result<(), Fault>, after: Machine) -> bool {
    match spec {
        Ok(m) => r is Ok && after == m,
        Err(e) => r == Err::<(), Fault>(e) && after == before,
    }
}

fn load_operand(cpu: &Cpu, memory: &Memory, o: Operand8) -> (r: Result<u8, Fault>)
    requires
        cpu.wf(),
        memory.wf(),
    ensures
        r == load8(machine(*cpu, *memory), o),
{
    match o {
        Operand8::Reg(r) => Ok(cpu.registers.read_8(Register8::from(r))),
        Operand8::Mem(a) => memory.read_byte(a),
        Operand8::Imm(v) => Ok(v),
    }
}

fn store_operand(cpu: &mut Cpu, memory: &mut Memory, o: Operand8, v: u8) -> (r: Result<(), Fault>)
    requires
        old(cpu).wf(),
        old(memory).wf(),
    ensures
        final(cpu).wf(),
        final(memory).wf(),
        stored(
            store8(machine(*old(cpu), *old(memory)), o, v),
            machine(*old(cpu), *old(memory)),
            r,
            machine(*final(cpu), *final(memory)),
        ),
{
    match o {
        Operand8::Reg(r) => {
            cpu.registers.write_8(Register8::from(r), v);
            Ok(())
        },
        Operand8::Mem(a) => memory.write_byte(a, v),
        Operand8::Imm(_) => Ok(()),
    }
}

fn exec_ld(dst: Operand8, src: Operand8, cycles: u8, cpu: &mut Cpu, memory: &mut Memory) -> (r:
    Result<u8, Fault>)
    requires
        old(cpu).wf(),
        old(memory).wf(),
    ensures
        final(cpu).wf(),
        final(memory).wf(),
        outcome(
            ld_step(dst, src, machine(*old(cpu), *old(memory)), cycles),
            machine(*old(cpu), *old(memory)),
            r,
            machine(*final(cpu), *final(memory)),
        ),
{
    let v = match load_operand(cpu, memory, src) {
        Ok(v) => v,
        Err(e) => return Err(e),
    };
    match store_operand(cpu, memory, dst, v) {
        Ok(()) => Ok(cycles),
        Err(e) => Err(e),
    }
}

fn exec_alu(op: AluOp, src: Operand8, cycles: u8, cpu: &mut Cpu, memory: &mut Memory) -> (r:
    Result<u8, Fault>)
    requires
        old(cpu).wf(),
        old(memory).wf(),
    ensures
        final(cpu).wf(),
        final(memory).wf(),
        outcome(
            alu_step(op, src, machine(*old(cpu), *old(memory)), cycles),
            machine(*old(cpu), *old(memory)),
            r,
            machine(*final(cpu), *final(memory)),
        ),
{
    let v = match load_operand(cpu, memory, src) {
        Ok(v) => v,
        Err(e) => return Err(e),
    };
    let a = cpu.registers.read_8(Register8::A);
    let flags = cpu.registers.flags();
    let (res, f) = alu(op, a, v, flags.c);
    if op != AluOp::Cp {
        cpu.registers.write_8(Register8::A, res);
    }
    cpu.registers.set_flags(f);
    Ok(cycles)
}

fn unary(op: UnaryOp, v: u8, f: Flags) -> (r: (u8, Flags))
    ensures
        r == unary_spec(op, v, f),
{
    match op {
        UnaryOp::Inc => inc8(v, f),
        UnaryOp::Dec => dec8(v, f),
        UnaryOp::Shift(s) => {
            let (res, c) = shift(s, v, f.c);
            (res, Flags { z: res == 0, n: false, h: false, c })
        },
        UnaryOp::TestBit(b) => {
            let bit = get_bit_u8(v, b.position());
            (v, Flags { z: bit == 0, n: false, h: true, c: f.c })
        },
        UnaryOp::ResetBit(b) => {
            let mut res = v;
            set_bit_u8(&mut res, b.position(), 0);
            (res, f)
        },
        UnaryOp::SetBit(b) => {
            let mut res = v;
            set_bit_u8(&mut res, b.position(), 1);
            (res, f)
        },
    }
}

fn exec_unary(op: UnaryOp, target: Operand8, cycles: u8, cpu: &mut Cpu, memory: &mut Memory) -> (r:
    Result<u8, Fault>)
    requires
        old(cpu).wf(),
        old(memory).wf(),
    ensures
        final(cpu).wf(),
        final(memory).wf(),
        outcome(
            unary_step(op, target, machine(*old(cpu), *old(memory)), cycles),
            machine(*old(cpu), *old(memory)),
            r,
            machine(*final(cpu), *final(memory)),
        ),
{
    let v = match load_operand(cpu, memory, target) {
        Ok(v) => v,
        Err(e) => return Err(e),
    };
    let flags = cpu.registers.flags();
    let (res, f) = unary(op, v, flags);
    if let UnaryOp::TestBit(_) = op {
    } else {
        if let Err(e) = store_operand(cpu, memory, target, res) {
            return Err(e);
        }
    }
    cpu.registers.set_flags(f);
    Ok(cycles)
}

fn exec_rotate_a(op: ShiftOp, cpu: &mut Cpu)
    requires
        old(cpu).wf(),
    ensures
        final(cpu).wf(),
        final(cpu).ime == old(cpu).ime,
        final(cpu).registers@ == rotate_a(op, old(cpu).registers@),
{
    let a = cpu.registers.read_8(Register8::A);
    let flags = cpu.registers.flags();
    let (res, c) = shift(op, a, flags.c);
    cpu.registers.write_8(Register8::A, res);
    cpu.registers.set_flags(Flags { z: false, n: false, h: false, c });
}

/// Whether the condition `cc` holds under the current flags.
fn condition(cpu: &Cpu, cc: Cond) -> (r: bool)
    ensures
        r == cond_holds(cc, cpu.registers@.flags),
{
    let f = cpu.registers.flags();
    match cc {
        Cond::NotZero => !f.z,
        Cond::Zero => f.z,
        Cond::NotCarry => !f.c,
        Cond::Carry => f.c,
    }
}

/// `pc` moved by the signed offset `e`.
fn relative(pc: u16, e: u8) -> (r: u16)
    ensures
        r == wrap16(pc + signed8(e)),
{
    if e < 128 {
        ((pc as u32 + e as u32) % 65536) as u16
    } else {
        ((pc as u32 + 65536 - 256 + e as u32) % 65536) as u16
    }
}

/// Decrements SP by 2 and writes `value` at the new SP; on a fault nothing changes.
pub fn stack_push_16(cpu: &mut Cpu, memory: &mut Memory, value: u16) -> (r: Result<(), Fault>)
    requires
        old(cpu).wf(),
        old(memory).wf(),
    ensures
        final(cpu).wf(),
        final(memory).wf(),
        stored(
            push_spec(machine(*old(cpu), *old(memory)), value),
            machine(*old(cpu), *old(memory)),
            r,
            machine(*final(cpu), *final(memory)),
        ),
{
    let sp = cpu.registers.read_16(Register16::SP);
    let new_sp: u16 = if sp < 2 {
        sp + 65534
    } else {
        sp - 2
    };
    match memory.write_word(new_sp, value) {
        Ok(()) => {
            cpu.registers.write_16(Register16::SP, new_sp);
            Ok(())
        },
        Err(e) => Err(e),
    }
}

/// Reads the word at SP and increments SP by 2; on a fault nothing changes.
pub fn stack_pop_16(cpu: &mut Cpu, memory: &Memory) -> (r: Result<u16, Fault>)
    requires
        old(cpu).wf(),
        memory.wf(),
    ensures
        final(cpu).wf(),
        match pop_spec(machine(*old(cpu), *memory)) {
            Ok((m, v)) => r == Ok::<u16, Fault>(v) && machine(*final(cpu), *memory) == m,
            Err(e) => r == Err::<u16, Fault>(e) && *final(cpu) == *old(cpu),
        },
{
    let sp = cpu.registers.read_16(Register16::SP);
    match memory.read_word(sp) {
        Ok(v) => {
            let new_sp: u16 = if sp >= 65534 {
                sp - 65534
            } else {
                sp + 2
            };
            cpu.registers.write_16(Register16::SP, new_sp);
            Ok(v)
        },
        Err(e) => Err(e),
    }
}

/// Decrements SP by 1 and writes `value` at the new SP; on a fault nothing changes.
pub fn stack_push_8(cpu: &mut Cpu, memory: &mut Memory, value: u8) -> (r: Result<(), Fault>)
    requires
        old(cpu).wf(),
        old(memory).wf(),
    ensures
        final(cpu).wf(),
        final(memory).wf(),
        ({
            let sp = wrap16(old(cpu).registers@.sp - 1);
            match bus_write(old(memory)@, sp, value) {
                Ok(mem) => r is Ok && final(memory)@ == mem && final(cpu).registers@
                    == old(cpu).registers@.with_r16(Register16::SP, sp),
                Err(e) => r == Err::<(), Fault>(e) && final(memory)@ == old(memory)@
                    && final(cpu).registers@ == old(cpu).registers@,
            }
        }),
        final(cpu).ime == old(cpu).ime,
{
    let sp = cpu.registers.read_16(Register16::SP);
    let new_sp: u16 = if sp == 0 {
        0xFFFF
    } else {
        sp - 1
    };
    match memory.write_byte(new_sp, value) {
        Ok(()) => {
            cpu.registers.write_16(Register16::SP, new_sp);
            Ok(())
        },
        Err(e) => Err(e),
    }
}

/// Reads the byte at SP and increments SP by 1; on a fault nothing changes.
pub fn stack_pop_8(cpu: &mut Cpu, memory: &Memory) -> (r: Result<u8, Fault>)
    requires
        old(cpu).wf(),
        memory.wf(),
    ensures
        final(cpu).wf(),
        final(cpu).ime == old(cpu).ime,
        match bus_read(memory@, old(cpu).registers@.sp) {
            Ok(v) => r == Ok::<u8, Fault>(v) && final(cpu).registers@ == old(cpu).registers@.with_r16(
                Register16::SP,
                wrap16(old(cpu).registers@.sp + 1),
            ),
            Err(e) => r == Err::<u8, Fault>(e) && final(cpu).registers@ == old(cpu).registers@,
        },
{
    let sp = cpu.registers.read_16(Register16::SP);
    match memory.read_byte(sp) {
        Ok(v) => {
            cpu.registers.write_16(Register16::SP, next_address(sp));
            Ok(v)
        },
        Err(e) => Err(e),
    }
}

fn exec_call(target: u16, cycles: u8, cpu: &mut Cpu, memory: &mut Memory) -> (r: Result<u8, Fault>)
    requires
        old(cpu).wf(),
        old(memory).wf(),
    ensures
        final(cpu).wf(),
        final(memory).wf(),
        outcome(
            call_step(machine(*old(cpu), *old(memory)), target, cycles),
            machine(*old(cpu), *old(memory)),
            r,
            machine(*final(cpu), *final(memory)),
        ),
{
    let pc = cpu.registers.read_16(Register16::PC);
    match stack_push_16(cpu, memory, pc) {
        Ok(()) => {
            cpu.registers.write_16(Register16::PC, target);
            Ok(cycles)
        },
        Err(e) => Err(e),
    }
}

fn exec_ret(cycles: u8, cpu: &mut Cpu, memory: &mut Memory) -> (r: Result<u8, Fault>)
    requires
        old(cpu).wf(),
        old(memory).wf(),
    ensures
        final(cpu).wf(),
        final(memory).wf(),
        outcome(
            ret_step(machine(*old(cpu), *old(memory)), cycles),
            machine(*old(cpu), *old(memory)),
            r,
            machine(*final(cpu), *final(memory)),
        ),
{
    match stack_pop_16(cpu, memory) {
        Ok(v) => {
            cpu.registers.write_16(Register16::PC, v);
            Ok(cycles)
        },
        Err(e) => Err(e),
    }
}

/// Moves HL one step after an access through `r` (see `hl_adjust`).
fn exec_hl_step(r: R16MEM, cpu: &mut Cpu)
    requires
        old(cpu).wf(),
    ensures
        final(cpu).wf(),
        final(cpu).ime == old(cpu).ime,
        final(cpu).registers@ == hl_adjust(old(cpu).registers@, r),
{
    let hl = cpu.registers.read_16(Register16::HL);
    match r {
        R16MEM::Hli => cpu.registers.write_16(Register16::HL, next_address(hl)),
        R16MEM::Hld => cpu.registers.write_16(
            Register16::HL,
            if hl == 0 {
                0xFFFF
            } else {
                hl - 1
            },
        ),
        _ => {},
    }
}

/// The condition of a conditional jump, call or return.
pub open spec fn branch_condition(i: Instruction) -> Option<Cond> {
    match i {
        Instruction::JrCondImm8(cc, _) => Some(cc),
        Instruction::JpCondImm16(cc, _) => Some(cc),
        Instruction::CallCondImm16(cc, _) => Some(cc),
        Instruction::RetCond(cc) => Some(cc),
        _ => None,
    }
}

/// A conditional jump, call or return whose condition fails changes nothing
/// and costs fewer cycles than the same instruction whose condition holds.
pub proof fn lemma_untaken_is_cheaper(i: Instruction, taken: Machine, untaken: Machine)
    requires
        branch_condition(i) is Some,
        cond_holds(branch_condition(i)->Some_0, taken.regs.flags),
        !cond_holds(branch_condition(i)->Some_0, untaken.regs.flags),
        step(i, taken) is Ok,
    ensures
        step(i, untaken) is Ok,
        step(i, untaken)->Ok_0.0 == untaken,
        step(i, untaken)->Ok_0.1 < step(i, taken)->Ok_0.1,
{
    assert(step(i, taken) == jump_step(i, taken) || step(i, taken) == stack_step(i, taken));
}

proof fn lemma_wrap_back(x: u16)
    ensures
        wrap16(wrap16(x - 2) + 2) == x,
{
}

/// PUSH of a register pair followed by POP of the same pair gives back the
/// pair and SP as they were: the push lowers SP by exactly 2 and the pop
/// raises it by exactly 2.
pub proof fn lemma_push_pop(m: Machine, r: R16STK)
    requires
        m.mem.len() == 0x10000,
        step(Instruction::PushR16Stk(r), m) is Ok,
    ensures
        ({
            let (pushed, _) = step(Instruction::PushR16Stk(r), m)->Ok_0;
            &&& pushed.regs.sp == wrap16(m.regs.sp - 2)
            &&& step(Instruction::PopR16Stk(r), pushed) is Ok
            &&& ({
                let (popped, _) = step(Instruction::PopR16Stk(r), pushed)->Ok_0;
                &&& popped.regs.sp == wrap16(pushed.regs.sp + 2)
                &&& popped.regs.sp == m.regs.sp
                &&& popped.regs.r16(r.register()) == m.regs.r16(r.register())
            })
        }),
{
    let v = m.regs.r16(r.register());
    let sp = wrap16(m.regs.sp - 2);
    let push = Instruction::PushR16Stk(r);
    let pop = Instruction::PopR16Stk(r);
    assert(step(push, m) == stack_step(push, m));
    assert(stack_step(push, m) == finish(push_spec(m, v), 4));
    let pushed = push_spec(m, v)->Ok_0;
    assert(pushed.regs == m.regs.with_r16(Register16::SP, sp));
    lemma_word_round_trip(m.mem, sp, v);
    assert(bus_read_word(pushed.mem, sp) == Ok::<u16, Fault>(v));
    assert(step(pop, pushed) == stack_step(pop, pushed));
    let raised = set_r16(pushed, Register16::SP, wrap16(sp + 2));
    assert(pop_spec(pushed) == Ok::<(Machine, u16), Fault>((raised, v)));
    lemma_wrap_back(m.regs.sp);
    if r == R16STK::AF {
        lemma_word_parts(m.regs.a, flags_byte(m.regs.flags));
        lemma_flags_byte_of(m.regs.flags);
    }
}

impl Instruction {
    /// The 16-bit loads.
    fn execute_word_load(self, cpu: &mut Cpu, memory: &mut Memory) -> (r: Result<u8, Fault>)
        requires
            old(cpu).wf(),
            old(memory).wf(),
            matches!(self, Instruction::Nop | Instruction::LdR16Imm16(..) | Instruction::LdR16MemA(..) | Instruction::LdAR16Mem(..) | Instruction::LdMemImm16SP(..)),
        ensures
            final(cpu).wf(),
            final(memory).wf(),
            outcome(
                word_load_step(self, machine(*old(cpu), *old(memory))),
                machine(*old(cpu), *old(memory)),
                r,
                machine(*final(cpu), *final(memory)),
            ),
    {
        match self {
            Instruction::Nop => Ok(1),
            Instruction::LdR16Imm16(register, value) => {
                cpu.registers.write_16(Register16::from(register), value);
                Ok(3)
            },
            Instruction::LdR16MemA(register) => {
                let address = cpu.registers.read_16(Register16::from(register));
                let value = cpu.registers.read_8(Register8::A);
                if let Err(e) = memory.write_byte(address, value) {
                    return Err(e);
                }
                exec_hl_step(register, cpu);
                Ok(2)
            },
            Instruction::LdAR16Mem(register) => {
                let address = cpu.registers.read_16(Register16::from(register));
                let value = match memory.read_byte(address) {
                    Ok(v) => v,
                    Err(e) => return Err(e),
                };
                cpu.registers.write_8(Register8::A, value);
                exec_hl_step(register, cpu);
                Ok(2)
            },
            Instruction::LdMemImm16SP(address) => {
                let value = cpu.registers.read_16(Register16::SP);
                match memory.write_word(address, value) {
                    Ok(()) => Ok(5),
                    Err(e) => Err(e),
                }
            },
            // the other instructions belong to other families
            _ => Err(Fault::Unimplemented),
        }
    }

    /// The 16-bit arithmetic.
    fn execute_word_arith(self, cpu: &mut Cpu, memory: &mut Memory) -> (r: Result<u8, Fault>)
        requires
            old(cpu).wf(),
            old(memory).wf(),
            matches!(self, Instruction::IncR16(..) | Instruction::DecR16(..) | Instruction::AddHlR16(..)),
        ensures
            final(cpu).wf(),
            final(memory).wf(),
            outcome(
                word_arith_step(self, machine(*old(cpu), *old(memory))),
                machine(*old(cpu), *old(memory)),
                r,
                machine(*final(cpu), *final(memory)),
            ),
    {
        let hl = cpu.registers.read_16(Register16::HL);
        match self {
            Instruction::IncR16(register) => {
                let reg = Register16::from(register);
                let value = cpu.registers.read_16(reg);
                cpu.registers.write_16(reg, next_address(value));
                Ok(2)
            },
            Instruction::DecR16(register) => {
                let reg = Register16::from(register);
                let value = cpu.registers.read_16(reg);
                cpu.registers.write_16(
                    reg,
                    if value == 0 {
                        0xFFFF
                    } else {
                        value - 1
                    },
                );
                Ok(2)
            },
            Instruction::AddHlR16(register) => {
                let value = cpu.registers.read_16(Register16::from(register));
                let flags = cpu.registers.flags();
                let (result, f) = add_hl(hl, value, flags);
                cpu.registers.write_16(Register16::HL, result);
                cpu.registers.set_flags(f);
                Ok(2)
            },
            // the other instructions belong to other families
            _ => Err(Fault::Unimplemented),
        }
    }

    /// SP arithmetic, DI and EI; HALT and STOP, which the core does not model.
    fn execute_stack_pointer(self, cpu: &mut Cpu, memory: &mut Memory) -> (r: Result<u8, Fault>)
        requires
            old(cpu).wf(),
            old(memory).wf(),
            matches!(self, Instruction::LdSpHl | Instruction::AddSpImm8(..) | Instruction::LdHlSpImm8(..) | Instruction::Di | Instruction::Ei | Instruction::Stop | Instruction::Halt),
        ensures
            final(cpu).wf(),
            final(memory).wf(),
            outcome(
                stack_pointer_step(self, machine(*old(cpu), *old(memory))),
                machine(*old(cpu), *old(memory)),
                r,
                machine(*final(cpu), *final(memory)),
            ),
    {
        let hl = cpu.registers.read_16(Register16::HL);
        match self {
            Instruction::LdSpHl => {
                cpu.registers.write_16(Register16::SP, hl);
                Ok(2)
            },
            Instruction::AddSpImm8(offset) => {
                let sp = cpu.registers.read_16(Register16::SP);
                let (result, f) = add_sp(sp, offset);
                cpu.registers.write_16(Register16::SP, result);
                cpu.registers.set_flags(f);
                Ok(4)
            },
            Instruction::LdHlSpImm8(offset) => {
                let sp = cpu.registers.read_16(Register16::SP);
                let (result, f) = add_sp(sp, offset);
                cpu.registers.write_16(Register16::HL, result);
                cpu.registers.set_flags(f);
                Ok(3)
            },
            Instruction::Di => {
                cpu.ime = false;
                Ok(1)
            },
            Instruction::Ei => {
                cpu.ime = true;
                Ok(1)
            },
            Instruction::Stop => Err(Fault::Unimplemented),
            Instruction::Halt => Err(Fault::Unimplemented),
            // the other instructions belong to other families
            _ => Err(Fault::Unimplemented),
        }
    }

    /// INC, DEC and loads of 8-bit registers and of memory at HL.
    fn execute_byte(self, cpu: &mut Cpu, memory: &mut Memory) -> (r: Result<u8, Fault>)
        requires
            old(cpu).wf(),
            old(memory).wf(),
            matches!(self, Instruction::IncR8(..) | Instruction::IncMemHl | Instruction::DecR8(..) | Instruction::DecMemHl | Instruction::LdR8Imm8(..) | Instruction::LdMemHlImm8(..) | Instruction::LdR8R8(..) | Instruction::LdR8MemHl(..) | Instruction::LdMemHlR8(..)),
        ensures
            final(cpu).wf(),
            final(memory).wf(),
            outcome(
                byte_step(self, machine(*old(cpu), *old(memory))),
                machine(*old(cpu), *old(memory)),
                r,
                machine(*final(cpu), *final(memory)),
            ),
    {
        let hl = cpu.registers.read_16(Register16::HL);
        let mem_hl = Operand8::Mem(hl);
        match self {
            Instruction::IncR8(register) => exec_unary(
                UnaryOp::Inc,
                Operand8::Reg(register),
                1,
                cpu,
                memory,
            ),
            Instruction::IncMemHl => exec_unary(UnaryOp::Inc, mem_hl, 3, cpu, memory),
            Instruction::DecR8(register) => exec_unary(
                UnaryOp::Dec,
                Operand8::Reg(register),
                1,
                cpu,
                memory,
            ),
            Instruction::DecMemHl => exec_unary(UnaryOp::Dec, mem_hl, 3, cpu, memory),
            Instruction::LdR8Imm8(register, value) => exec_ld(
                Operand8::Reg(register),
                Operand8::Imm(value),
                2,
                cpu,
                memory,
            ),
            Instruction::LdMemHlImm8(value) => exec_ld(mem_hl, Operand8::Imm(value), 3, cpu, memory),
            Instruction::LdR8R8(target, source) => exec_ld(
                Operand8::Reg(target),
                Operand8::Reg(source),
                1,
                cpu,
                memory,
            ),
            Instruction::LdR8MemHl(target) => exec_ld(Operand8::Reg(target), mem_hl, 2, cpu, memory),
            Instruction::LdMemHlR8(source) => exec_ld(mem_hl, Operand8::Reg(source), 2, cpu, memory),
            // the other instructions belong to other families
            _ => Err(Fault::Unimplemented),
        }
    }

    /// Loads between A and an absolute or high-page address.
    fn execute_load_a(self, cpu: &mut Cpu, memory: &mut Memory) -> (r: Result<u8, Fault>)
        requires
            old(cpu).wf(),
            old(memory).wf(),
            matches!(self, Instruction::LdhMemCA | Instruction::LdhMemImm8A(..) | Instruction::LdMemImm16A(..) | Instruction::LdAMemC | Instruction::LdhAMemImm8(..) | Instruction::LdAMemImm16(..)),
        ensures
            final(cpu).wf(),
            final(memory).wf(),
            outcome(
                load_a_step(self, machine(*old(cpu), *old(memory))),
                machine(*old(cpu), *old(memory)),
                r,
                machine(*final(cpu), *final(memory)),
            ),
    {
        let a = Operand8::Reg(R8::A);
        match self {
            Instruction::LdhMemCA => {
                let c = cpu.registers.read_8(Register8::C);
                exec_ld(Operand8::Mem(0xFF00 + c as u16), a, 2, cpu, memory)
            },
            Instruction::LdhMemImm8A(offset) => exec_ld(
                Operand8::Mem(0xFF00 + offset as u16),
                a,
                3,
                cpu,
                memory,
            ),
            Instruction::LdMemImm16A(address) => exec_ld(Operand8::Mem(address), a, 4, cpu, memory),
            Instruction::LdAMemC => {
                let c = cpu.registers.read_8(Register8::C);
                exec_ld(a, Operand8::Mem(0xFF00 + c as u16), 2, cpu, memory)
            },
            Instruction::LdhAMemImm8(offset) => exec_ld(
                a,
                Operand8::Mem(0xFF00 + offset as u16),
                3,
                cpu,
                memory,
            ),
            Instruction::LdAMemImm16(address) => exec_ld(a, Operand8::Mem(address), 4, cpu, memory),
            // the other instructions belong to other families
            _ => Err(Fault::Unimplemented),
        }
    }

    /// The rotates of A, DAA, CPL, SCF, CCF.
    fn execute_accumulator(self, cpu: &mut Cpu, memory: &mut Memory) -> (r: Result<u8, Fault>)
        requires
            old(cpu).wf(),
            old(memory).wf(),
            matches!(self, Instruction::Rlca | Instruction::Rrca | Instruction::Rla | Instruction::Rra | Instruction::Daa | Instruction::Cpl | Instruction::Scf | Instruction::Ccf),
        ensures
            final(cpu).wf(),
            final(memory).wf(),
            outcome(
                accumulator_step(self, machine(*old(cpu), *old(memory))),
                machine(*old(cpu), *old(memory)),
                r,
                machine(*final(cpu), *final(memory)),
            ),
    {
        match self {
            Instruction::Rlca => {
                exec_rotate_a(ShiftOp::Rlc, cpu);
                Ok(1)
            },
            Instruction::Rrca => {
                exec_rotate_a(ShiftOp::Rrc, cpu);
                Ok(1)
            },
            Instruction::Rla => {
                exec_rotate_a(ShiftOp::Rl, cpu);
                Ok(1)
            },
            Instruction::Rra => {
                exec_rotate_a(ShiftOp::Rr, cpu);
                Ok(1)
            },
            Instruction::Daa => {
                let value = cpu.registers.read_8(Register8::A);
                let flags = cpu.registers.flags();
                let (result, f) = daa(value, flags);
                cpu.registers.write_8(Register8::A, result);
                cpu.registers.set_flags(f);
                Ok(1)
            },
            Instruction::Cpl => {
                let value = cpu.registers.read_8(Register8::A);
                let flags = cpu.registers.flags();
                cpu.registers.write_8(Register8::A, 255 - value);
                cpu.registers.set_flags(Flags { n: true, h: true, ..flags });
                Ok(1)
            },
            Instruction::Scf => {
                let flags = cpu.registers.flags();
                cpu.registers.set_flags(Flags { n: false, h: false, c: true, ..flags });
                Ok(1)
            },
            Instruction::Ccf => {
                let flags = cpu.registers.flags();
                cpu.registers.set_flags(Flags { n: false, h: false, c: !flags.c, ..flags });
                Ok(1)
            },
            // the other instructions belong to other families
            _ => Err(Fault::Unimplemented),
        }
    }

    /// Arithmetic and logic on A and a register.
    fn execute_alu_register(self, cpu: &mut Cpu, memory: &mut Memory) -> (r: Result<u8, Fault>)
        requires
            old(cpu).wf(),
            old(memory).wf(),
            matches!(self, Instruction::AddAR8(..) | Instruction::AdcAR8(..) | Instruction::SubAR8(..) | Instruction::SbcAR8(..) | Instruction::AndAR8(..) | Instruction::XorAR8(..) | Instruction::OrAR8(..) | Instruction::CpAR8(..)),
        ensures
            final(cpu).wf(),
            final(memory).wf(),
            outcome(
                alu_register_step(self, machine(*old(cpu), *old(memory))),
                machine(*old(cpu), *old(memory)),
                r,
                machine(*final(cpu), *final(memory)),
            ),
    {
        match self {
            Instruction::AddAR8(register) => exec_alu(AluOp::Add, Operand8::Reg(register), 1, cpu, memory),
            Instruction::AdcAR8(register) => exec_alu(AluOp::Adc, Operand8::Reg(register), 1, cpu, memory),
            Instruction::SubAR8(register) => exec_alu(AluOp::Sub, Operand8::Reg(register), 1, cpu, memory),
            Instruction::SbcAR8(register) => exec_alu(AluOp::Sbc, Operand8::Reg(register), 1, cpu, memory),
            Instruction::AndAR8(register) => exec_alu(AluOp::And, Operand8::Reg(register), 1, cpu, memory),
            Instruction::XorAR8(register) => exec_alu(AluOp::Xor, Operand8::Reg(register), 1, cpu, memory),
            Instruction::OrAR8(register) => exec_alu(AluOp::Or, Operand8::Reg(register), 1, cpu, memory),
            Instruction::CpAR8(register) => exec_alu(AluOp::Cp, Operand8::Reg(register), 1, cpu, memory),
            // the other instructions belong to other families
            _ => Err(Fault::Unimplemented),
        }
    }

    /// Arithmetic and logic on A and memory at HL.
    fn execute_alu_memory(self, cpu: &mut Cpu, memory: &mut Memory) -> (r: Result<u8, Fault>)
        requires
            old(cpu).wf(),
            old(memory).wf(),
            matches!(self, Instruction::AddAMemHl | Instruction::AdcAMemHl | Instruction::SubAMemHl | Instruction::SbcAMemHl | Instruction::AndAMemHl | Instruction::XorAMemHl | Instruction::OrAMemHl | Instruction::CpAMemHl),
        ensures
            final(cpu).wf(),
            final(memory).wf(),
            outcome(
                alu_memory_step(self, machine(*old(cpu), *old(memory))),
                machine(*old(cpu), *old(memory)),
                r,
                machine(*final(cpu), *final(memory)),
            ),
    {
        let hl = cpu.registers.read_16(Register16::HL);
        let mem_hl = Operand8::Mem(hl);
        match self {
            Instruction::AddAMemHl => exec_alu(AluOp::Add, mem_hl, 2, cpu, memory),
            Instruction::AdcAMemHl => exec_alu(AluOp::Adc, mem_hl, 2, cpu, memory),
            Instruction::SubAMemHl => exec_alu(AluOp::Sub, mem_hl, 2, cpu, memory),
            Instruction::SbcAMemHl => exec_alu(AluOp::Sbc, mem_hl, 2, cpu, memory),
            Instruction::AndAMemHl => exec_alu(AluOp::And, mem_hl, 2, cpu, memory),
            Instruction::XorAMemHl => exec_alu(AluOp::Xor, mem_hl, 2, cpu, memory),
            Instruction::OrAMemHl => exec_alu(AluOp::Or, mem_hl, 2, cpu, memory),
            Instruction::CpAMemHl => exec_alu(AluOp::Cp, mem_hl, 2, cpu, memory),
            // the other instructions belong to other families
            _ => Err(Fault::Unimplemented),
        }
    }

    /// Arithmetic and logic on A and an immediate byte.
    fn execute_alu_immediate(self, cpu: &mut Cpu, memory: &mut Memory) -> (r: Result<u8, Fault>)
        requires
            old(cpu).wf(),
            old(memory).wf(),
            matches!(self, Instruction::AddAImm8(..) | Instruction::AdcAImm8(..) | Instruction::SubAImm8(..) | Instruction::SbcAImm8(..) | Instruction::AndAImm8(..) | Instruction::XorAImm8(..) | Instruction::OrAImm8(..) | Instruction::CpAImm8(..)),
        ensures
            final(cpu).wf(),
            final(memory).wf(),
            outcome(
                alu_immediate_step(self, machine(*old(cpu), *old(memory))),
                machine(*old(cpu), *old(memory)),
                r,
                machine(*final(cpu), *final(memory)),
            ),
    {
        match self {
            Instruction::AddAImm8(value) => exec_alu(AluOp::Add, Operand8::Imm(value), 2, cpu, memory),
            Instruction::AdcAImm8(value) => exec_alu(AluOp::Adc, Operand8::Imm(value), 2, cpu, memory),
            Instruction::SubAImm8(value) => exec_alu(AluOp::Sub, Operand8::Imm(value), 2, cpu, memory),
            Instruction::SbcAImm8(value) => exec_alu(AluOp::Sbc, Operand8::Imm(value), 2, cpu, memory),
            Instruction::AndAImm8(value) => exec_alu(AluOp::And, Operand8::Imm(value), 2, cpu, memory),
            Instruction::XorAImm8(value) => exec_alu(AluOp::Xor, Operand8::Imm(value), 2, cpu, memory),
            Instruction::OrAImm8(value) => exec_alu(AluOp::Or, Operand8::Imm(value), 2, cpu, memory),
            Instruction::CpAImm8(value) => exec_alu(AluOp::Cp, Operand8::Imm(value), 2, cpu, memory),
            // the other instructions belong to other families
            _ => Err(Fault::Unimplemented),
        }
    }

    /// Relative and absolute jumps.
    fn execute_jump(self, cpu: &mut Cpu, memory: &mut Memory) -> (r: Result<u8, Fault>)
        requires
            old(cpu).wf(),
            old(memory).wf(),
            matches!(self, Instruction::JrImm8(..) | Instruction::JrCondImm8(..) | Instruction::JpCondImm16(..) | Instruction::JpImm16(..) | Instruction::JpHl),
        ensures
            final(cpu).wf(),
            final(memory).wf(),
            outcome(
                jump_step(self, machine(*old(cpu), *old(memory))),
                machine(*old(cpu), *old(memory)),
                r,
                machine(*final(cpu), *final(memory)),
            ),
    {
        let hl = cpu.registers.read_16(Register16::HL);
        match self {
            Instruction::JrImm8(offset) => {
                let pc = cpu.registers.read_16(Register16::PC);
                cpu.registers.write_16(Register16::PC, relative(pc, offset));
                Ok(3)
            },
            Instruction::JrCondImm8(condition_code, offset) => {
                if condition(cpu, condition_code) {
                    let pc = cpu.registers.read_16(Register16::PC);
                    cpu.registers.write_16(Register16::PC, relative(pc, offset));
                    Ok(3)
                } else {
                    Ok(2)
                }
            },
            Instruction::JpCondImm16(condition_code, location) => {
                if condition(cpu, condition_code) {
                    cpu.registers.write_16(Register16::PC, location);
                    Ok(4)
                } else {
                    Ok(3)
                }
            },
            Instruction::JpImm16(location) => {
                cpu.registers.write_16(Register16::PC, location);
                Ok(4)
            },
            Instruction::JpHl => {
                cpu.registers.write_16(Register16::PC, hl);
                Ok(1)
            },
            // the other instructions belong to other families
            _ => Err(Fault::Unimplemented),
        }
    }

    /// Calls, returns, restarts, PUSH and POP.
    fn execute_stack(self, cpu: &mut Cpu, memory: &mut Memory) -> (r: Result<u8, Fault>)
        requires
            old(cpu).wf(),
            old(memory).wf(),
            matches!(self, Instruction::RetCond(..) | Instruction::Ret | Instruction::Reti | Instruction::CallCondImm16(..) | Instruction::CallImm16(..) | Instruction::RstTgt3(..) | Instruction::PopR16Stk(..) | Instruction::PushR16Stk(..)),
        ensures
            final(cpu).wf(),
            final(memory).wf(),
            outcome(
                stack_step(self, machine(*old(cpu), *old(memory))),
                machine(*old(cpu), *old(memory)),
                r,
                machine(*final(cpu), *final(memory)),
            ),
    {
        match self {
            Instruction::RetCond(condition_code) => {
                if condition(cpu, condition_code) {
                    exec_ret(5, cpu, memory)
                } else {
                    Ok(2)
                }
            },
            Instruction::Ret => exec_ret(4, cpu, memory),
            Instruction::Reti => {
                let r = exec_ret(4, cpu, memory);
                if r.is_ok() {
                    cpu.ime = true;
                }
                r
            },
            Instruction::CallCondImm16(condition_code, location) => {
                if condition(cpu, condition_code) {
                    exec_call(location, 6, cpu, memory)
                } else {
                    Ok(3)
                }
            },
            Instruction::CallImm16(location) => exec_call(location, 6, cpu, memory),
            Instruction::RstTgt3(target) => exec_call(target.address(), 4, cpu, memory),
            Instruction::PopR16Stk(register) => match stack_pop_16(cpu, memory) {
                Ok(value) => {
                    cpu.registers.write_16(Register16::from(register), value);
                    Ok(3)
                },
                Err(e) => Err(e),
            },
            Instruction::PushR16Stk(register) => {
                let value = cpu.registers.read_16(Register16::from(register));
                match stack_push_16(cpu, memory, value) {
                    Ok(()) => Ok(4),
                    Err(e) => Err(e),
                }
            },
            // the other instructions belong to other families
            _ => Err(Fault::Unimplemented),
        }
    }

    /// Rotates and shifts of a register (0xCB prefix).
    fn execute_shift_register(self, cpu: &mut Cpu, memory: &mut Memory) -> (r: Result<u8, Fault>)
        requires
            old(cpu).wf(),
            old(memory).wf(),
            matches!(self, Instruction::RlcR8(..) | Instruction::RrcR8(..) | Instruction::RlR8(..) | Instruction::RrR8(..) | Instruction::SlaR8(..) | Instruction::SraR8(..) | Instruction::SwapR8(..) | Instruction::SrlR8(..)),
        ensures
            final(cpu).wf(),
            final(memory).wf(),
            outcome(
                shift_register_step(self, machine(*old(cpu), *old(memory))),
                machine(*old(cpu), *old(memory)),
                r,
                machine(*final(cpu), *final(memory)),
            ),
    {
        match self {
            Instruction::RlcR8(register) => exec_unary(UnaryOp::Shift(ShiftOp::Rlc), Operand8::Reg(register), 2, cpu, memory),
            Instruction::RrcR8(register) => exec_unary(UnaryOp::Shift(ShiftOp::Rrc), Operand8::Reg(register), 2, cpu, memory),
            Instruction::RlR8(register) => exec_unary(UnaryOp::Shift(ShiftOp::Rl), Operand8::Reg(register), 2, cpu, memory),
            Instruction::RrR8(register) => exec_unary(UnaryOp::Shift(ShiftOp::Rr), Operand8::Reg(register), 2, cpu, memory),
            Instruction::SlaR8(register) => exec_unary(UnaryOp::Shift(ShiftOp::Sla), Operand8::Reg(register), 2, cpu, memory),
            Instruction::SraR8(register) => exec_unary(UnaryOp::Shift(ShiftOp::Sra), Operand8::Reg(register), 2, cpu, memory),
            Instruction::SwapR8(register) => exec_unary(UnaryOp::Shift(ShiftOp::Swap), Operand8::Reg(register), 2, cpu, memory),
            Instruction::SrlR8(register) => exec_unary(UnaryOp::Shift(ShiftOp::Srl), Operand8::Reg(register), 2, cpu, memory),
            // the other instructions belong to other families
            _ => Err(Fault::Unimplemented),
        }
    }

    /// Rotates and shifts of memory at HL (0xCB prefix).
    fn execute_shift_memory(self, cpu: &mut Cpu, memory: &mut Memory) -> (r: Result<u8, Fault>)
        requires
            old(cpu).wf(),
            old(memory).wf(),
            matches!(self, Instruction::RlcMemHl | Instruction::RrcMemHl | Instruction::RlMemHl | Instruction::RrMemHl | Instruction::SlaMemHl | Instruction::SraMemHl | Instruction::SwapMemHl | Instruction::SrlMemHl),
        ensures
            final(cpu).wf(),
            final(memory).wf(),
            outcome(
                shift_memory_step(self, machine(*old(cpu), *old(memory))),
                machine(*old(cpu), *old(memory)),
                r,
                machine(*final(cpu), *final(memory)),
            ),
    {
        let hl = cpu.registers.read_16(Register16::HL);
        let mem_hl = Operand8::Mem(hl);
        match self {
            Instruction::RlcMemHl => exec_unary(UnaryOp::Shift(ShiftOp::Rlc), mem_hl, 4, cpu, memory),
            Instruction::RrcMemHl => exec_unary(UnaryOp::Shift(ShiftOp::Rrc), mem_hl, 4, cpu, memory),
            Instruction::RlMemHl => exec_unary(UnaryOp::Shift(ShiftOp::Rl), mem_hl, 4, cpu, memory),
            Instruction::RrMemHl => exec_unary(UnaryOp::Shift(ShiftOp::Rr), mem_hl, 4, cpu, memory),
            Instruction::SlaMemHl => exec_unary(UnaryOp::Shift(ShiftOp::Sla), mem_hl, 4, cpu, memory),
            Instruction::SraMemHl => exec_unary(UnaryOp::Shift(ShiftOp::Sra), mem_hl, 4, cpu, memory),
            Instruction::SwapMemHl => exec_unary(UnaryOp::Shift(ShiftOp::Swap), mem_hl, 4, cpu, memory),
            Instruction::SrlMemHl => exec_unary(UnaryOp::Shift(ShiftOp::Srl), mem_hl, 4, cpu, memory),
            // the other instructions belong to other families
            _ => Err(Fault::Unimplemented),
        }
    }

    /// BIT, RES and SET (0xCB prefix).
    fn execute_bit(self, cpu: &mut Cpu, memory: &mut Memory) -> (r: Result<u8, Fault>)
        requires
            old(cpu).wf(),
            old(memory).wf(),
            matches!(self, Instruction::BitB3MemHl(..) | Instruction::BitB3R8(..) | Instruction::ResB3MemHl(..) | Instruction::ResB3R8(..) | Instruction::SetB3MemHl(..) | Instruction::SetB3R8(..)),
        ensures
            final(cpu).wf(),
            final(memory).wf(),
            outcome(
                bit_step(self, machine(*old(cpu), *old(memory))),
                machine(*old(cpu), *old(memory)),
                r,
                machine(*final(cpu), *final(memory)),
            ),
    {
        let hl = cpu.registers.read_16(Register16::HL);
        let mem_hl = Operand8::Mem(hl);
        match self {
            Instruction::BitB3MemHl(bit) => exec_unary(UnaryOp::TestBit(bit), mem_hl, 3, cpu, memory),
            Instruction::BitB3R8(bit, register) => exec_unary(UnaryOp::TestBit(bit), Operand8::Reg(register), 2, cpu, memory),
            Instruction::ResB3MemHl(bit) => exec_unary(UnaryOp::ResetBit(bit), mem_hl, 4, cpu, memory),
            Instruction::ResB3R8(bit, register) => exec_unary(UnaryOp::ResetBit(bit), Operand8::Reg(register), 2, cpu, memory),
            Instruction::SetB3MemHl(bit) => exec_unary(UnaryOp::SetBit(bit), mem_hl, 4, cpu, memory),
            Instruction::SetB3R8(bit, register) => exec_unary(UnaryOp::SetBit(bit), Operand8::Reg(register), 2, cpu, memory),
            // the other instructions belong to other families
            _ => Err(Fault::Unimplemented),
        }
    }

    /// Executes the instruction, consuming it; returns the machine cycles it
    /// took. PC must already point past the instruction. On a fault nothing
    /// changes.
    pub fn execute(self, cpu: &mut Cpu, memory: &mut Memory) -> (r: Result<u8, Fault>)
        requires
            old(cpu).wf(),
            old(memory).wf(),
        ensures
            final(cpu).wf(),
            final(memory).wf(),
            outcome(
                step(self, machine(*old(cpu), *old(memory))),
                machine(*old(cpu), *old(memory)),
                r,
                machine(*final(cpu), *final(memory)),
            ),
    {
        match self {
            Instruction::Nop | Instruction::LdR16Imm16(..) | Instruction::LdR16MemA(..) | Instruction::LdAR16Mem(..) | Instruction::LdMemImm16SP(..) => self.execute_word_load(cpu, memory),
            Instruction::IncR16(..) | Instruction::DecR16(..) | Instruction::AddHlR16(..) => self.execute_word_arith(cpu, memory),
            Instruction::LdSpHl | Instruction::AddSpImm8(..) | Instruction::LdHlSpImm8(..) | Instruction::Di | Instruction::Ei | Instruction::Stop | Instruction::Halt => self.execute_stack_pointer(cpu, memory),
            Instruction::IncR8(..) | Instruction::IncMemHl | Instruction::DecR8(..) | Instruction::DecMemHl | Instruction::LdR8Imm8(..) | Instruction::LdMemHlImm8(..) | Instruction::LdR8R8(..) | Instruction::LdR8MemHl(..) | Instruction::LdMemHlR8(..) => self.execute_byte(cpu, memory),
            Instruction::LdhMemCA | Instruction::LdhMemImm8A(..) | Instruction::LdMemImm16A(..) | Instruction::LdAMemC | Instruction::LdhAMemImm8(..) | Instruction::LdAMemImm16(..) => self.execute_load_a(cpu, memory),
            Instruction::Rlca | Instruction::Rrca | Instruction::Rla | Instruction::Rra | Instruction::Daa | Instruction::Cpl | Instruction::Scf | Instruction::Ccf => self.execute_accumulator(cpu, memory),
            Instruction::AddAR8(..) | Instruction::AdcAR8(..) | Instruction::SubAR8(..) | Instruction::SbcAR8(..) | Instruction::AndAR8(..) | Instruction::XorAR8(..) | Instruction::OrAR8(..) | Instruction::CpAR8(..) => self.execute_alu_register(cpu, memory),
            Instruction::AddAMemHl | Instruction::AdcAMemHl | Instruction::SubAMemHl | Instruction::SbcAMemHl | Instruction::AndAMemHl | Instruction::XorAMemHl | Instruction::OrAMemHl | Instruction::CpAMemHl => self.execute_alu_memory(cpu, memory),
            Instruction::AddAImm8(..) | Instruction::AdcAImm8(..) | Instruction::SubAImm8(..) | Instruction::SbcAImm8(..) | Instruction::AndAImm8(..) | Instruction::XorAImm8(..) | Instruction::OrAImm8(..) | Instruction::CpAImm8(..) => self.execute_alu_immediate(cpu, memory),
            Instruction::JrImm8(..) | Instruction::JrCondImm8(..) | Instruction::JpCondImm16(..) | Instruction::JpImm16(..) | Instruction::JpHl => self.execute_jump(cpu, memory),
            Instruction::RetCond(..) | Instruction::Ret | Instruction::Reti | Instruction::CallCondImm16(..) | Instruction::CallImm16(..) | Instruction::RstTgt3(..) | Instruction::PopR16Stk(..) | Instruction::PushR16Stk(..) => self.execute_stack(cpu, memory),
            Instruction::RlcR8(..) | Instruction::RrcR8(..) | Instruction::RlR8(..) | Instruction::RrR8(..) | Instruction::SlaR8(..) | Instruction::SraR8(..) | Instruction::SwapR8(..) | Instruction::SrlR8(..) => self.execute_shift_register(cpu, memory),
            Instruction::RlcMemHl | Instruction::RrcMemHl | Instruction::RlMemHl | Instruction::RrMemHl | Instruction::SlaMemHl | Instruction::SraMemHl | Instruction::SwapMemHl | Instruction::SrlMemHl => self.execute_shift_memory(cpu, memory),
            Instruction::BitB3MemHl(..) | Instruction::BitB3R8(..) | Instruction::ResB3MemHl(..) | Instruction::ResB3R8(..) | Instruction::SetB3MemHl(..) | Instruction::SetB3R8(..) => self.execute_bit(cpu, memory),
        }
    }
}

} // verus!
