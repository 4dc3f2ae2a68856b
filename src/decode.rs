//! The opcode decoder. An opcode byte is read through three overlapping
//! bit-field views at once, `xxyyzzzz`, `xxaaabbb` and `iiijjbbb`; the
//! patterns below are tried in order, from single opcodes down to whole rows,
//! so that, e.g., HALT wins over the general `LD r8, r8` row it sits in.
use vstd::prelude::*;

use crate::bytes::{combine, lemma_word_parts};
use crate::fault::Fault;
use crate::instruction::{encode, encodes, operand_count, undefined_opcode, Instruction};
use crate::operands::{Cond, B3, R16, R16MEM, R16STK, R8, TGT3};

verus! {

proof fn lemma_opcode_fields(op: u8)
    ensures
        op == 64 * (op / 64) + 16 * ((op / 16) % 4) + op % 16,
        op == 64 * (op / 64) + 8 * ((op / 8) % 8) + op % 8,
        op == 32 * (op / 32) + 8 * ((op / 8) % 4) + op % 8,
        op / 64 < 4,
        op / 32 < 8,
{
    assert(op == 64 * (op / 64) + 16 * ((op / 16) % 4) + op % 16 && op == 64 * (op / 64) + 8 * ((
    op / 8) % 8) + op % 8 && op == 32 * (op / 32) + 8 * ((op / 8) % 4) + op % 8) by (bit_vector);
}

/// The number of bytes that follow the opcode `op` (see `operand_count`).
pub fn operand_len(op: u8) -> (r: u8)
    ensures
        r as nat == operand_count(op),
{
    if op == 0x01 || op == 0x11 || op == 0x21 || op == 0x31 || op == 0x08 || op == 0xC2 || op
        == 0xCA || op == 0xD2 || op == 0xDA || op == 0xC3 || op == 0xC4 || op == 0xCC || op == 0xD4
        || op == 0xDC || op == 0xCD || op == 0xEA || op == 0xFA {
        2
    } else if (op < 0x40 && op % 8 == 6) || (op >= 0xC0 && op % 8 == 6) || op == 0x18 || op
        == 0x20 || op == 0x28 || op == 0x30 || op == 0x38 || op == 0xCB || op == 0xE0 || op == 0xF0
        || op == 0xE8 || op == 0xF8 {
        1
    } else {
        0
    }
}

/// Decodes the byte after the 0xCB prefix: `xx` picks the group (rotate and
/// shift, BIT, RES, SET), `aaa` the operation or the bit, `bbb` the operand.
pub fn map_prefixed_instruction(byte: u8) -> (r: Instruction)
    ensures
        encode(r) == seq![0xCBu8, byte],
{
    let xx = byte / 64;
    let aaa = (byte / 8) % 8;
    let bbb = byte % 8;
    proof {
        lemma_opcode_fields(byte);
    }
    let r = match (xx, aaa, bbb) {
        (0x0, 0x0, 0x6) => Instruction::RlcMemHl,
        (0x0, 0x0, _) => Instruction::RlcR8(R8::from_bits(bbb)),
        (0x0, 0x1, 0x6) => Instruction::RrcMemHl,
        (0x0, 0x1, _) => Instruction::RrcR8(R8::from_bits(bbb)),
        (0x0, 0x2, 0x6) => Instruction::RlMemHl,
        (0x0, 0x2, _) => Instruction::RlR8(R8::from_bits(bbb)),
        (0x0, 0x3, 0x6) => Instruction::RrMemHl,
        (0x0, 0x3, _) => Instruction::RrR8(R8::from_bits(bbb)),
        (0x0, 0x4, 0x6) => Instruction::SlaMemHl,
        (0x0, 0x4, _) => Instruction::SlaR8(R8::from_bits(bbb)),
        (0x0, 0x5, 0x6) => Instruction::SraMemHl,
        (0x0, 0x5, _) => Instruction::SraR8(R8::from_bits(bbb)),
        (0x0, 0x6, 0x6) => Instruction::SwapMemHl,
        (0x0, 0x6, _) => Instruction::SwapR8(R8::from_bits(bbb)),
        (0x0, 0x7, 0x6) => Instruction::SrlMemHl,
        (0x0, _, _) => Instruction::SrlR8(R8::from_bits(bbb)),
        (0x1, _, 0x6) => Instruction::BitB3MemHl(B3::from_bits(aaa)),
        (0x1, _, _) => Instruction::BitB3R8(B3::from_bits(aaa), R8::from_bits(bbb)),
        (0x2, _, 0x6) => Instruction::ResB3MemHl(B3::from_bits(aaa)),
        (0x2, _, _) => Instruction::ResB3R8(B3::from_bits(aaa), R8::from_bits(bbb)),
        (_, _, 0x6) => Instruction::SetB3MemHl(B3::from_bits(aaa)),
        (_, _, _) => Instruction::SetB3R8(B3::from_bits(aaa), R8::from_bits(bbb)),
    };
    assert(encode(r) =~= seq![0xCBu8, byte]);
    r
}

/// Decodes the opcode `opcode` followed by the bytes `b1` and `b2`, of which
/// only as many are used as the opcode takes operands.
pub fn decode(opcode: u8, b1: u8, b2: u8) -> (r: Result<Instruction, Fault>)
    ensures
        r is Err <==> undefined_opcode(opcode),
        r is Err ==> r == Err::<Instruction, Fault>(Fault::UnknownOpcode(opcode)),
        r is Ok ==> encodes(r->Ok_0, opcode, b1, b2),
{
    let xx = opcode / 64;
    let yy = (opcode / 16) % 4;
    let zzzz = opcode % 16;
    let aaa = (opcode / 8) % 8;
    let bbb = opcode % 8;
    let iii = opcode / 32;
    let jj = (opcode / 8) % 4;
    let imm16 = combine(b2, b1);
    proof {
        lemma_opcode_fields(opcode);
        lemma_word_parts(b2, b1);
    }
    // matching any one of the three views selects the instruction
    match ((xx, yy, zzzz), (xx, aaa, bbb), (iii, jj, bbb)) {
        // Block 0
        ((0x0, 0x0, 0x0), _, _) => Ok(Instruction::Nop), // NOP

        ((0x0, _, 0x1), _, _) => Ok(Instruction::LdR16Imm16(R16::from_bits(yy), imm16)), // LD R16, imm16
        ((0x0, _, 0x2), _, _) => Ok(Instruction::LdR16MemA(R16MEM::from_bits(yy))), // LD (R16), A
        ((0x0, _, 0xA), _, _) => Ok(Instruction::LdAR16Mem(R16MEM::from_bits(yy))), // LD A, (R16)
        ((0x0, 0x0, 0x8), _, _) => Ok(Instruction::LdMemImm16SP(imm16)), // LD (imm16), SP

        ((0x0, _, 0x3), _, _) => Ok(Instruction::IncR16(R16::from_bits(yy))), // INC R16
        ((0x0, _, 0xB), _, _) => Ok(Instruction::DecR16(R16::from_bits(yy))), // DEC R16
        ((0x0, _, 0x9), _, _) => Ok(Instruction::AddHlR16(R16::from_bits(yy))), // ADD HL, R16

        (_, (0x0, 0x6, 0x4), _) => Ok(Instruction::IncMemHl),
        (_, (0x0, _, 0x4), _) => Ok(Instruction::IncR8(R8::from_bits(aaa))), // INC R8
        (_, (0x0, 0x6, 0x5), _) => Ok(Instruction::DecMemHl),
        (_, (0x0, _, 0x5), _) => Ok(Instruction::DecR8(R8::from_bits(aaa))), // DEC R8

        (_, (0x0, 0x6, 0x6), _) => Ok(Instruction::LdMemHlImm8(b1)),
        (_, (0x0, _, 0x6), _) => Ok(Instruction::LdR8Imm8(R8::from_bits(aaa), b1)), // LD R8, Imm8

        ((0x0, 0x0, 0x7), _, _) => Ok(Instruction::Rlca), // RLCA
        ((0x0, 0x0, 0xF), _, _) => Ok(Instruction::Rrca), // RRCA
        ((0x0, 0x1, 0x7), _, _) => Ok(Instruction::Rla), // RLA
        ((0x0, 0x1, 0xF), _, _) => Ok(Instruction::Rra), // RRA
        ((0x0, 0x2, 0x7), _, _) => Ok(Instruction::Daa), // DAA
        ((0x0, 0x2, 0xF), _, _) => Ok(Instruction::Cpl), // CPL
        ((0x0, 0x3, 0x7), _, _) => Ok(Instruction::Scf), // SCF
        ((0x0, 0x3, 0xF), _, _) => Ok(Instruction::Ccf), // CCF

        // Note: offset is signed
        (_, _, (0x0, 0x3, 0x0)) => Ok(Instruction::JrImm8(b1)), // JR imm8
        (_, _, (0x1, _, 0x0)) => Ok(Instruction::JrCondImm8(Cond::from_bits(jj), b1)), // JR cond, imm8

        ((0x0, 0x1, 0x0), _, _) => Ok(Instruction::Stop), // STOP

        // Block 1
        (_, (0x1, 0x6, 0x6), _) => Ok(Instruction::Halt), // HALT
        (_, (0x1, 0x6, _), _) => Ok(Instruction::LdMemHlR8(R8::from_bits(bbb))), // LD (HL), R8
        (_, (0x1, _, 0x6), _) => Ok(Instruction::LdR8MemHl(R8::from_bits(aaa))), // LD R8, (HL)
        (_, (0x1, _, _), _) => Ok(Instruction::LdR8R8(R8::from_bits(aaa), R8::from_bits(bbb))), // LD R8, R8

        // Block 2
        (_, (0x2, 0x0, 0x6), _) => Ok(Instruction::AddAMemHl),
        (_, (0x2, 0x0, _), _) => Ok(Instruction::AddAR8(R8::from_bits(bbb))), // ADD A, R8
        (_, (0x2, 0x1, 0x6), _) => Ok(Instruction::AdcAMemHl),
        (_, (0x2, 0x1, _), _) => Ok(Instruction::AdcAR8(R8::from_bits(bbb))), // ADC A, R8
        (_, (0x2, 0x2, 0x6), _) => Ok(Instruction::SubAMemHl),
        (_, (0x2, 0x2, _), _) => Ok(Instruction::SubAR8(R8::from_bits(bbb))), // SUB A, R8
        (_, (0x2, 0x3, 0x6), _) => Ok(Instruction::SbcAMemHl),
        (_, (0x2, 0x3, _), _) => Ok(Instruction::SbcAR8(R8::from_bits(bbb))), // SBC A, R8
        (_, (0x2, 0x4, 0x6), _) => Ok(Instruction::AndAMemHl),
        (_, (0x2, 0x4, _), _) => Ok(Instruction::AndAR8(R8::from_bits(bbb))), // AND A, R8
        (_, (0x2, 0x5, 0x6), _) => Ok(Instruction::XorAMemHl),
        (_, (0x2, 0x5, _), _) => Ok(Instruction::XorAR8(R8::from_bits(bbb))), // XOR A, R8
        (_, (0x2, 0x6, 0x6), _) => Ok(Instruction::OrAMemHl),
        (_, (0x2, 0x6, _), _) => Ok(Instruction::OrAR8(R8::from_bits(bbb))), // OR A, R8
        (_, (0x2, 0x7, 0x6), _) => Ok(Instruction::CpAMemHl),
        (_, (0x2, 0x7, _), _) => Ok(Instruction::CpAR8(R8::from_bits(bbb))), // CP A, R8

        // Block 3
        ((0x3, 0x0, 0x6), _, _) => Ok(Instruction::AddAImm8(b1)), // ADD A, imm8
        ((0x3, 0x0, 0xE), _, _) => Ok(Instruction::AdcAImm8(b1)), // ADC A, imm8
        ((0x3, 0x1, 0x6), _, _) => Ok(Instruction::SubAImm8(b1)), // SUB A, imm8
        ((0x3, 0x1, 0xE), _, _) => Ok(Instruction::SbcAImm8(b1)), // SBC A, imm8
        ((0x3, 0x2, 0x6), _, _) => Ok(Instruction::AndAImm8(b1)), // AND A, imm8
        ((0x3, 0x2, 0xE), _, _) => Ok(Instruction::XorAImm8(b1)), // XOR A, imm8
        ((0x3, 0x3, 0x6), _, _) => Ok(Instruction::OrAImm8(b1)), // OR A, imm8
        ((0x3, 0x3, 0xE), _, _) => Ok(Instruction::CpAImm8(b1)), // CP A, imm8

        (_, _, (0x6, _, 0x0)) => Ok(Instruction::RetCond(Cond::from_bits(jj))), // RET cond
        (_, _, (0x6, 0x1, 0x1)) => Ok(Instruction::Ret), // RET
        (_, _, (0x6, 0x3, 0x1)) => Ok(Instruction::Reti), // RETI
        (_, _, (0x6, _, 0x2)) => Ok(Instruction::JpCondImm16(Cond::from_bits(jj), imm16)), // JP cond, imm16
        (_, _, (0x6, 0x0, 0x3)) => Ok(Instruction::JpImm16(imm16)), // JP imm16
        (_, _, (0x7, 0x1, 0x1)) => Ok(Instruction::JpHl), // JP HL
        (_, _, (0x6, _, 0x4)) => Ok(Instruction::CallCondImm16(Cond::from_bits(jj), imm16)), // CALL cond, imm16
        (_, _, (0x6, 0x1, 0x5)) => Ok(Instruction::CallImm16(imm16)), // CALL imm16
        (_, (0x3, _, 0x7), _) => Ok(Instruction::RstTgt3(TGT3::from_bits(aaa))), // RST tgt3

        ((0x3, _, 0x1), _, _) => Ok(Instruction::PopR16Stk(R16STK::from_bits(yy))), // POP R16
        ((0x3, _, 0x5), _, _) => Ok(Instruction::PushR16Stk(R16STK::from_bits(yy))), // PUSH R16

        ((0x3, 0x0, 0xB), _, _) => Ok(map_prefixed_instruction(b1)), // CB

        ((0x3, 0x2, 0x2), _, _) => Ok(Instruction::LdhMemCA), // LD (C), A
        ((0x3, 0x2, 0x0), _, _) => Ok(Instruction::LdhMemImm8A(b1)), // LDH (imm8), A
        ((0x3, 0x2, 0xA), _, _) => Ok(Instruction::LdMemImm16A(imm16)), // LD (imm16), A
        ((0x3, 0x3, 0x2), _, _) => Ok(Instruction::LdAMemC), // LD A, (C)
        ((0x3, 0x3, 0x0), _, _) => Ok(Instruction::LdhAMemImm8(b1)), // LDH A, (imm8)
        ((0x3, 0x3, 0xA), _, _) => Ok(Instruction::LdAMemImm16(imm16)), // LD A, (imm16)

        ((0x3, 0x2, 0x8), _, _) => Ok(Instruction::AddSpImm8(b1)),
        ((0x3, 0x3, 0x8), _, _) => Ok(Instruction::LdHlSpImm8(b1)),
        ((0x3, 0x3, 0x9), _, _) => Ok(Instruction::LdSpHl),

        ((0x3, 0x3, 0x3), _, _) => Ok(Instruction::Di),
        ((0x3, 0x3, 0xB), _, _) => Ok(Instruction::Ei),

        _ => Err(Fault::UnknownOpcode(opcode)),
    }
}

} // verus!
