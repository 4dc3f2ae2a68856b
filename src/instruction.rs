//! The instruction set: one variant per opcode family, carrying only the
//! operands its opcode encodes, and the byte encoding of each instruction.
use vstd::prelude::*;

use crate::bytes::{hi_byte, lemma_word_split, lo_byte, word_of};
use crate::operands::{Cond, B3, R16, R16MEM, R16STK, R8, TGT3};

verus! {

/// A decoded SM83 instruction.
#[derive(Debug, Clone, Copy, PartialEq, Eq, Structural)]
pub enum Instruction {
    Nop,
    LdR16Imm16(R16, u16),
    LdR16MemA(R16MEM),
    LdAR16Mem(R16MEM),
    LdMemImm16SP(u16),
    IncR16(R16),
    DecR16(R16),
    AddHlR16(R16),
    IncR8(R8),
    IncMemHl,
    DecR8(R8),
    DecMemHl,
    LdR8Imm8(R8, u8),
    LdMemHlImm8(u8),
    Rlca,
    Rrca,
    Rla,
    Rra,
    Daa,
    Cpl,
    Scf,
    Ccf,
    JrImm8(u8),
    JrCondImm8(Cond, u8),
    Stop,
    LdR8R8(R8, R8),
    LdR8MemHl(R8),
    LdMemHlR8(R8),
    Halt,
    AddAR8(R8),
    AddAMemHl,
    AdcAR8(R8),
    AdcAMemHl,
    SubAR8(R8),
    SubAMemHl,
    SbcAR8(R8),
    SbcAMemHl,
    AndAR8(R8),
    AndAMemHl,
    XorAR8(R8),
    XorAMemHl,
    OrAR8(R8),
    OrAMemHl,
    CpAR8(R8),
    CpAMemHl,
    AddAImm8(u8),
    AdcAImm8(u8),
    SubAImm8(u8),
    SbcAImm8(u8),
    AndAImm8(u8),
    XorAImm8(u8),
    OrAImm8(u8),
    CpAImm8(u8),
    RetCond(Cond),
    Ret,
    Reti,
    JpCondImm16(Cond, u16),
    JpImm16(u16),
    JpHl,
    CallCondImm16(Cond, u16),
    CallImm16(u16),
    RstTgt3(TGT3),
    PopR16Stk(R16STK),
    PushR16Stk(R16STK),
    LdhMemCA,
    LdhMemImm8A(u8),
    LdMemImm16A(u16),
    LdAMemC,
    LdhAMemImm8(u8),
    LdAMemImm16(u16),
    AddSpImm8(u8),
    LdHlSpImm8(u8),
    LdSpHl,
    Di,
    Ei,
    RlcMemHl,
    RlcR8(R8),
    RrcMemHl,
    RrcR8(R8),
    RlMemHl,
    RlR8(R8),
    RrMemHl,
    RrR8(R8),
    SlaMemHl,
    SlaR8(R8),
    SraMemHl,
    SraR8(R8),
    SwapMemHl,
    SwapR8(R8),
    SrlMemHl,
    SrlR8(R8),
    BitB3MemHl(B3),
    BitB3R8(B3, R8),
    ResB3MemHl(B3),
    ResB3R8(B3, R8),
    SetB3MemHl(B3),
    SetB3R8(B3, R8),
}

pub open spec fn one(a: u8) -> Seq<u8> {
    seq![a]
}

pub open spec fn two(a: u8, b: u8) -> Seq<u8> {
    seq![a, b]
}

pub open spec fn three(a: u8, b: u8, c: u8) -> Seq<u8> {
    seq![a, b, c]
}

/// The bytes that encode `i`: the opcode (or the 0xCB prefix and the
/// extended opcode), then an immediate byte or a little-endian word.
pub open spec fn encode(i: Instruction) -> Seq<u8> {
    match i {
        Instruction::Nop => one(0x00),
        Instruction::LdR16Imm16(x, y) => three((0x01 + 16 * x.code()) as u8, lo_byte(y), hi_byte(y)),
        Instruction::LdR16MemA(x) => one((0x02 + 16 * x.code()) as u8),
        Instruction::LdAR16Mem(x) => one((0x0A + 16 * x.code()) as u8),
        Instruction::LdMemImm16SP(x) => three(0x08, lo_byte(x), hi_byte(x)),
        Instruction::IncR16(x) => one((0x03 + 16 * x.code()) as u8),
        Instruction::DecR16(x) => one((0x0B + 16 * x.code()) as u8),
        Instruction::AddHlR16(x) => one((0x09 + 16 * x.code()) as u8),
        Instruction::IncR8(x) => one((0x04 + 8 * x.code()) as u8),
        Instruction::IncMemHl => one(0x34),
        Instruction::DecR8(x) => one((0x05 + 8 * x.code()) as u8),
        Instruction::DecMemHl => one(0x35),
        Instruction::LdR8Imm8(x, y) => two((0x06 + 8 * x.code()) as u8, y),
        Instruction::LdMemHlImm8(x) => two(0x36, x),
        Instruction::Rlca => one(0x07),
        Instruction::Rrca => one(0x0F),
        Instruction::Rla => one(0x17),
        Instruction::Rra => one(0x1F),
        Instruction::Daa => one(0x27),
        Instruction::Cpl => one(0x2F),
        Instruction::Scf => one(0x37),
        Instruction::Ccf => one(0x3F),
        Instruction::JrImm8(x) => two(0x18, x),
        Instruction::JrCondImm8(x, y) => two((0x20 + 8 * x.code()) as u8, y),
        Instruction::Stop => one(0x10),
        Instruction::LdR8R8(x, y) => one((0x40 + 8 * x.code() + y.code()) as u8),
        Instruction::LdR8MemHl(x) => one((0x46 + 8 * x.code()) as u8),
        Instruction::LdMemHlR8(x) => one((0x70 + x.code()) as u8),
        Instruction::Halt => one(0x76),
        Instruction::AddAR8(x) => one((0x80 + x.code()) as u8),
        Instruction::AddAMemHl => one(0x86),
        Instruction::AdcAR8(x) => one((0x88 + x.code()) as u8),
        Instruction::AdcAMemHl => one(0x8E),
        Instruction::SubAR8(x) => one((0x90 + x.code()) as u8),
        Instruction::SubAMemHl => one(0x96),
        Instruction::SbcAR8(x) => one((0x98 + x.code()) as u8),
        Instruction::SbcAMemHl => one(0x9E),
        Instruction::AndAR8(x) => one((0xA0 + x.code()) as u8),
        Instruction::AndAMemHl => one(0xA6),
        Instruction::XorAR8(x) => one((0xA8 + x.code()) as u8),
        Instruction::XorAMemHl => one(0xAE),
        Instruction::OrAR8(x) => one((0xB0 + x.code()) as u8),
        Instruction::OrAMemHl => one(0xB6),
        Instruction::CpAR8(x) => one((0xB8 + x.code()) as u8),
        Instruction::CpAMemHl => one(0xBE),
        Instruction::AddAImm8(x) => two(0xC6, x),
        Instruction::AdcAImm8(x) => two(0xCE, x),
        Instruction::SubAImm8(x) => two(0xD6, x),
        Instruction::SbcAImm8(x) => two(0xDE, x),
        Instruction::AndAImm8(x) => two(0xE6, x),
        Instruction::XorAImm8(x) => two(0xEE, x),
        Instruction::OrAImm8(x) => two(0xF6, x),
        Instruction::CpAImm8(x) => two(0xFE, x),
        Instruction::RetCond(x) => one((0xC0 + 8 * x.code()) as u8),
        Instruction::Ret => one(0xC9),
        Instruction::Reti => one(0xD9),
        Instruction::JpCondImm16(x, y) => three((0xC2 + 8 * x.code()) as u8, lo_byte(y), hi_byte(y)),
        Instruction::JpImm16(x) => three(0xC3, lo_byte(x), hi_byte(x)),
        Instruction::JpHl => one(0xE9),
        Instruction::CallCondImm16(x, y) => three((0xC4 + 8 * x.code()) as u8, lo_byte(y), hi_byte(y)),
        Instruction::CallImm16(x) => three(0xCD, lo_byte(x), hi_byte(x)),
        Instruction::RstTgt3(x) => one((0xC7 + 8 * x.code()) as u8),
        Instruction::PopR16Stk(x) => one((0xC1 + 16 * x.code()) as u8),
        Instruction::PushR16Stk(x) => one((0xC5 + 16 * x.code()) as u8),
        Instruction::LdhMemCA => one(0xE2),
        Instruction::LdhMemImm8A(x) => two(0xE0, x),
        Instruction::LdMemImm16A(x) => three(0xEA, lo_byte(x), hi_byte(x)),
        Instruction::LdAMemC => one(0xF2),
        Instruction::LdhAMemImm8(x) => two(0xF0, x),
        Instruction::LdAMemImm16(x) => three(0xFA, lo_byte(x), hi_byte(x)),
        Instruction::AddSpImm8(x) => two(0xE8, x),
        Instruction::LdHlSpImm8(x) => two(0xF8, x),
        Instruction::LdSpHl => one(0xF9),
        Instruction::Di => one(0xF3),
        Instruction::Ei => one(0xFB),
        Instruction::RlcMemHl => two(0xCB, 0x06),
        Instruction::RlcR8(x) => two(0xCB, (0x00 + x.code()) as u8),
        Instruction::RrcMemHl => two(0xCB, 0x0E),
        Instruction::RrcR8(x) => two(0xCB, (0x08 + x.code()) as u8),
        Instruction::RlMemHl => two(0xCB, 0x16),
        Instruction::RlR8(x) => two(0xCB, (0x10 + x.code()) as u8),
        Instruction::RrMemHl => two(0xCB, 0x1E),
        Instruction::RrR8(x) => two(0xCB, (0x18 + x.code()) as u8),
        Instruction::SlaMemHl => two(0xCB, 0x26),
        Instruction::SlaR8(x) => two(0xCB, (0x20 + x.code()) as u8),
        Instruction::SraMemHl => two(0xCB, 0x2E),
        Instruction::SraR8(x) => two(0xCB, (0x28 + x.code()) as u8),
        Instruction::SwapMemHl => two(0xCB, 0x36),
        Instruction::SwapR8(x) => two(0xCB, (0x30 + x.code()) as u8),
        Instruction::SrlMemHl => two(0xCB, 0x3E),
        Instruction::SrlR8(x) => two(0xCB, (0x38 + x.code()) as u8),
        Instruction::BitB3MemHl(x) => two(0xCB, (0x46 + 8 * x.code()) as u8),
        Instruction::BitB3R8(x, y) => two(0xCB, (0x40 + 8 * x.code() + y.code()) as u8),
        Instruction::ResB3MemHl(x) => two(0xCB, (0x86 + 8 * x.code()) as u8),
        Instruction::ResB3R8(x, y) => two(0xCB, (0x80 + 8 * x.code() + y.code()) as u8),
        Instruction::SetB3MemHl(x) => two(0xCB, (0xC6 + 8 * x.code()) as u8),
        Instruction::SetB3R8(x, y) => two(0xCB, (0xC0 + 8 * x.code() + y.code()) as u8),
    }
}

/// The opcodes that encode no instruction.
pub open spec fn undefined_opcode(op: u8) -> bool {
    op == 0xD3 || op == 0xDB || op == 0xDD || op == 0xE3 || op == 0xE4 || op == 0xEB || op == 0xEC
        || op == 0xED || op == 0xF4 || op == 0xFC || op == 0xFD
}

/// How many bytes follow the opcode `op`: an immediate word, an immediate
/// byte, the extended opcode after the 0xCB prefix, or nothing.
pub open spec fn operand_count(op: u8) -> nat {
    if op == 0x01 || op == 0x11 || op == 0x21 || op == 0x31 || op == 0x08 || op == 0xC2 || op
        == 0xCA || op == 0xD2 || op == 0xDA || op == 0xC3 || op == 0xC4 || op == 0xCC || op == 0xD4
        || op == 0xDC || op == 0xCD || op == 0xEA || op == 0xFA {
        2
    } else if (op < 0x40 && op % 8 == 6) || (op >= 0xC0 && op % 8 == 6) || op == 0x18 || op
        == 0x20 || op == 0x28 || op == 0x30 || op == 0x38 || op == 0xCB || op == 0xE0 || op == 0xF0
        || op == 0xE8 || op == 0xF8 {
        1
    } else {
        0
    }
}

/// Whether `i` is encoded by the opcode `op` followed by `b1` and `b2`, of
/// which it uses as many as the opcode asks for.
pub open spec fn encodes(i: Instruction, op: u8, b1: u8, b2: u8) -> bool {
    let e = encode(i);
    &&& e.len() == 1 + operand_count(op)
    &&& e[0] == op
    &&& operand_count(op) >= 1 ==> e[1] == b1
    &&& operand_count(op) == 2 ==> e[2] == b2
}

spec fn r8_of(c: u8) -> R8 {
    if c == 0 {
        R8::B
    } else if c == 1 {
        R8::C
    } else if c == 2 {
        R8::D
    } else if c == 3 {
        R8::E
    } else if c == 4 {
        R8::H
    } else if c == 5 {
        R8::L
    } else {
        R8::A
    }
}

spec fn r16_of(c: u8) -> R16 {
    if c == 0 {
        R16::BC
    } else if c == 1 {
        R16::DE
    } else if c == 2 {
        R16::HL
    } else {
        R16::SP
    }
}

spec fn r16mem_of(c: u8) -> R16MEM {
    if c == 0 {
        R16MEM::BC
    } else if c == 1 {
        R16MEM::DE
    } else if c == 2 {
        R16MEM::Hli
    } else {
        R16MEM::Hld
    }
}

spec fn r16stk_of(c: u8) -> R16STK {
    if c == 0 {
        R16STK::BC
    } else if c == 1 {
        R16STK::DE
    } else if c == 2 {
        R16STK::HL
    } else {
        R16STK::AF
    }
}

spec fn cond_of(c: u8) -> Cond {
    if c == 0 {
        Cond::NotZero
    } else if c == 1 {
        Cond::Zero
    } else if c == 2 {
        Cond::NotCarry
    } else {
        Cond::Carry
    }
}

spec fn b3_of(c: u8) -> B3 {
    if c == 0 {
        B3::Zero
    } else if c == 1 {
        B3::One
    } else if c == 2 {
        B3::Two
    } else if c == 3 {
        B3::Three
    } else if c == 4 {
        B3::Four
    } else if c == 5 {
        B3::Five
    } else if c == 6 {
        B3::Six
    } else {
        B3::Seven
    }
}

spec fn tgt3_of(c: u8) -> TGT3 {
    if c == 0 {
        TGT3::Zero
    } else if c == 1 {
        TGT3::One
    } else if c == 2 {
        TGT3::Two
    } else if c == 3 {
        TGT3::Three
    } else if c == 4 {
        TGT3::Four
    } else if c == 5 {
        TGT3::Five
    } else if c == 6 {
        TGT3::Six
    } else {
        TGT3::Seven
    }
}

/// The instruction behind the 0xCB prefix and the byte `b`, read by fields.
spec fn prefixed_of(b: u8) -> Instruction {
    let x = b / 64;
    let y = ((b / 8) % 8) as u8;
    let z = (b % 8) as u8;
    if x == 0 {
        if z == 6 {
            if y == 0 {
                Instruction::RlcMemHl
            } else if y == 1 {
                Instruction::RrcMemHl
            } else if y == 2 {
                Instruction::RlMemHl
            } else if y == 3 {
                Instruction::RrMemHl
            } else if y == 4 {
                Instruction::SlaMemHl
            } else if y == 5 {
                Instruction::SraMemHl
            } else if y == 6 {
                Instruction::SwapMemHl
            } else {
                Instruction::SrlMemHl
            }
        } else if y == 0 {
            Instruction::RlcR8(r8_of(z))
        } else if y == 1 {
            Instruction::RrcR8(r8_of(z))
        } else if y == 2 {
            Instruction::RlR8(r8_of(z))
        } else if y == 3 {
            Instruction::RrR8(r8_of(z))
        } else if y == 4 {
            Instruction::SlaR8(r8_of(z))
        } else if y == 5 {
            Instruction::SraR8(r8_of(z))
        } else if y == 6 {
            Instruction::SwapR8(r8_of(z))
        } else {
            Instruction::SrlR8(r8_of(z))
        }
    } else if x == 1 {
        if z == 6 {
            Instruction::BitB3MemHl(b3_of(y))
        } else {
            Instruction::BitB3R8(b3_of(y), r8_of(z))
        }
    } else if x == 2 {
        if z == 6 {
            Instruction::ResB3MemHl(b3_of(y))
        } else {
            Instruction::ResB3R8(b3_of(y), r8_of(z))
        }
    } else if z == 6 {
        Instruction::SetB3MemHl(b3_of(y))
    } else {
        Instruction::SetB3R8(b3_of(y), r8_of(z))
    }
}

/// The 8-bit arithmetic on A selected by `y`, on the operand selected by `z`
/// (6: memory at HL) or on an immediate byte `n`.
spec fn alu_of(y: u8, z: u8, imm: bool, n: u8) -> Instruction {
    if imm {
        if y == 0 {
            Instruction::AddAImm8(n)
        } else if y == 1 {
            Instruction::AdcAImm8(n)
        } else if y == 2 {
            Instruction::SubAImm8(n)
        } else if y == 3 {
            Instruction::SbcAImm8(n)
        } else if y == 4 {
            Instruction::AndAImm8(n)
        } else if y == 5 {
            Instruction::XorAImm8(n)
        } else if y == 6 {
            Instruction::OrAImm8(n)
        } else {
            Instruction::CpAImm8(n)
        }
    } else if z == 6 {
        if y == 0 {
            Instruction::AddAMemHl
        } else if y == 1 {
            Instruction::AdcAMemHl
        } else if y == 2 {
            Instruction::SubAMemHl
        } else if y == 3 {
            Instruction::SbcAMemHl
        } else if y == 4 {
            Instruction::AndAMemHl
        } else if y == 5 {
            Instruction::XorAMemHl
        } else if y == 6 {
            Instruction::OrAMemHl
        } else {
            Instruction::CpAMemHl
        }
    } else if y == 0 {
        Instruction::AddAR8(r8_of(z))
    } else if y == 1 {
        Instruction::AdcAR8(r8_of(z))
    } else if y == 2 {
        Instruction::SubAR8(r8_of(z))
    } else if y == 3 {
        Instruction::SbcAR8(r8_of(z))
    } else if y == 4 {
        Instruction::AndAR8(r8_of(z))
    } else if y == 5 {
        Instruction::XorAR8(r8_of(z))
    } else if y == 6 {
        Instruction::OrAR8(r8_of(z))
    } else {
        Instruction::CpAR8(r8_of(z))
    }
}

/// The instruction that the opcode `op` with the bytes `b1`, `b2` encodes,
/// read field by field (`xx`, `yyy`, `zzz` from the top bit down); an
/// undefined opcode reads as NOP.
spec fn instruction_of(op: u8, b1: u8, b2: u8) -> Instruction {
    let x = op / 64;
    let y = ((op / 8) % 8) as u8;
    let z = (op % 8) as u8;
    let p = y / 2;
    let w = word_of(b2, b1);
    if x == 1 {
        if y == 6 && z == 6 {
            Instruction::Halt
        } else if y == 6 {
            Instruction::LdMemHlR8(r8_of(z))
        } else if z == 6 {
            Instruction::LdR8MemHl(r8_of(y))
        } else {
            Instruction::LdR8R8(r8_of(y), r8_of(z))
        }
    } else if x == 2 {
        alu_of(y, z, false, 0)
    } else if x == 0 {
        if z == 0 {
            if y == 0 {
                Instruction::Nop
            } else if y == 1 {
                Instruction::LdMemImm16SP(w)
            } else if y == 2 {
                Instruction::Stop
            } else if y == 3 {
                Instruction::JrImm8(b1)
            } else {
                Instruction::JrCondImm8(cond_of((y - 4) as u8), b1)
            }
        } else if z == 1 {
            if y % 2 == 0 {
                Instruction::LdR16Imm16(r16_of(p), w)
            } else {
                Instruction::AddHlR16(r16_of(p))
            }
        } else if z == 2 {
            if y % 2 == 0 {
                Instruction::LdR16MemA(r16mem_of(p))
            } else {
                Instruction::LdAR16Mem(r16mem_of(p))
            }
        } else if z == 3 {
            if y % 2 == 0 {
                Instruction::IncR16(r16_of(p))
            } else {
                Instruction::DecR16(r16_of(p))
            }
        } else if z == 4 {
            if y == 6 {
                Instruction::IncMemHl
            } else {
                Instruction::IncR8(r8_of(y))
            }
        } else if z == 5 {
            if y == 6 {
                Instruction::DecMemHl
            } else {
                Instruction::DecR8(r8_of(y))
            }
        } else if z == 6 {
            if y == 6 {
                Instruction::LdMemHlImm8(b1)
            } else {
                Instruction::LdR8Imm8(r8_of(y), b1)
            }
        } else if y == 0 {
            Instruction::Rlca
        } else if y == 1 {
            Instruction::Rrca
        } else if y == 2 {
            Instruction::Rla
        } else if y == 3 {
            Instruction::Rra
        } else if y == 4 {
            Instruction::Daa
        } else if y == 5 {
            Instruction::Cpl
        } else if y == 6 {
            Instruction::Scf
        } else {
            Instruction::Ccf
        }
    } else if z == 0 {
        if y < 4 {
            Instruction::RetCond(cond_of(y))
        } else if y == 4 {
            Instruction::LdhMemImm8A(b1)
        } else if y == 5 {
            Instruction::AddSpImm8(b1)
        } else if y == 6 {
            Instruction::LdhAMemImm8(b1)
        } else {
            Instruction::LdHlSpImm8(b1)
        }
    } else if z == 1 {
        if y % 2 == 0 {
            Instruction::PopR16Stk(r16stk_of(p))
        } else if y == 1 {
            Instruction::Ret
        } else if y == 3 {
            Instruction::Reti
        } else if y == 5 {
            Instruction::JpHl
        } else {
            Instruction::LdSpHl
        }
    } else if z == 2 {
        if y < 4 {
            Instruction::JpCondImm16(cond_of(y), w)
        } else if y == 4 {
            Instruction::LdhMemCA
        } else if y == 5 {
            Instruction::LdMemImm16A(w)
        } else if y == 6 {
            Instruction::LdAMemC
        } else {
            Instruction::LdAMemImm16(w)
        }
    } else if z == 3 {
        if y == 0 {
            Instruction::JpImm16(w)
        } else if y == 1 {
            prefixed_of(b1)
        } else if y == 6 {
            Instruction::Di
        } else {
            Instruction::Ei
        }
    } else if z == 4 {
        Instruction::CallCondImm16(cond_of(y), w)
    } else if z == 5 {
        if y % 2 == 0 {
            Instruction::PushR16Stk(r16stk_of(p))
        } else {
            Instruction::CallImm16(w)
        }
    } else if z == 6 {
        alu_of(y, z, true, b1)
    } else {
        Instruction::RstTgt3(tgt3_of(y))
    }
}

proof fn lemma_r8_code(r: R8)
    ensures
        r8_of(r.code()) == r,
        r.code() < 8,
        r.code() != 6,
{
}

proof fn lemma_r16_code(r: R16)
    ensures
        r16_of(r.code()) == r,
        r.code() < 4,
{
}

proof fn lemma_r16mem_code(r: R16MEM)
    ensures
        r16mem_of(r.code()) == r,
        r.code() < 4,
{
}

proof fn lemma_r16stk_code(r: R16STK)
    ensures
        r16stk_of(r.code()) == r,
        r.code() < 4,
{
}

proof fn lemma_cond_code(c: Cond)
    ensures
        cond_of(c.code()) == c,
        c.code() < 4,
{
}

proof fn lemma_b3_code(b: B3)
    ensures
        b3_of(b.code()) == b,
        b.code() < 8,
{
}

proof fn lemma_tgt3_code(t: TGT3)
    ensures
        tgt3_of(t.code()) == t,
        t.code() < 8,
{
}

/// An encoding read back by fields.
spec fn read_back(i: Instruction) -> Instruction {
    let e = encode(i);
    instruction_of(
        e[0],
        if e.len() > 1 {
            e[1]
        } else {
            0
        },
        if e.len() > 2 {
            e[2]
        } else {
            0
        },
    )
}

proof fn lemma_read_back_block0_1(i: Instruction)
    requires
        matches!(i, Instruction::Nop | Instruction::LdR16Imm16(..) | Instruction::LdR16MemA(..) | Instruction::LdAR16Mem(..) | Instruction::LdMemImm16SP(..) | Instruction::IncR16(..) | Instruction::DecR16(..) | Instruction::AddHlR16(..)),
    ensures
        read_back(i) == i,
{
    lemma_word_split_all();
    let e = encode(i);
    match i {
        Instruction::Nop => {},
        Instruction::LdR16Imm16(p0, p1) => {
            lemma_r16_code(p0);
            lemma_byte_fields(0, (2 * p0.code()) as u8, 1);
            assert(e[0] == (64 * 0 + 8 * (2 * p0.code()) as u8 + 1) as u8);
        },
        Instruction::LdR16MemA(p0) => {
            lemma_r16mem_code(p0);
            lemma_byte_fields(0, (2 * p0.code()) as u8, 2);
            assert(e[0] == (64 * 0 + 8 * (2 * p0.code()) as u8 + 2) as u8);
        },
        Instruction::LdAR16Mem(p0) => {
            lemma_r16mem_code(p0);
            lemma_byte_fields(0, (1 + 2 * p0.code()) as u8, 2);
            assert(e[0] == (64 * 0 + 8 * (1 + 2 * p0.code()) as u8 + 2) as u8);
        },
        Instruction::LdMemImm16SP(p0) => {},
        Instruction::IncR16(p0) => {
            lemma_r16_code(p0);
            lemma_byte_fields(0, (2 * p0.code()) as u8, 3);
            assert(e[0] == (64 * 0 + 8 * (2 * p0.code()) as u8 + 3) as u8);
        },
        Instruction::DecR16(p0) => {
            lemma_r16_code(p0);
            lemma_byte_fields(0, (1 + 2 * p0.code()) as u8, 3);
            assert(e[0] == (64 * 0 + 8 * (1 + 2 * p0.code()) as u8 + 3) as u8);
        },
        Instruction::AddHlR16(p0) => {
            lemma_r16_code(p0);
            lemma_byte_fields(0, (1 + 2 * p0.code()) as u8, 1);
            assert(e[0] == (64 * 0 + 8 * (1 + 2 * p0.code()) as u8 + 1) as u8);
        },
        _ => {},
    }
}

proof fn lemma_read_back_block0_2(i: Instruction)
    requires
        matches!(i, Instruction::IncR8(..) | Instruction::IncMemHl | Instruction::DecR8(..) | Instruction::DecMemHl | Instruction::LdR8Imm8(..) | Instruction::LdMemHlImm8(..) | Instruction::Rlca | Instruction::Rrca),
    ensures
        read_back(i) == i,
{
    lemma_word_split_all();
    let e = encode(i);
    match i {
        Instruction::IncR8(p0) => {
            lemma_r8_code(p0);
            lemma_byte_fields(0, p0.code(), 4);
            assert(e[0] == (64 * 0 + 8 * p0.code() + 4) as u8);
        },
        Instruction::IncMemHl => {},
        Instruction::DecR8(p0) => {
            lemma_r8_code(p0);
            lemma_byte_fields(0, p0.code(), 5);
            assert(e[0] == (64 * 0 + 8 * p0.code() + 5) as u8);
        },
        Instruction::DecMemHl => {},
        Instruction::LdR8Imm8(p0, p1) => {
            lemma_r8_code(p0);
            lemma_byte_fields(0, p0.code(), 6);
            assert(e[0] == (64 * 0 + 8 * p0.code() + 6) as u8);
        },
        Instruction::LdMemHlImm8(p0) => {},
        Instruction::Rlca => {},
        Instruction::Rrca => {},
        _ => {},
    }
}

proof fn lemma_read_back_block0_3(i: Instruction)
    requires
        matches!(i, Instruction::Rla | Instruction::Rra | Instruction::Daa | Instruction::Cpl | Instruction::Scf | Instruction::Ccf | Instruction::JrImm8(..) | Instruction::JrCondImm8(..)),
    ensures
        read_back(i) == i,
{
    lemma_word_split_all();
    let e = encode(i);
    match i {
        Instruction::Rla => {},
        Instruction::Rra => {},
        Instruction::Daa => {},
        Instruction::Cpl => {},
        Instruction::Scf => {},
        Instruction::Ccf => {},
        Instruction::JrImm8(p0) => {},
        Instruction::JrCondImm8(p0, p1) => {
            lemma_cond_code(p0);
            lemma_byte_fields(0, (4 + p0.code()) as u8, 0);
            assert(e[0] == (64 * 0 + 8 * (4 + p0.code()) as u8 + 0) as u8);
        },
        _ => {},
    }
}

proof fn lemma_read_back_block0_4(i: Instruction)
    requires
        matches!(i, Instruction::Stop),
    ensures
        read_back(i) == i,
{
    lemma_word_split_all();
    let e = encode(i);
    match i {
        Instruction::Stop => {},
        _ => {},
    }
}

proof fn lemma_read_back_block1(i: Instruction)
    requires
        matches!(i, Instruction::LdR8R8(..) | Instruction::LdR8MemHl(..) | Instruction::LdMemHlR8(..) | Instruction::Halt),
    ensures
        read_back(i) == i,
{
    lemma_word_split_all();
    let e = encode(i);
    match i {
        Instruction::LdR8R8(p0, p1) => {
            lemma_r8_code(p0);
            lemma_r8_code(p1);
            lemma_byte_fields(1, p0.code(), p1.code());
            assert(e[0] == (64 * 1 + 8 * p0.code() + p1.code()) as u8);
        },
        Instruction::LdR8MemHl(p0) => {
            lemma_r8_code(p0);
            lemma_byte_fields(1, p0.code(), 6);
            assert(e[0] == (64 * 1 + 8 * p0.code() + 6) as u8);
        },
        Instruction::LdMemHlR8(p0) => {
            lemma_r8_code(p0);
            lemma_byte_fields(1, 6, p0.code());
            assert(e[0] == (64 * 1 + 8 * 6 + p0.code()) as u8);
        },
        Instruction::Halt => {},
        _ => {},
    }
}

proof fn lemma_read_back_block2_1(i: Instruction)
    requires
        matches!(i, Instruction::AddAR8(..) | Instruction::AddAMemHl | Instruction::AdcAR8(..) | Instruction::AdcAMemHl | Instruction::SubAR8(..) | Instruction::SubAMemHl | Instruction::SbcAR8(..) | Instruction::SbcAMemHl),
    ensures
        read_back(i) == i,
{
    lemma_word_split_all();
    let e = encode(i);
    match i {
        Instruction::AddAR8(p0) => {
            lemma_r8_code(p0);
            lemma_byte_fields(2, 0, p0.code());
            assert(e[0] == (64 * 2 + 8 * 0 + p0.code()) as u8);
        },
        Instruction::AddAMemHl => {},
        Instruction::AdcAR8(p0) => {
            lemma_r8_code(p0);
            lemma_byte_fields(2, 1, p0.code());
            assert(e[0] == (64 * 2 + 8 * 1 + p0.code()) as u8);
        },
        Instruction::AdcAMemHl => {},
        Instruction::SubAR8(p0) => {
            lemma_r8_code(p0);
            lemma_byte_fields(2, 2, p0.code());
            assert(e[0] == (64 * 2 + 8 * 2 + p0.code()) as u8);
        },
        Instruction::SubAMemHl => {},
        Instruction::SbcAR8(p0) => {
            lemma_r8_code(p0);
            lemma_byte_fields(2, 3, p0.code());
            assert(e[0] == (64 * 2 + 8 * 3 + p0.code()) as u8);
        },
        Instruction::SbcAMemHl => {},
        _ => {},
    }
}

proof fn lemma_read_back_block2_2(i: Instruction)
    requires
        matches!(i, Instruction::AndAR8(..) | Instruction::AndAMemHl | Instruction::XorAR8(..) | Instruction::XorAMemHl | Instruction::OrAR8(..) | Instruction::OrAMemHl | Instruction::CpAR8(..) | Instruction::CpAMemHl),
    ensures
        read_back(i) == i,
{
    lemma_word_split_all();
    let e = encode(i);
    match i {
        Instruction::AndAR8(p0) => {
            lemma_r8_code(p0);
            lemma_byte_fields(2, 4, p0.code());
            assert(e[0] == (64 * 2 + 8 * 4 + p0.code()) as u8);
        },
        Instruction::AndAMemHl => {},
        Instruction::XorAR8(p0) => {
            lemma_r8_code(p0);
            lemma_byte_fields(2, 5, p0.code());
            assert(e[0] == (64 * 2 + 8 * 5 + p0.code()) as u8);
        },
        Instruction::XorAMemHl => {},
        Instruction::OrAR8(p0) => {
            lemma_r8_code(p0);
            lemma_byte_fields(2, 6, p0.code());
            assert(e[0] == (64 * 2 + 8 * 6 + p0.code()) as u8);
        },
        Instruction::OrAMemHl => {},
        Instruction::CpAR8(p0) => {
            lemma_r8_code(p0);
            lemma_byte_fields(2, 7, p0.code());
            assert(e[0] == (64 * 2 + 8 * 7 + p0.code()) as u8);
        },
        Instruction::CpAMemHl => {},
        _ => {},
    }
}

proof fn lemma_read_back_block3_1(i: Instruction)
    requires
        matches!(i, Instruction::AddAImm8(..) | Instruction::AdcAImm8(..) | Instruction::SubAImm8(..) | Instruction::SbcAImm8(..) | Instruction::AndAImm8(..) | Instruction::XorAImm8(..) | Instruction::OrAImm8(..) | Instruction::CpAImm8(..)),
    ensures
        read_back(i) == i,
{
    lemma_word_split_all();
    let e = encode(i);
    match i {
        Instruction::AddAImm8(p0) => {},
        Instruction::AdcAImm8(p0) => {},
        Instruction::SubAImm8(p0) => {},
        Instruction::SbcAImm8(p0) => {},
        Instruction::AndAImm8(p0) => {},
        Instruction::XorAImm8(p0) => {},
        Instruction::OrAImm8(p0) => {},
        Instruction::CpAImm8(p0) => {},
        _ => {},
    }
}

proof fn lemma_read_back_block3_2(i: Instruction)
    requires
        matches!(i, Instruction::RetCond(..) | Instruction::Ret | Instruction::Reti | Instruction::JpCondImm16(..) | Instruction::JpImm16(..) | Instruction::JpHl | Instruction::CallCondImm16(..) | Instruction::CallImm16(..)),
    ensures
        read_back(i) == i,
{
    lemma_word_split_all();
    let e = encode(i);
    match i {
        Instruction::RetCond(p0) => {
            lemma_cond_code(p0);
            lemma_byte_fields(3, p0.code(), 0);
            assert(e[0] == (64 * 3 + 8 * p0.code() + 0) as u8);
        },
        Instruction::Ret => {},
        Instruction::Reti => {},
        Instruction::JpCondImm16(p0, p1) => {
            lemma_cond_code(p0);
            lemma_byte_fields(3, p0.code(), 2);
            assert(e[0] == (64 * 3 + 8 * p0.code() + 2) as u8);
        },
        Instruction::JpImm16(p0) => {},
        Instruction::JpHl => {},
        Instruction::CallCondImm16(p0, p1) => {
            lemma_cond_code(p0);
            lemma_byte_fields(3, p0.code(), 4);
            assert(e[0] == (64 * 3 + 8 * p0.code() + 4) as u8);
        },
        Instruction::CallImm16(p0) => {},
        _ => {},
    }
}

proof fn lemma_read_back_block3_3(i: Instruction)
    requires
        matches!(i, Instruction::RstTgt3(..) | Instruction::PopR16Stk(..) | Instruction::PushR16Stk(..) | Instruction::LdhMemCA | Instruction::LdhMemImm8A(..) | Instruction::LdMemImm16A(..) | Instruction::LdAMemC | Instruction::LdhAMemImm8(..)),
    ensures
        read_back(i) == i,
{
    lemma_word_split_all();
    let e = encode(i);
    match i {
        Instruction::RstTgt3(p0) => {
            lemma_tgt3_code(p0);
            lemma_byte_fields(3, p0.code(), 7);
            assert(e[0] == (64 * 3 + 8 * p0.code() + 7) as u8);
        },
        Instruction::PopR16Stk(p0) => {
            lemma_r16stk_code(p0);
            lemma_byte_fields(3, (2 * p0.code()) as u8, 1);
            assert(e[0] == (64 * 3 + 8 * (2 * p0.code()) as u8 + 1) as u8);
        },
        Instruction::PushR16Stk(p0) => {
            lemma_r16stk_code(p0);
            lemma_byte_fields(3, (2 * p0.code()) as u8, 5);
            assert(e[0] == (64 * 3 + 8 * (2 * p0.code()) as u8 + 5) as u8);
        },
        Instruction::LdhMemCA => {},
        Instruction::LdhMemImm8A(p0) => {},
        Instruction::LdMemImm16A(p0) => {},
        Instruction::LdAMemC => {},
        Instruction::LdhAMemImm8(p0) => {},
        _ => {},
    }
}

proof fn lemma_read_back_block3_4(i: Instruction)
    requires
        matches!(i, Instruction::LdAMemImm16(..) | Instruction::AddSpImm8(..) | Instruction::LdHlSpImm8(..) | Instruction::LdSpHl | Instruction::Di | Instruction::Ei),
    ensures
        read_back(i) == i,
{
    lemma_word_split_all();
    let e = encode(i);
    match i {
        Instruction::LdAMemImm16(p0) => {},
        Instruction::AddSpImm8(p0) => {},
        Instruction::LdHlSpImm8(p0) => {},
        Instruction::LdSpHl => {},
        Instruction::Di => {},
        Instruction::Ei => {},
        _ => {},
    }
}

proof fn lemma_read_back_prefixed_register(i: Instruction)
    requires
        matches!(i, Instruction::RlcR8(..) | Instruction::RrcR8(..) | Instruction::RlR8(..) | Instruction::RrR8(..) | Instruction::SlaR8(..) | Instruction::SraR8(..) | Instruction::SwapR8(..) | Instruction::SrlR8(..)),
    ensures
        read_back(i) == i,
{
    let e = encode(i);
    match i {
        Instruction::RlcR8(p0) => {
            lemma_r8_code(p0);
            assert(e[0] == 0xCB);
            lemma_byte_fields(0, 0, p0.code());
            assert(e[1] == (64 * 0 + 8 * 0 + p0.code()) as u8);
        },
        Instruction::RrcR8(p0) => {
            lemma_r8_code(p0);
            assert(e[0] == 0xCB);
            lemma_byte_fields(0, 1, p0.code());
            assert(e[1] == (64 * 0 + 8 * 1 + p0.code()) as u8);
        },
        Instruction::RlR8(p0) => {
            lemma_r8_code(p0);
            assert(e[0] == 0xCB);
            lemma_byte_fields(0, 2, p0.code());
            assert(e[1] == (64 * 0 + 8 * 2 + p0.code()) as u8);
        },
        Instruction::RrR8(p0) => {
            lemma_r8_code(p0);
            assert(e[0] == 0xCB);
            lemma_byte_fields(0, 3, p0.code());
            assert(e[1] == (64 * 0 + 8 * 3 + p0.code()) as u8);
        },
        Instruction::SlaR8(p0) => {
            lemma_r8_code(p0);
            assert(e[0] == 0xCB);
            lemma_byte_fields(0, 4, p0.code());
            assert(e[1] == (64 * 0 + 8 * 4 + p0.code()) as u8);
        },
        Instruction::SraR8(p0) => {
            lemma_r8_code(p0);
            assert(e[0] == 0xCB);
            lemma_byte_fields(0, 5, p0.code());
            assert(e[1] == (64 * 0 + 8 * 5 + p0.code()) as u8);
        },
        Instruction::SwapR8(p0) => {
            lemma_r8_code(p0);
            assert(e[0] == 0xCB);
            lemma_byte_fields(0, 6, p0.code());
            assert(e[1] == (64 * 0 + 8 * 6 + p0.code()) as u8);
        },
        Instruction::SrlR8(p0) => {
            lemma_r8_code(p0);
            assert(e[0] == 0xCB);
            lemma_byte_fields(0, 7, p0.code());
            assert(e[1] == (64 * 0 + 8 * 7 + p0.code()) as u8);
        },
        _ => {},
    }
}

proof fn lemma_read_back_prefixed_memory(i: Instruction)
    requires
        matches!(i, Instruction::RlcMemHl | Instruction::RrcMemHl | Instruction::RlMemHl | Instruction::RrMemHl | Instruction::SlaMemHl | Instruction::SraMemHl | Instruction::SwapMemHl | Instruction::SrlMemHl),
    ensures
        read_back(i) == i,
{
    let e = encode(i);
    match i {
        Instruction::RlcMemHl => {
            assert(e[0] == 0xCB);
        },
        Instruction::RrcMemHl => {
            assert(e[0] == 0xCB);
        },
        Instruction::RlMemHl => {
            assert(e[0] == 0xCB);
        },
        Instruction::RrMemHl => {
            assert(e[0] == 0xCB);
        },
        Instruction::SlaMemHl => {
            assert(e[0] == 0xCB);
        },
        Instruction::SraMemHl => {
            assert(e[0] == 0xCB);
        },
        Instruction::SwapMemHl => {
            assert(e[0] == 0xCB);
        },
        Instruction::SrlMemHl => {
            assert(e[0] == 0xCB);
        },
        _ => {},
    }
}

/// The fields of a byte built from `x`, `y`, `z` as `xxyyyzzz`.
proof fn lemma_byte_fields(x: u8, y: u8, z: u8)
    requires
        x < 4,
        y < 8,
        z < 8,
    ensures
        ((64 * x + 8 * y + z) as u8) / 64 == x,
        (((64 * x + 8 * y + z) as u8) / 8) % 8 == y,
        ((64 * x + 8 * y + z) as u8) % 8 == z,
{
    assert(((64 * x + 8 * y + z) as u8) / 64 == x && (((64 * x + 8 * y + z) as u8) / 8) % 8 == y
        && ((64 * x + 8 * y + z) as u8) % 8 == z) by (bit_vector)
        requires
            x < 4,
            y < 8,
            z < 8,
    ;
}

proof fn lemma_read_back_prefixed_bit(i: Instruction)
    requires
        matches!(i, Instruction::BitB3MemHl(..) | Instruction::BitB3R8(..) | Instruction::ResB3MemHl(..) | Instruction::ResB3R8(..) | Instruction::SetB3MemHl(..) | Instruction::SetB3R8(..)),
    ensures
        read_back(i) == i,
{
    let e = encode(i);
    match i {
        Instruction::BitB3MemHl(p0) => {
            lemma_b3_code(p0);
            assert(e[0] == 0xCB);
            lemma_byte_fields(1, p0.code(), 6);
            assert(e[1] == (64 * 1 + 8 * p0.code() + 6) as u8);
        },
        Instruction::BitB3R8(p0, p1) => {
            lemma_b3_code(p0);
            lemma_r8_code(p1);
            assert(e[0] == 0xCB);
            lemma_byte_fields(1, p0.code(), p1.code());
            assert(e[1] == (64 * 1 + 8 * p0.code() + p1.code()) as u8);
        },
        Instruction::ResB3MemHl(p0) => {
            lemma_b3_code(p0);
            assert(e[0] == 0xCB);
            lemma_byte_fields(2, p0.code(), 6);
            assert(e[1] == (64 * 2 + 8 * p0.code() + 6) as u8);
        },
        Instruction::ResB3R8(p0, p1) => {
            lemma_b3_code(p0);
            lemma_r8_code(p1);
            assert(e[0] == 0xCB);
            lemma_byte_fields(2, p0.code(), p1.code());
            assert(e[1] == (64 * 2 + 8 * p0.code() + p1.code()) as u8);
        },
        Instruction::SetB3MemHl(p0) => {
            lemma_b3_code(p0);
            assert(e[0] == 0xCB);
            lemma_byte_fields(3, p0.code(), 6);
            assert(e[1] == (64 * 3 + 8 * p0.code() + 6) as u8);
        },
        Instruction::SetB3R8(p0, p1) => {
            lemma_b3_code(p0);
            lemma_r8_code(p1);
            assert(e[0] == 0xCB);
            lemma_byte_fields(3, p0.code(), p1.code());
            assert(e[1] == (64 * 3 + 8 * p0.code() + p1.code()) as u8);
        },
        _ => {},
    }
}

proof fn lemma_read_back(i: Instruction)
    ensures
        read_back(i) == i,
{
    match i {
        Instruction::Nop | Instruction::LdR16Imm16(..) | Instruction::LdR16MemA(..) | Instruction::LdAR16Mem(..) | Instruction::LdMemImm16SP(..) | Instruction::IncR16(..) | Instruction::DecR16(..) | Instruction::AddHlR16(..) => lemma_read_back_block0_1(i),
        Instruction::IncR8(..) | Instruction::IncMemHl | Instruction::DecR8(..) | Instruction::DecMemHl | Instruction::LdR8Imm8(..) | Instruction::LdMemHlImm8(..) | Instruction::Rlca | Instruction::Rrca => lemma_read_back_block0_2(i),
        Instruction::Rla | Instruction::Rra | Instruction::Daa | Instruction::Cpl | Instruction::Scf | Instruction::Ccf | Instruction::JrImm8(..) | Instruction::JrCondImm8(..) => lemma_read_back_block0_3(i),
        Instruction::Stop => lemma_read_back_block0_4(i),
        Instruction::LdR8R8(..) | Instruction::LdR8MemHl(..) | Instruction::LdMemHlR8(..) | Instruction::Halt => lemma_read_back_block1(i),
        Instruction::AddAR8(..) | Instruction::AddAMemHl | Instruction::AdcAR8(..) | Instruction::AdcAMemHl | Instruction::SubAR8(..) | Instruction::SubAMemHl | Instruction::SbcAR8(..) | Instruction::SbcAMemHl => lemma_read_back_block2_1(i),
        Instruction::AndAR8(..) | Instruction::AndAMemHl | Instruction::XorAR8(..) | Instruction::XorAMemHl | Instruction::OrAR8(..) | Instruction::OrAMemHl | Instruction::CpAR8(..) | Instruction::CpAMemHl => lemma_read_back_block2_2(i),
        Instruction::AddAImm8(..) | Instruction::AdcAImm8(..) | Instruction::SubAImm8(..) | Instruction::SbcAImm8(..) | Instruction::AndAImm8(..) | Instruction::XorAImm8(..) | Instruction::OrAImm8(..) | Instruction::CpAImm8(..) => lemma_read_back_block3_1(i),
        Instruction::RetCond(..) | Instruction::Ret | Instruction::Reti | Instruction::JpCondImm16(..) | Instruction::JpImm16(..) | Instruction::JpHl | Instruction::CallCondImm16(..) | Instruction::CallImm16(..) => lemma_read_back_block3_2(i),
        Instruction::RstTgt3(..) | Instruction::PopR16Stk(..) | Instruction::PushR16Stk(..) | Instruction::LdhMemCA | Instruction::LdhMemImm8A(..) | Instruction::LdMemImm16A(..) | Instruction::LdAMemC | Instruction::LdhAMemImm8(..) => lemma_read_back_block3_3(i),
        Instruction::LdAMemImm16(..) | Instruction::AddSpImm8(..) | Instruction::LdHlSpImm8(..) | Instruction::LdSpHl | Instruction::Di | Instruction::Ei => lemma_read_back_block3_4(i),
        Instruction::RlcR8(..) | Instruction::RrcR8(..) | Instruction::RlR8(..) | Instruction::RrR8(..) | Instruction::SlaR8(..) | Instruction::SraR8(..) | Instruction::SwapR8(..) | Instruction::SrlR8(..) => lemma_read_back_prefixed_register(i),
        Instruction::RlcMemHl | Instruction::RrcMemHl | Instruction::RlMemHl | Instruction::RrMemHl | Instruction::SlaMemHl | Instruction::SraMemHl | Instruction::SwapMemHl | Instruction::SrlMemHl => lemma_read_back_prefixed_memory(i),
        Instruction::BitB3MemHl(..) | Instruction::BitB3R8(..) | Instruction::ResB3MemHl(..) | Instruction::ResB3R8(..) | Instruction::SetB3MemHl(..) | Instruction::SetB3R8(..) => lemma_read_back_prefixed_bit(i),
    }
}

proof fn lemma_word_split_all()
    ensures
        forall|n: u16| #[trigger] word_of(hi_byte(n), lo_byte(n)) == n,
{
    assert forall|n: u16| #[trigger] word_of(hi_byte(n), lo_byte(n)) == n by {
        lemma_word_split(n);
    }
}

/// No two instructions share an encoding.
pub proof fn lemma_encode_injective(i: Instruction, j: Instruction)
    requires
        encode(i) == encode(j),
    ensures
        i == j,
{
    lemma_read_back(i);
    lemma_read_back(j);
}

/// Every instruction behind the 0xCB prefix is two bytes long.
pub proof fn lemma_prefixed_length(i: Instruction)
    requires
        encode(i)[0] == 0xCB,
    ensures
        encode(i).len() == 2,
{
}

} // verus!
