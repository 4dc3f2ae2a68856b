//! Operand selectors as they are encoded in opcodes. They differ from the
//! register names of the register file: each names what one bit field of an
//! opcode can select.
use vstd::prelude::*;

use crate::registers::{Register16, Register8};

verus! {

/// An 8-bit register operand (3-bit field; the code 6 stands for memory at HL
/// and has its own instruction forms).
#[derive(Debug, Clone, Copy, PartialEq, Eq, Structural)]
pub enum R8 {
    B,
    C,
    D,
    E,
    H,
    L,
    A,
}

impl R8 {
    /// The 3-bit code of this operand in an opcode.
    pub open spec fn code(self) -> u8 {
        match self {
            R8::B => 0,
            R8::C => 1,
            R8::D => 2,
            R8::E => 3,
            R8::H => 4,
            R8::L => 5,
            R8::A => 7,
        }
    }

    /// The register this operand selects.
    pub open spec fn register(self) -> Register8 {
        match self {
            R8::B => Register8::B,
            R8::C => Register8::C,
            R8::D => Register8::D,
            R8::E => Register8::E,
            R8::H => Register8::H,
            R8::L => Register8::L,
            R8::A => Register8::A,
        }
    }

    /// The operand with code `bits`.
    pub fn from_bits(bits: u8) -> (r: R8)
        requires
            bits < 8,
            bits != 6,
        ensures
            r.code() == bits,
    {
        match bits {
            0 => R8::B,
            1 => R8::C,
            2 => R8::D,
            3 => R8::E,
            4 => R8::H,
            5 => R8::L,
            _ => R8::A,
        }
    }
}

/// A 16-bit register operand of the general forms (LD, INC, DEC, ADD HL).
#[derive(Debug, Clone, Copy, PartialEq, Eq, Structural)]
pub enum R16 {
    BC,
    DE,
    HL,
    SP,
}

impl R16 {
    pub open spec fn code(self) -> u8 {
        match self {
            R16::BC => 0,
            R16::DE => 1,
            R16::HL => 2,
            R16::SP => 3,
        }
    }

    pub open spec fn register(self) -> Register16 {
        match self {
            R16::BC => Register16::BC,
            R16::DE => Register16::DE,
            R16::HL => Register16::HL,
            R16::SP => Register16::SP,
        }
    }

    pub fn from_bits(bits: u8) -> (r: R16)
        requires
            bits < 4,
        ensures
            r.code() == bits,
    {
        match bits {
            0 => R16::BC,
            1 => R16::DE,
            2 => R16::HL,
            _ => R16::SP,
        }
    }
}

/// A 16-bit register operand of PUSH and POP, where AF takes the place of SP.
#[derive(Debug, Clone, Copy, PartialEq, Eq, Structural)]
pub enum R16STK {
    BC,
    DE,
    HL,
    AF,
}

impl R16STK {
    pub open spec fn code(self) -> u8 {
        match self {
            R16STK::BC => 0,
            R16STK::DE => 1,
            R16STK::HL => 2,
            R16STK::AF => 3,
        }
    }

    pub open spec fn register(self) -> Register16 {
        match self {
            R16STK::BC => Register16::BC,
            R16STK::DE => Register16::DE,
            R16STK::HL => Register16::HL,
            R16STK::AF => Register16::AF,
        }
    }

    pub fn from_bits(bits: u8) -> (r: R16STK)
        requires
            bits < 4,
        ensures
            r.code() == bits,
    {
        match bits {
            0 => R16STK::BC,
            1 => R16STK::DE,
            2 => R16STK::HL,
            _ => R16STK::AF,
        }
    }
}

/// A register pair that points into memory: BC, DE, or HL followed by an
/// increment (`Hli`) or a decrement (`Hld`) of HL.
#[derive(Debug, Clone, Copy, PartialEq, Eq, Structural)]
pub enum R16MEM {
    BC,
    DE,
    Hli,
    Hld,
}

impl R16MEM {
    pub open spec fn code(self) -> u8 {
        match self {
            R16MEM::BC => 0,
            R16MEM::DE => 1,
            R16MEM::Hli => 2,
            R16MEM::Hld => 3,
        }
    }

    pub open spec fn register(self) -> Register16 {
        match self {
            R16MEM::BC => Register16::BC,
            R16MEM::DE => Register16::DE,
            R16MEM::Hli => Register16::HL,
            R16MEM::Hld => Register16::HL,
        }
    }

    pub fn from_bits(bits: u8) -> (r: R16MEM)
        requires
            bits < 4,
        ensures
            r.code() == bits,
    {
        match bits {
            0 => R16MEM::BC,
            1 => R16MEM::DE,
            2 => R16MEM::Hli,
            _ => R16MEM::Hld,
        }
    }
}

/// A bit position, 0 to 7 (BIT, RES, SET).
#[derive(Debug, Clone, Copy, PartialEq, Eq, Structural)]
pub enum B3 {
    Zero,
    One,
    Two,
    Three,
    Four,
    Five,
    Six,
    Seven,
}

impl B3 {
    pub open spec fn code(self) -> u8 {
        match self {
            B3::Zero => 0,
            B3::One => 1,
            B3::Two => 2,
            B3::Three => 3,
            B3::Four => 4,
            B3::Five => 5,
            B3::Six => 6,
            B3::Seven => 7,
        }
    }

    pub fn from_bits(bits: u8) -> (r: B3)
        requires
            bits < 8,
        ensures
            r.code() == bits,
    {
        match bits {
            0 => B3::Zero,
            1 => B3::One,
            2 => B3::Two,
            3 => B3::Three,
            4 => B3::Four,
            5 => B3::Five,
            6 => B3::Six,
            _ => B3::Seven,
        }
    }

    /// The bit position as a number.
    pub fn position(self) -> (r: u8)
        ensures
            r == self.code(),
    {
        match self {
            B3::Zero => 0,
            B3::One => 1,
            B3::Two => 2,
            B3::Three => 3,
            B3::Four => 4,
            B3::Five => 5,
            B3::Six => 6,
            B3::Seven => 7,
        }
    }
}

/// A branch condition.
#[derive(Debug, Clone, Copy, PartialEq, Eq, Structural)]
pub enum Cond {
    Zero,
    NotZero,
    Carry,
    NotCarry,
}

impl Cond {
    pub open spec fn code(self) -> u8 {
        match self {
            Cond::NotZero => 0,
            Cond::Zero => 1,
            Cond::NotCarry => 2,
            Cond::Carry => 3,
        }
    }

    pub fn from_bits(bits: u8) -> (r: Cond)
        requires
            bits < 4,
        ensures
            r.code() == bits,
    {
        match bits {
            0 => Cond::NotZero,
            1 => Cond::Zero,
            2 => Cond::NotCarry,
            _ => Cond::Carry,
        }
    }
}

/// One of the eight restart vectors of RST: 0x00, 0x08, ..., 0x38.
#[derive(Debug, Clone, Copy, PartialEq, Eq, Structural)]
pub enum TGT3 {
    Zero,
    One,
    Two,
    Three,
    Four,
    Five,
    Six,
    Seven,
}

impl TGT3 {
    pub open spec fn code(self) -> u8 {
        match self {
            TGT3::Zero => 0,
            TGT3::One => 1,
            TGT3::Two => 2,
            TGT3::Three => 3,
            TGT3::Four => 4,
            TGT3::Five => 5,
            TGT3::Six => 6,
            TGT3::Seven => 7,
        }
    }

    pub fn from_bits(bits: u8) -> (r: TGT3)
        requires
            bits < 8,
        ensures
            r.code() == bits,
    {
        match bits {
            0 => TGT3::Zero,
            1 => TGT3::One,
            2 => TGT3::Two,
            3 => TGT3::Three,
            4 => TGT3::Four,
            5 => TGT3::Five,
            6 => TGT3::Six,
            _ => TGT3::Seven,
        }
    }

    /// The address RST jumps to.
    pub fn address(self) -> (r: u16)
        ensures
            r == 8 * self.code(),
    {
        match self {
            TGT3::Zero => 0x00,
            TGT3::One => 0x08,
            TGT3::Two => 0x10,
            TGT3::Three => 0x18,
            TGT3::Four => 0x20,
            TGT3::Five => 0x28,
            TGT3::Six => 0x30,
            TGT3::Seven => 0x38,
        }
    }
}

impl From<R8> for Register8 {
    fn from(r: R8) -> (out: Register8) {
        match r {
            R8::B => Register8::B,
            R8::C => Register8::C,
            R8::D => Register8::D,
            R8::E => Register8::E,
            R8::H => Register8::H,
            R8::L => Register8::L,
            R8::A => Register8::A,
        }
    }
}

impl vstd::std_specs::convert::FromSpecImpl<R8> for Register8 {
    open spec fn obeys_from_spec() -> bool {
        true
    }

    open spec fn from_spec(v: R8) -> Register8 {
        v.register()
    }
}

impl From<R16> for Register16 {
    fn from(r: R16) -> (out: Register16) {
        match r {
            R16::BC => Register16::BC,
            R16::DE => Register16::DE,
            R16::HL => Register16::HL,
            R16::SP => Register16::SP,
        }
    }
}

impl vstd::std_specs::convert::FromSpecImpl<R16> for Register16 {
    open spec fn obeys_from_spec() -> bool {
        true
    }

    open spec fn from_spec(v: R16) -> Register16 {
        v.register()
    }
}

impl From<R16MEM> for Register16 {
    fn from(r: R16MEM) -> (out: Register16) {
        match r {
            R16MEM::BC => Register16::BC,
            R16MEM::DE => Register16::DE,
            R16MEM::Hli => Register16::HL,
            R16MEM::Hld => Register16::HL,
        }
    }
}

impl vstd::std_specs::convert::FromSpecImpl<R16MEM> for Register16 {
    open spec fn obeys_from_spec() -> bool {
        true
    }

    open spec fn from_spec(v: R16MEM) -> Register16 {
        v.register()
    }
}

impl From<R16STK> for Register16 {
    fn from(r: R16STK) -> (out: Register16) {
        match r {
            R16STK::BC => Register16::BC,
            R16STK::DE => Register16::DE,
            R16STK::HL => Register16::HL,
            R16STK::AF => Register16::AF,
        }
    }
}

impl vstd::std_specs::convert::FromSpecImpl<R16STK> for Register16 {
    open spec fn obeys_from_spec() -> bool {
        true
    }

    open spec fn from_spec(v: R16STK) -> Register16 {
        v.register()
    }
}

} // verus!
