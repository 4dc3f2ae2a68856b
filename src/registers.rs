//! The register file: four 16-bit pairs (AF, BC, DE, HL), the stack pointer
//! and the program counter, with byte access to each half of a pair and the
//! four flags packed into the upper nibble of F.
use vstd::prelude::*;

use crate::bytes::{get_hi, get_lo, hi_byte, lo_byte, set_hi, set_lo, word_of};

verus! {

/// The four condition flags.
#[derive(Debug, Clone, Copy, PartialEq, Eq, Structural)]
pub struct Flags {
    /// Zero (bit 7 of F).
    pub z: bool,
    /// Subtract (bit 6 of F).
    pub n: bool,
    /// Half carry (bit 5 of F).
    pub h: bool,
    /// Carry (bit 4 of F).
    pub c: bool,
}

/// 1 for a set flag, 0 for a clear one.
pub open spec fn bit_value(b: bool) -> u8 {
    if b {
        1
    } else {
        0
    }
}

/// The F register holding `f`: Z, N, H, C in bits 7 to 4, the low nibble 0.
pub open spec fn flags_byte(f: Flags) -> u8 {
    (128 * bit_value(f.z) + 64 * bit_value(f.n) + 32 * bit_value(f.h) + 16 * bit_value(f.c)) as u8
}

/// The flags held by an F register value (its low nibble is ignored).
pub open spec fn flags_of(f: u8) -> Flags {
    Flags { z: (f / 128) % 2 == 1, n: (f / 64) % 2 == 1, h: (f / 32) % 2 == 1, c: (f / 16) % 2 == 1 }
}

/// Packing flags and reading them back gives the flags; the low nibble is 0.
pub proof fn lemma_flags_byte_of(f: Flags)
    ensures
        flags_of(flags_byte(f)) == f,
        flags_byte(f) % 16 == 0,
{
}

/// An F value with a clear low nibble is rebuilt from its flags.
pub proof fn lemma_flags_of_byte(x: u8)
    requires
        x % 16 == 0,
    ensures
        flags_byte(flags_of(x)) == x,
{
}

/// Clearing the low nibble of a word leaves its high byte and its flag bits.
proof fn lemma_clear_nibble16(v: u16)
    ensures
        (v - v % 16) as u16 % 16 == 0,
        hi_byte((v - v % 16) as u16) == hi_byte(v),
        flags_of(lo_byte((v - v % 16) as u16)) == flags_of(lo_byte(v)),
{
    let w: u16 = (v - v % 16) as u16;
    assert(w % 16 == 0 && w / 256 == v / 256 && (w % 256) / 128 % 2 == (v % 256) / 128 % 2 && (w
        % 256) / 64 % 2 == (v % 256) / 64 % 2 && (w % 256) / 32 % 2 == (v % 256) / 32 % 2 && (w
        % 256) / 16 % 2 == (v % 256) / 16 % 2) by (bit_vector)
        requires
            w == v - v % 16,
    ;
}

/// Clearing the low nibble of a byte leaves its flag bits.
proof fn lemma_clear_nibble8(v: u8)
    ensures
        (v - v % 16) as u8 % 16 == 0,
        flags_of((v - v % 16) as u8) == flags_of(v),
{
    let w: u8 = (v - v % 16) as u8;
    assert(w % 16 == 0 && w / 128 % 2 == v / 128 % 2 && w / 64 % 2 == v / 64 % 2 && w / 32 % 2
        == v / 32 % 2 && w / 16 % 2 == v / 16 % 2) by (bit_vector)
        requires
            w == v - v % 16,
    ;
}

/// A word's low nibble is its low byte's low nibble.
proof fn lemma_word_nibble(h: u8, l: u8)
    ensures
        word_of(h, l) % 16 == l % 16,
        hi_byte(word_of(h, l)) == h,
        lo_byte(word_of(h, l)) == l,
{
}

proof fn lemma_lo_nibble(n: u16)
    ensures
        lo_byte(n) % 16 == n % 16,
{
}

/// A 16-bit register (or register pair).
#[derive(Debug, Clone, Copy, PartialEq, Eq, Structural)]
pub enum Register16 {
    AF,
    BC,
    DE,
    HL,
    SP,
    PC,
}

/// An 8-bit register: one half of AF, BC, DE or HL.
#[derive(Debug, Clone, Copy, PartialEq, Eq, Structural)]
pub enum Register8 {
    A,
    F,
    B,
    C,
    D,
    E,
    H,
    L,
}

/// One of the four condition flags.
#[derive(Debug, Clone, Copy, PartialEq, Eq, Structural)]
pub enum Flag {
    Z,
    N,
    H,
    C,
}

/// What the register file holds: A, the flags, and the other pairs as words.
pub struct RegisterState {
    pub a: u8,
    pub flags: Flags,
    pub bc: u16,
    pub de: u16,
    pub hl: u16,
    pub sp: u16,
    pub pc: u16,
}

impl RegisterState {
    pub open spec fn r16(self, r: Register16) -> u16 {
        match r {
            Register16::AF => word_of(self.a, flags_byte(self.flags)),
            Register16::BC => self.bc,
            Register16::DE => self.de,
            Register16::HL => self.hl,
            Register16::SP => self.sp,
            Register16::PC => self.pc,
        }
    }

    pub open spec fn r8(self, r: Register8) -> u8 {
        match r {
            Register8::A => self.a,
            Register8::F => flags_byte(self.flags),
            Register8::B => hi_byte(self.bc),
            Register8::C => lo_byte(self.bc),
            Register8::D => hi_byte(self.de),
            Register8::E => lo_byte(self.de),
            Register8::H => hi_byte(self.hl),
            Register8::L => lo_byte(self.hl),
        }
    }

    pub open spec fn flag(self, f: Flag) -> bool {
        match f {
            Flag::Z => self.flags.z,
            Flag::N => self.flags.n,
            Flag::H => self.flags.h,
            Flag::C => self.flags.c,
        }
    }

    /// This state with `r` set to `v`; writing AF keeps only the flag bits of its low byte.
    pub open spec fn with_r16(self, r: Register16, v: u16) -> RegisterState {
        match r {
            Register16::AF => RegisterState { a: hi_byte(v), flags: flags_of(lo_byte(v)), ..self },
            Register16::BC => RegisterState { bc: v, ..self },
            Register16::DE => RegisterState { de: v, ..self },
            Register16::HL => RegisterState { hl: v, ..self },
            Register16::SP => RegisterState { sp: v, ..self },
            Register16::PC => RegisterState { pc: v, ..self },
        }
    }

    /// This state with `r` set to `v`; writing F keeps only its flag bits.
    pub open spec fn with_r8(self, r: Register8, v: u8) -> RegisterState {
        match r {
            Register8::A => RegisterState { a: v, ..self },
            Register8::F => RegisterState { flags: flags_of(v), ..self },
            Register8::B => RegisterState { bc: word_of(v, lo_byte(self.bc)), ..self },
            Register8::C => RegisterState { bc: word_of(hi_byte(self.bc), v), ..self },
            Register8::D => RegisterState { de: word_of(v, lo_byte(self.de)), ..self },
            Register8::E => RegisterState { de: word_of(hi_byte(self.de), v), ..self },
            Register8::H => RegisterState { hl: word_of(v, lo_byte(self.hl)), ..self },
            Register8::L => RegisterState { hl: word_of(hi_byte(self.hl), v), ..self },
        }
    }

    pub open spec fn with_flag(self, f: Flag, b: bool) -> RegisterState {
        match f {
            Flag::Z => RegisterState { flags: Flags { z: b, ..self.flags }, ..self },
            Flag::N => RegisterState { flags: Flags { n: b, ..self.flags }, ..self },
            Flag::H => RegisterState { flags: Flags { h: b, ..self.flags }, ..self },
            Flag::C => RegisterState { flags: Flags { c: b, ..self.flags }, ..self },
        }
    }

    pub open spec fn with_flags(self, f: Flags) -> RegisterState {
        RegisterState { flags: f, ..self }
    }
}

/// Packs flags into an F register value.
pub fn pack_flags(f: Flags) -> (r: u8)
    ensures
        r == flags_byte(f),
{
    let mut r: u8 = 0;
    if f.z {
        r = r + 128;
    }
    if f.n {
        r = r + 64;
    }
    if f.h {
        r = r + 32;
    }
    if f.c {
        r = r + 16;
    }
    r
}

/// The flags held by an F register value.
pub fn unpack_flags(f: u8) -> (r: Flags)
    ensures
        r == flags_of(f),
{
    Flags { z: (f / 128) % 2 == 1, n: (f / 64) % 2 == 1, h: (f / 32) % 2 == 1, c: (f / 16) % 2 == 1 }
}

/// The CPU registers.
pub struct Registers {
    af: u16,
    bc: u16,
    de: u16,
    hl: u16,
    sp: u16,
    pc: u16,
}

impl View for Registers {
    type V = RegisterState;

    closed spec fn view(&self) -> RegisterState {
        RegisterState {
            a: hi_byte(self.af),
            flags: flags_of(lo_byte(self.af)),
            bc: self.bc,
            de: self.de,
            hl: self.hl,
            sp: self.sp,
            pc: self.pc,
        }
    }
}

impl Registers {
    /// The unused low nibble of F holds 0.
    pub closed spec fn wf(&self) -> bool {
        self.af % 16 == 0
    }

    /// Registers holding the given values; the low nibble of F is dropped.
    pub fn new(af: u16, bc: u16, de: u16, hl: u16, sp: u16, pc: u16) -> (r: Registers)
        ensures
            r.wf(),
            r@ == (RegisterState {
                a: hi_byte(af),
                flags: flags_of(lo_byte(af)),
                bc,
                de,
                hl,
                sp,
                pc,
            }),
    {
        Registers { af: af - af % 16, bc, de, hl, sp, pc }
    }

    pub fn read_16(&self, register: Register16) -> (r: u16)
        requires
            self.wf(),
        ensures
            r == self@.r16(register),
    {
        proof {
            lemma_flags_of_byte(lo_byte(self.af));
        }
        match register {
            Register16::AF => self.af,
            Register16::BC => self.bc,
            Register16::DE => self.de,
            Register16::HL => self.hl,
            Register16::SP => self.sp,
            Register16::PC => self.pc,
        }
    }

    pub fn write_16(&mut self, register: Register16, value: u16)
        requires
            old(self).wf(),
        ensures
            final(self).wf(),
            final(self)@ == old(self)@.with_r16(register, value),
    {
        proof {
            lemma_clear_nibble16(value);
        }
        match register {
            Register16::AF => self.af = value - value % 16,
            Register16::BC => self.bc = value,
            Register16::DE => self.de = value,
            Register16::HL => self.hl = value,
            Register16::SP => self.sp = value,
            Register16::PC => self.pc = value,
        }
    }

    pub fn read_8(&self, register: Register8) -> (r: u8)
        requires
            self.wf(),
        ensures
            r == self@.r8(register),
    {
        proof {
            lemma_flags_of_byte(lo_byte(self.af));
        }
        match register {
            Register8::A => get_hi(self.af),
            Register8::F => get_lo(self.af),
            Register8::B => get_hi(self.bc),
            Register8::C => get_lo(self.bc),
            Register8::D => get_hi(self.de),
            Register8::E => get_lo(self.de),
            Register8::H => get_hi(self.hl),
            Register8::L => get_lo(self.hl),
        }
    }

    pub fn write_8(&mut self, register: Register8, value: u8)
        requires
            old(self).wf(),
        ensures
            final(self).wf(),
            final(self)@ == old(self)@.with_r8(register, value),
    {
        proof {
            lemma_clear_nibble8(value);
            lemma_lo_nibble(self.af);
            lemma_word_nibble(value, lo_byte(self.af));
            lemma_word_nibble(hi_byte(self.af), (value - value % 16) as u8);
        }
        match register {
            Register8::A => set_hi(&mut self.af, value),
            Register8::F => set_lo(&mut self.af, value - value % 16),
            Register8::B => set_hi(&mut self.bc, value),
            Register8::C => set_lo(&mut self.bc, value),
            Register8::D => set_hi(&mut self.de, value),
            Register8::E => set_lo(&mut self.de, value),
            Register8::H => set_hi(&mut self.hl, value),
            Register8::L => set_lo(&mut self.hl, value),
        }
    }

    /// The flags as a whole.
    pub fn flags(&self) -> (r: Flags)
        ensures
            r == self@.flags,
    {
        unpack_flags(get_lo(self.af))
    }

    /// Replaces all four flags at once.
    pub fn set_flags(&mut self, flags: Flags)
        requires
            old(self).wf(),
        ensures
            final(self).wf(),
            final(self)@ == old(self)@.with_flags(flags),
    {
        proof {
            lemma_flags_byte_of(flags);
            lemma_word_nibble(hi_byte(self.af), flags_byte(flags));
        }
        set_lo(&mut self.af, pack_flags(flags));
    }

    /// The flag `flag` as 1 (set) or 0 (clear).
    pub fn read_flag(&self, flag: Flag) -> (r: u8)
        ensures
            r == bit_value(self@.flag(flag)),
    {
        let f = self.flags();
        let b = match flag {
            Flag::Z => f.z,
            Flag::N => f.n,
            Flag::H => f.h,
            Flag::C => f.c,
        };
        if b {
            1
        } else {
            0
        }
    }

    /// Sets the flag `flag` from `value` (1 sets it, 0 clears it); the other
    /// flags and the rest of the registers keep their values.
    pub fn write_flag(&mut self, flag: Flag, value: u8)
        requires
            old(self).wf(),
            value <= 1,
        ensures
            final(self).wf(),
            final(self)@ == old(self)@.with_flag(flag, value == 1),
    {
        let f = self.flags();
        let b = value == 1;
        let g = match flag {
            Flag::Z => Flags { z: b, ..f },
            Flag::N => Flags { n: b, ..f },
            Flag::H => Flags { h: b, ..f },
            Flag::C => Flags { c: b, ..f },
        };
        self.set_flags(g);
    }
}

} // verus!
