//! The CPU: the register file and the interrupt-enable flag, the fetch of one
//! instruction and the `tick` that fetches and executes it.
use vstd::prelude::*;

use crate::decode::{decode, operand_len};
use crate::execute::{machine, outcome, step, Machine};
use crate::fault::Fault;
use crate::instruction::{
    encode, lemma_encode_injective, operand_count, undefined_opcode, Instruction,
};
use crate::memory::{accessible, bus_fault, next_address, wrap16, Memory};
use crate::registers::{flags_of, Register16, RegisterState, Registers};

verus! {

const STARTUP_AF: u16 = 0x0;

const STARTUP_BC: u16 = 0x0;

const STARTUP_DE: u16 = 0x0;

const STARTUP_HL: u16 = 0x0;

const STARTUP_SP: u16 = 0x0;

const STARTUP_PC: u16 = 0x0;

pub struct Cpu {
    pub registers: Registers,
    /// The interrupt master enable flag, set by EI and RETI, cleared by DI.
    pub ime: bool,
}

/// The byte of `mem` at `pc + k`, addresses wrapping.
pub open spec fn byte_at(mem: Seq<u8>, pc: u16, k: int) -> u8 {
    mem[wrap16(pc + k) as int]
}

/// The bytes that fetching at `pc` reads from `mem`: the opcode, then as
/// many operand bytes as it takes; the first access the bus refuses, or an
/// opcode that encodes nothing, is a fault.
pub open spec fn fetch_spec(mem: Seq<u8>, pc: u16) -> Result<Seq<u8>, Fault> {
    let op = mem[pc as int];
    let n = operand_count(op);
    if !accessible(pc) {
        Err(bus_fault(pc))
    } else if undefined_opcode(op) {
        Err(Fault::UnknownOpcode(op))
    } else if n >= 1 && !accessible(wrap16(pc + 1)) {
        Err(bus_fault(wrap16(pc + 1)))
    } else if n == 2 && !accessible(wrap16(pc + 2)) {
        Err(bus_fault(wrap16(pc + 2)))
    } else {
        Ok(mem_bytes(mem, pc, 1 + n))
    }
}

/// The machine once `i` has been fetched: PC points past it.
pub open spec fn fetched(m: Machine, i: Instruction) -> Machine {
    Machine {
        regs: m.regs.with_r16(Register16::PC, wrap16(m.regs.pc + encode(i).len())),
        ..m
    }
}

/// The `len` bytes of `mem` from `pc` on, addresses wrapping.
pub open spec fn mem_bytes(mem: Seq<u8>, pc: u16, len: nat) -> Seq<u8> {
    Seq::new(len, |k: int| byte_at(mem, pc, k))
}

impl Cpu {
    pub open spec fn wf(&self) -> bool {
        self.registers.wf()
    }

    /// A CPU in its power-on state: every register 0, interrupts disabled.
    pub fn new() -> (r: Cpu)
        ensures
            r.wf(),
            r.registers@ == (RegisterState {
                a: 0,
                flags: flags_of(0),
                bc: 0,
                de: 0,
                hl: 0,
                sp: 0,
                pc: 0,
            }),
            !r.ime,
    {
        Cpu {
            registers: Registers::new(
                STARTUP_AF,
                STARTUP_BC,
                STARTUP_DE,
                STARTUP_HL,
                STARTUP_SP,
                STARTUP_PC,
            ),
            ime: false,
        }
    }

    /// Reads the instruction at PC and moves PC past it: by 1 for an opcode
    /// alone, by 2 or 3 when an immediate byte or word follows, by 2 for an
    /// instruction behind the 0xCB prefix. On a fault nothing changes.
    pub fn fetch_instruction(&mut self, memory: &Memory) -> (r: Result<Instruction, Fault>)
        requires
            old(self).wf(),
            memory.wf(),
        ensures
            final(self).wf(),
            final(self).ime == old(self).ime,
            ({
                let pc = old(self).registers@.pc;
                let op = memory@[pc as int];
                match r {
                    Ok(i) => {
                        &&& fetch_spec(memory@, pc) is Ok
                        &&& encode(i) =~= fetch_spec(memory@, pc)->Ok_0
                        &&& final(self).registers@ == old(self).registers@.with_r16(
                            Register16::PC,
                            wrap16(pc + encode(i).len()),
                        )
                    },
                    Err(e) => {
                        &&& fetch_spec(memory@, pc) == Err::<Seq<u8>, Fault>(e)
                        &&& final(self).registers@ == old(self).registers@
                    },
                }
            }),
    {
        let pc = self.registers.read_16(Register16::PC);
        let opcode = match memory.read_byte(pc) {
            Ok(b) => b,
            Err(e) => return Err(e),
        };
        if let Err(e) = decode(opcode, 0, 0) {
            return Err(e);
        }
        let count = operand_len(opcode);
        let a1 = next_address(pc);
        let a2 = next_address(a1);
        let mut b1: u8 = 0;
        let mut b2: u8 = 0;
        if count >= 1 {
            b1 = match memory.read_byte(a1) {
                Ok(b) => b,
                Err(e) => return Err(e),
            };
        }
        if count == 2 {
            b2 = match memory.read_byte(a2) {
                Ok(b) => b,
                Err(e) => return Err(e),
            };
        }
        let instruction = match decode(opcode, b1, b2) {
            Ok(i) => i,
            Err(e) => return Err(e),
        };
        let mut next = a1;
        if count >= 1 {
            next = a2;
        }
        if count == 2 {
            next = next_address(a2);
        }
        proof {
            let bytes = mem_bytes(memory@, pc, 1 + operand_count(opcode));
            assert(encode(instruction) =~= bytes);
        }
        self.registers.write_16(Register16::PC, next);
        Ok(instruction)
    }

    /// Fetches one instruction and executes it; returns the machine cycles it took.
    pub fn tick(&mut self, memory: &mut Memory) -> (r: Result<u8, Fault>)
        requires
            old(self).wf(),
            old(memory).wf(),
        ensures
            final(self).wf(),
            final(memory).wf(),
            ({
                let before = machine(*old(self), *old(memory));
                let after = machine(*final(self), *final(memory));
                match fetch_spec(old(memory)@, old(self).registers@.pc) {
                    Ok(bytes) => {
                        &&& exists|i: Instruction| #[trigger] encode(i) =~= bytes
                        &&& forall|i: Instruction|
                            #[trigger] encode(i) =~= bytes ==> outcome(
                                step(i, fetched(before, i)),
                                fetched(before, i),
                                r,
                                after,
                            )
                    },
                    Err(e) => r == Err::<u8, Fault>(e) && after == before,
                }
            }),
    {
        let instruction = match self.fetch_instruction(memory) {
            Ok(i) => i,
            Err(e) => return Err(e),
        };
        proof {
            assert(machine(*self, *memory) == fetched(machine(*old(self), *old(memory)), instruction));
        }
        let r = instruction.execute(self, memory);
        proof {
            let bytes = fetch_spec(old(memory)@, old(self).registers@.pc)->Ok_0;
            assert(encode(instruction) =~= bytes);
            assert forall|i: Instruction| #[trigger] encode(i) =~= bytes implies i == instruction by {
                lemma_encode_injective(i, instruction);
            }
        }
        r
    }
}

} // verus!
