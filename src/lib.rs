//! Instruction-level core of a Game Boy (Sharp SM83) emulator: register file,
//! memory bus, opcode decoder and instruction executor.
pub mod alu;
pub mod bytes;
pub mod cpu;
pub mod decode;
pub mod delta_time;
pub mod execute;
pub mod fault;
pub mod instruction;
pub mod memory;
pub mod operands;
pub mod registers;

pub use bytes::{
    carry_u16_add, carry_u8_add, combine, get_bit_u16, get_bit_u8, get_hi, get_lo,
    half_carry_u16_add, half_carry_u8_add, set_bit_u16, set_bit_u8, set_hi, set_lo, split,
};

pub use cpu::Cpu;
pub use delta_time::{DeltaTime, DeltaTimeError};
pub use fault::Fault;
pub use instruction::Instruction;
pub use memory::{Memory, Segment};
pub use operands::{Cond, B3, R16, R16MEM, R16STK, R8, TGT3};
pub use registers::{Flag, Flags, Register16, Register8, Registers};
