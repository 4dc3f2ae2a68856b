//! The faults the core reports instead of aborting.
use vstd::prelude::*;

verus! {

/// Why a fetch, a bus access or an instruction could not complete.
#[derive(Debug, Clone, Copy, PartialEq, Eq, Structural)]
pub enum Fault {
    /// The opcode byte matches no instruction.
    UnknownOpcode(u8),
    /// An access to echo RAM, which the bus does not mirror.
    EchoRam(u16),
    /// An access to an address no segment serves.
    UnmappedAddress(u16),
    /// An instruction whose effect the core does not model (HALT, STOP).
    Unimplemented,
}

} // verus!
