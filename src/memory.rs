//! The memory bus: a 16-bit address space split into fixed segments.
use vstd::prelude::*;

use crate::bytes::{combine, hi_byte, lo_byte, split, word_of};
use crate::fault::Fault;

verus! {

/// Number of addresses on the bus.
pub const ADDRESS_SPACE: usize = 0x10000;

/// `x` reduced into the 16-bit address range (addresses wrap around).
pub open spec fn wrap16(x: int) -> u16 {
    (x % 65536) as u16
}

/// The named regions of the address space.
#[derive(Debug, Clone, Copy, PartialEq, Eq, Structural)]
pub enum Segment {
    RomBank0,
    RomBankN,
    VideoRam,
    ExternalRam,
    WorkRamBank0,
    WorkRamBankN,
    EchoRam,
    ObjectAttributes,
    IoRegisters,
    HighRam,
    InterruptEnable,
    Unmapped,
}

/// The segment that holds `addr`.
pub open spec fn segment_spec(addr: u16) -> Segment {
    if addr <= 0x3FFF {
        Segment::RomBank0
    } else if addr <= 0x7FFF {
        Segment::RomBankN
    } else if addr <= 0x9FFF {
        Segment::VideoRam
    } else if addr <= 0xBFFF {
        Segment::ExternalRam
    } else if addr <= 0xCFFF {
        Segment::WorkRamBank0
    } else if addr <= 0xDFFF {
        Segment::WorkRamBankN
    } else if addr <= 0xFDFF {
        Segment::EchoRam
    } else if addr <= 0xFE9F {
        Segment::ObjectAttributes
    } else if addr <= 0xFEFF {
        Segment::Unmapped
    } else if addr <= 0xFF7F {
        Segment::IoRegisters
    } else if addr <= 0xFFFE {
        Segment::HighRam
    } else {
        Segment::InterruptEnable
    }
}

/// Whether the bus serves reads and writes at `addr` (echo RAM and the gap
/// after the object attribute table are not served).
pub open spec fn accessible(addr: u16) -> bool {
    segment_spec(addr) != Segment::EchoRam && segment_spec(addr) != Segment::Unmapped
}

/// The fault raised by an access to an address the bus does not serve.
pub open spec fn bus_fault(addr: u16) -> Fault {
    if segment_spec(addr) == Segment::EchoRam {
        Fault::EchoRam(addr)
    } else {
        Fault::UnmappedAddress(addr)
    }
}

/// Reading one byte of `mem` at `addr`.
pub open spec fn bus_read(mem: Seq<u8>, addr: u16) -> Result<u8, Fault> {
    if accessible(addr) {
        Ok(mem[addr as int])
    } else {
        Err(bus_fault(addr))
    }
}

/// Reading a little-endian word of `mem` at `addr`: low byte first, then the
/// high byte at the next address.
pub open spec fn bus_read_word(mem: Seq<u8>, addr: u16) -> Result<u16, Fault> {
    let next = wrap16(addr + 1);
    if !accessible(addr) {
        Err(bus_fault(addr))
    } else if !accessible(next) {
        Err(bus_fault(next))
    } else {
        Ok(word_of(mem[next as int], mem[addr as int]))
    }
}

/// Writing one byte of `mem` at `addr`.
pub open spec fn bus_write(mem: Seq<u8>, addr: u16, value: u8) -> Result<Seq<u8>, Fault> {
    if accessible(addr) {
        Ok(mem.update(addr as int, value))
    } else {
        Err(bus_fault(addr))
    }
}

/// Writing a word of `mem` at `addr`: low byte at `addr`, high byte at the next address.
pub open spec fn bus_write_word(mem: Seq<u8>, addr: u16, value: u16) -> Result<Seq<u8>, Fault> {
    let next = wrap16(addr + 1);
    if !accessible(addr) {
        Err(bus_fault(addr))
    } else if !accessible(next) {
        Err(bus_fault(next))
    } else {
        Ok(mem.update(addr as int, lo_byte(value)).update(next as int, hi_byte(value)))
    }
}

/// The segment that holds `addr`, found by a fixed number of comparisons.
pub fn segment_of(addr: u16) -> (r: Segment)
    ensures
        r == segment_spec(addr),
{
    if addr <= 0x3FFF {
        Segment::RomBank0
    } else if addr <= 0x7FFF {
        Segment::RomBankN
    } else if addr <= 0x9FFF {
        Segment::VideoRam
    } else if addr <= 0xBFFF {
        Segment::ExternalRam
    } else if addr <= 0xCFFF {
        Segment::WorkRamBank0
    } else if addr <= 0xDFFF {
        Segment::WorkRamBankN
    } else if addr <= 0xFDFF {
        Segment::EchoRam
    } else if addr <= 0xFE9F {
        Segment::ObjectAttributes
    } else if addr <= 0xFEFF {
        Segment::Unmapped
    } else if addr <= 0xFF7F {
        Segment::IoRegisters
    } else if addr <= 0xFFFE {
        Segment::HighRam
    } else {
        Segment::InterruptEnable
    }
}

/// `Ok(())` when the bus serves `addr`, else the fault an access there raises.
fn check_access(addr: u16) -> (r: Result<(), Fault>)
    ensures
        r is Ok <==> accessible(addr),
        r is Err ==> r == Err::<(), Fault>(bus_fault(addr)),
{
    match segment_of(addr) {
        Segment::EchoRam => Err(Fault::EchoRam(addr)),
        Segment::Unmapped => Err(Fault::UnmappedAddress(addr)),
        _ => Ok(()),
    }
}

/// The address after `addr`, wrapping from 0xFFFF to 0x0000.
pub fn next_address(addr: u16) -> (r: u16)
    ensures
        r == wrap16(addr + 1),
{
    if addr == 0xFFFF {
        0
    } else {
        addr + 1
    }
}

/// The byte store behind the bus, one cell per address.
pub struct Memory {
    cells: Vec<u8>,
}

impl View for Memory {
    type V = Seq<u8>;

    closed spec fn view(&self) -> Seq<u8> {
        self.cells@
    }
}

impl Memory {
    /// One cell for every address.
    pub open spec fn wf(&self) -> bool {
        self@.len() == 0x10000
    }

    /// A bus whose every cell holds 0 (power-on state).
    pub fn new() -> (m: Memory)
        ensures
            m.wf(),
            m@ == Seq::new(0x10000, |i: int| 0u8),
    {
        let mut cells: Vec<u8> = Vec::new();
        let mut i: usize = 0;
        while i < ADDRESS_SPACE
            invariant
                i <= ADDRESS_SPACE,
                cells@ == Seq::new(i as nat, |k: int| 0u8),
            decreases ADDRESS_SPACE - i,
        {
            cells.push(0);
            i = i + 1;
        }
        Memory { cells }
    }

    pub fn read_byte(&self, address: u16) -> (r: Result<u8, Fault>)
        requires
            self.wf(),
        ensures
            r == bus_read(self@, address),
    {
        match check_access(address) {
            Ok(()) => Ok(self.cells[address as usize]),
            Err(e) => Err(e),
        }
    }

    /// Stores `value` at `address`; on a fault nothing is stored.
    pub fn write_byte(&mut self, address: u16, value: u8) -> (r: Result<(), Fault>)
        requires
            old(self).wf(),
        ensures
            final(self).wf(),
            match bus_write(old(self)@, address, value) {
                Ok(m) => r is Ok && final(self)@ == m,
                Err(e) => r == Err::<(), Fault>(e) && final(self)@ == old(self)@,
            },
    {
        match check_access(address) {
            Ok(()) => {
                self.cells.set(address as usize, value);
                Ok(())
            },
            Err(e) => Err(e),
        }
    }

    pub fn read_word(&self, address: u16) -> (r: Result<u16, Fault>)
        requires
            self.wf(),
        ensures
            r == bus_read_word(self@, address),
    {
        let lo = match self.read_byte(address) {
            Ok(b) => b,
            Err(e) => return Err(e),
        };
        let hi = match self.read_byte(next_address(address)) {
            Ok(b) => b,
            Err(e) => return Err(e),
        };
        Ok(combine(hi, lo))
    }

    /// Stores `value` little-endian at `address`; on a fault nothing is stored.
    pub fn write_word(&mut self, address: u16, value: u16) -> (r: Result<(), Fault>)
        requires
            old(self).wf(),
        ensures
            final(self).wf(),
            match bus_write_word(old(self)@, address, value) {
                Ok(m) => r is Ok && final(self)@ == m,
                Err(e) => r == Err::<(), Fault>(e) && final(self)@ == old(self)@,
            },
    {
        let next = next_address(address);
        if let Err(e) = check_access(address) {
            return Err(e);
        }
        if let Err(e) = check_access(next) {
            return Err(e);
        }
        let (hi, lo) = split(value);
        self.cells.set(address as usize, lo);
        self.cells.set(next as usize, hi);
        Ok(())
    }
}

/// A word written to the bus reads back unchanged, wherever the write succeeds.
pub proof fn lemma_word_round_trip(mem: Seq<u8>, addr: u16, value: u16)
    requires
        mem.len() == 0x10000,
        bus_write_word(mem, addr, value) is Ok,
    ensures
        bus_read_word(bus_write_word(mem, addr, value)->Ok_0, addr) == Ok::<u16, Fault>(value),
{
    let next = wrap16(addr + 1);
    assert(next != addr);
    crate::bytes::lemma_word_split(value);
}

} // verus!
