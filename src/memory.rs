use vstd::prelude::*;

verus! {

/// Number of addressable bytes: the 16-bit address bus reaches 64 KiB.
pub const MEMORY_SIZE: usize = 65536;

/// Low byte of the RESET vector.
pub const POWER_ON_RESET_ADDR_L: u16 = 0xFFFC;

/// High byte of the RESET vector.
pub const POWER_ON_RESET_ADDR_H: u16 = 0xFFFD;

/// First byte past the zero page and the stack page.
pub const UNRESERVED_MEMORY_ADDR_START: u16 = 0x0200;

/// Flat 64 KiB byte-addressable memory.
///
/// Zero Page: 0x0000 - 0x00FF
/// Stack: 0x0100 - 0x01FF
/// Unreserved Memory: 0x0200 - 0xFFF9
/// NMI: 0xFFFA - 0xFFFB
/// Reset: 0xFFFC - 0xFFFD
/// IRQ/BRK: 0xFFFE - 0xFFFF
#[derive(Copy, Clone)]
pub struct Memory {
    memory: [u8; MEMORY_SIZE],
}

impl View for Memory {
    type V = Seq<u8>;

    closed spec fn view(&self) -> Seq<u8> {
        self.memory@
    }
}

/// Every memory holds exactly one byte per 16-bit address.
pub broadcast proof fn lemma_memory_len(m: &Memory)
    ensures
        #[trigger] m@.len() == MEMORY_SIZE,
{
}

impl Memory {
    /// A zeroed memory whose RESET vector points at the start of user memory.
    pub fn new() -> (r: Self)
        ensures
            r@.len() == MEMORY_SIZE,
            r@[POWER_ON_RESET_ADDR_L as int] == (UNRESERVED_MEMORY_ADDR_START % 256) as u8,
            r@[POWER_ON_RESET_ADDR_H as int] == (UNRESERVED_MEMORY_ADDR_START / 256) as u8,
            forall|a: int|
                0 <= a < MEMORY_SIZE && a != POWER_ON_RESET_ADDR_L && a != POWER_ON_RESET_ADDR_H
                    ==> #[trigger] r@[a] == 0,
    {
        let mut memory = [0u8; MEMORY_SIZE];
        memory[POWER_ON_RESET_ADDR_L as usize] = (UNRESERVED_MEMORY_ADDR_START % 256) as u8;
        memory[POWER_ON_RESET_ADDR_H as usize] = (UNRESERVED_MEMORY_ADDR_START / 256) as u8;
        Memory { memory }
    }

    /// Byte stored at `addr`.
    pub fn read(&self, addr: u16) -> (r: u8)
        ensures
            r == self@[addr as int],
    {
        self.memory[addr as usize]
    }

    /// Stores `byte` at `addr`.
    pub fn write(&mut self, byte: u8, addr: u16)
        ensures
            final(self)@ == old(self)@.update(addr as int, byte),
    {
        self.memory[addr as usize] = byte;
    }
}

} // verus!
