use vstd::prelude::*;

use crate::cpu::{CPU, CYCLE_LIMIT};
use crate::model::{page_crossed, wrap16, wrap8, CpuState};
use crate::opcode::AddressingMode;

verus! {

impl CPU {
    /// Zero Page: the operand byte is the address, in 1 cycle.
    pub(crate) fn addr_zero_page(&mut self) -> (r: u16)
        requires
            old(self).cycles <= CYCLE_LIMIT + 1,
        ensures
            r == old(self)@.effective_address(AddressingMode::ZeroPage),
            final(self)@ == (CpuState {
                pc: wrap16(old(self).pc + 1),
                cycles: old(self)@.cycles + 1,
                ..old(self)@
            }),
    {
        let zpg_addr = self.fetch_byte();
        zpg_addr as u16
    }

    /// Zero Page,X and Zero Page,Y: the operand byte plus `index`, wrapping
    /// within the zero page, in 2 cycles (one for the indexing).
    pub(crate) fn addr_zero_page_indexed(&mut self, index: u8) -> (r: u16)
        requires
            old(self).cycles <= CYCLE_LIMIT + 1,
        ensures
            r == wrap8(old(self)@.operand(0) + index) as u16,
            final(self)@ == (CpuState {
                pc: wrap16(old(self).pc + 1),
                cycles: old(self)@.cycles + 2,
                ..old(self)@
            }),
    {
        let zpg_addr = self.fetch_byte();
        let addr = zpg_addr.wrapping_add(index);
        self.cycles = self.cycles + 1;
        addr as u16
    }

    /// Absolute,X and Absolute,Y: the operand address plus `index`, wrapping
    /// at 64 KiB. The extra cycle is spent when the page is crossed, or always
    /// for a store (`dummy_read`).
    pub(crate) fn addr_absolute_indexed(&mut self, index: u8, dummy_read: bool) -> (r: u16)
        requires
            old(self).cycles <= CYCLE_LIMIT + 1,
        ensures
            r == wrap16(old(self)@.operand_word() + index),
            final(self)@ == (CpuState {
                pc: wrap16(old(self).pc + 2),
                cycles: old(self)@.cycles + 2 + (if dummy_read || page_crossed(
                    old(self)@.operand_word(),
                    r,
                ) {
                    1nat
                } else {
                    0nat
                }),
                ..old(self)@
            }),
    {
        let abs_addr = self.fetch_addr();
        let eff_addr = abs_addr.wrapping_add(index as u16);
        if dummy_read || CPU::page_crossed(abs_addr, eff_addr) {
            self.cycles = self.cycles + 1;
        }
        eff_addr
    }

    /// (Indirect,X): the pointer at operand plus `X` in the zero page, both
    /// pointer bytes read within the zero page, in 4 cycles.
    pub(crate) fn addr_indirect_x(&mut self) -> (r: u16)
        requires
            old(self).cycles <= CYCLE_LIMIT + 1,
        ensures
            r == old(self)@.effective_address(AddressingMode::IndirectX),
            final(self)@ == (CpuState {
                pc: wrap16(old(self).pc + 1),
                cycles: old(self)@.cycles + 4,
                ..old(self)@
            }),
    {
        let zpg_addr = self.fetch_byte();
        let ptr = zpg_addr.wrapping_add(self.x);
        self.cycles = self.cycles + 1;
        self.read_addr(ptr as u16, ptr.wrapping_add(1) as u16)
    }

    /// (Indirect),Y: the pointer at the operand in the zero page, plus `Y`,
    /// wrapping at 64 KiB. The extra cycle is spent when the page is crossed,
    /// or always for a store (`dummy_read`).
    pub(crate) fn addr_indirect_y(&mut self, dummy_read: bool) -> (r: u16)
        requires
            old(self).cycles <= CYCLE_LIMIT + 1,
        ensures
            r == old(self)@.effective_address(AddressingMode::IndirectY),
            final(self)@ == (CpuState {
                pc: wrap16(old(self).pc + 1),
                cycles: old(self)@.cycles + 3 + (if dummy_read || page_crossed(
                    old(self)@.base_address(AddressingMode::IndirectY),
                    r,
                ) {
                    1nat
                } else {
                    0nat
                }),
                ..old(self)@
            }),
    {
        let zpg_addr = self.fetch_byte();
        let base = self.read_addr(zpg_addr as u16, zpg_addr.wrapping_add(1) as u16);
        let eff_addr = base.wrapping_add(self.y as u16);
        if dummy_read || CPU::page_crossed(base, eff_addr) {
            self.cycles = self.cycles + 1;
        }
        eff_addr
    }
}

} // verus!
