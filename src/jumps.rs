use vstd::prelude::*;

use crate::cpu::{CPU, CYCLE_LIMIT};
use crate::model::CpuState;

verus! {

/// bytes: 3
/// cycles: 3
/// flags affected: none
pub(crate) fn jmp_abs(cpu: &mut CPU)
    requires
        old(cpu).cycles <= CYCLE_LIMIT + 1,
    ensures
        final(cpu)@ == old(cpu)@.jmp_absolute(),
{
    let addr = cpu.fetch_addr();
    cpu.pc = addr;
}

/// bytes: 3
/// cycles: 5
/// flags affected: none
///
/// Reproduces the page-boundary bug: for a pointer at `$xxFF` the high byte
/// of the target comes from `$xx00`.
pub(crate) fn jmp_ind(cpu: &mut CPU)
    requires
        old(cpu).cycles <= CYCLE_LIMIT + 1,
    ensures
        final(cpu)@ == old(cpu)@.jmp_indirect(),
{
    let ind_addr = cpu.fetch_addr();
    let high_addr;
    if ind_addr & 0x00FF == 0x00FF {
        assert(ind_addr & 0xFF00 == ind_addr - 255) by (bit_vector)
            requires
                ind_addr & 0x00FF == 0x00FF,
        ;
        high_addr = ind_addr & 0xFF00;
    } else {
        assert(ind_addr % 256 != 255) by (bit_vector)
            requires
                ind_addr & 0x00FF != 0x00FF,
        ;
        high_addr = ind_addr + 1;
    }
    proof {
        assert((ind_addr & 0x00FF == 0x00FF) == (ind_addr % 256 == 255)) by (bit_vector);
        assert(high_addr == CpuState::indirect_high_address(ind_addr));
    }
    let addr = cpu.read_addr(ind_addr, high_addr);
    cpu.pc = addr;
}

/// bytes: 3
/// cycles: 6
/// flags affected: none
///
/// Pushes the address of the last byte of the instruction, high byte first.
pub(crate) fn jsr(cpu: &mut CPU)
    requires
        old(cpu).cycles <= CYCLE_LIMIT + 1,
    ensures
        final(cpu)@ == old(cpu)@.jsr(),
{
    let addr = cpu.fetch_addr();
    let ret = cpu.pc.wrapping_sub(1);
    cpu.push_addr_to_stack(ret);
    // the transfer to the target takes 1 cycle
    cpu.pc = addr;
    cpu.cycles = cpu.cycles + 1;
}

/// bytes: 1
/// cycles: 6
/// flags affected: none
pub(crate) fn rts(cpu: &mut CPU)
    requires
        old(cpu).cycles <= CYCLE_LIMIT + 1,
    ensures
        final(cpu)@ == old(cpu)@.rts(),
{
    let addr = cpu.pop_addr_from_stack();
    // the increment of the return address takes 1 cycle
    cpu.pc = addr.wrapping_add(1);
    cpu.cycles = cpu.cycles + 1;
}

} // verus!
