use vstd::prelude::*;

use crate::cpu::{CPU, CYCLE_LIMIT};
use crate::model::Register;
use crate::opcode::AddressingMode;

verus! {

/// bytes: 2
/// cycles: 3
/// flags affected: none
pub(crate) fn sta_zero_page(cpu: &mut CPU)
    requires
        old(cpu).cycles <= CYCLE_LIMIT + 1,
    ensures
        final(cpu)@ == old(cpu)@.store(Register::A, AddressingMode::ZeroPage),
{
    let addr = cpu.addr_zero_page();
    let value = cpu.acc;
    cpu.write_byte(value, addr);
}

/// bytes: 2
/// cycles: 4
/// flags affected: none
pub(crate) fn sta_zero_page_x(cpu: &mut CPU)
    requires
        old(cpu).cycles <= CYCLE_LIMIT + 1,
    ensures
        final(cpu)@ == old(cpu)@.store(Register::A, AddressingMode::ZeroPageX),
{
    let index = cpu.x;
    let addr = cpu.addr_zero_page_indexed(index);
    let value = cpu.acc;
    cpu.write_byte(value, addr);
}

/// bytes: 3
/// cycles: 4
/// flags affected: none
pub(crate) fn sta_absolute(cpu: &mut CPU)
    requires
        old(cpu).cycles <= CYCLE_LIMIT + 1,
    ensures
        final(cpu)@ == old(cpu)@.store(Register::A, AddressingMode::Absolute),
{
    let addr = cpu.fetch_addr();
    let value = cpu.acc;
    cpu.write_byte(value, addr);
}

/// bytes: 3
/// cycles: 5
/// flags affected: none
pub(crate) fn sta_absolute_x(cpu: &mut CPU)
    requires
        old(cpu).cycles <= CYCLE_LIMIT + 1,
    ensures
        final(cpu)@ == old(cpu)@.store(Register::A, AddressingMode::AbsoluteX),
{
    let index = cpu.x;
    let addr = cpu.addr_absolute_indexed(index, true);
    let value = cpu.acc;
    cpu.write_byte(value, addr);
}

/// bytes: 3
/// cycles: 5
/// flags affected: none
pub(crate) fn sta_absolute_y(cpu: &mut CPU)
    requires
        old(cpu).cycles <= CYCLE_LIMIT + 1,
    ensures
        final(cpu)@ == old(cpu)@.store(Register::A, AddressingMode::AbsoluteY),
{
    let index = cpu.y;
    let addr = cpu.addr_absolute_indexed(index, true);
    let value = cpu.acc;
    cpu.write_byte(value, addr);
}

/// bytes: 2
/// cycles: 6
/// flags affected: none
pub(crate) fn sta_indirect_x(cpu: &mut CPU)
    requires
        old(cpu).cycles <= CYCLE_LIMIT + 1,
    ensures
        final(cpu)@ == old(cpu)@.store(Register::A, AddressingMode::IndirectX),
{
    let addr = cpu.addr_indirect_x();
    let value = cpu.acc;
    cpu.write_byte(value, addr);
}

/// bytes: 2
/// cycles: 6
/// flags affected: none
pub(crate) fn sta_indirect_y(cpu: &mut CPU)
    requires
        old(cpu).cycles <= CYCLE_LIMIT + 1,
    ensures
        final(cpu)@ == old(cpu)@.store(Register::A, AddressingMode::IndirectY),
{
    let addr = cpu.addr_indirect_y(true);
    let value = cpu.acc;
    cpu.write_byte(value, addr);
}

/// bytes: 2
/// cycles: 3
/// flags affected: none
pub(crate) fn stx_zero_page(cpu: &mut CPU)
    requires
        old(cpu).cycles <= CYCLE_LIMIT + 1,
    ensures
        final(cpu)@ == old(cpu)@.store(Register::X, AddressingMode::ZeroPage),
{
    let addr = cpu.addr_zero_page();
    let value = cpu.x;
    cpu.write_byte(value, addr);
}

/// bytes: 2
/// cycles: 4
/// flags affected: none
pub(crate) fn stx_zero_page_y(cpu: &mut CPU)
    requires
        old(cpu).cycles <= CYCLE_LIMIT + 1,
    ensures
        final(cpu)@ == old(cpu)@.store(Register::X, AddressingMode::ZeroPageY),
{
    let index = cpu.y;
    let addr = cpu.addr_zero_page_indexed(index);
    let value = cpu.x;
    cpu.write_byte(value, addr);
}

/// bytes: 3
/// cycles: 4
/// flags affected: none
pub(crate) fn stx_absolute(cpu: &mut CPU)
    requires
        old(cpu).cycles <= CYCLE_LIMIT + 1,
    ensures
        final(cpu)@ == old(cpu)@.store(Register::X, AddressingMode::Absolute),
{
    let addr = cpu.fetch_addr();
    let value = cpu.x;
    cpu.write_byte(value, addr);
}

/// bytes: 2
/// cycles: 3
/// flags affected: none
pub(crate) fn sty_zero_page(cpu: &mut CPU)
    requires
        old(cpu).cycles <= CYCLE_LIMIT + 1,
    ensures
        final(cpu)@ == old(cpu)@.store(Register::Y, AddressingMode::ZeroPage),
{
    let addr = cpu.addr_zero_page();
    let value = cpu.y;
    cpu.write_byte(value, addr);
}

/// bytes: 2
/// cycles: 4
/// flags affected: none
pub(crate) fn sty_zero_page_x(cpu: &mut CPU)
    requires
        old(cpu).cycles <= CYCLE_LIMIT + 1,
    ensures
        final(cpu)@ == old(cpu)@.store(Register::Y, AddressingMode::ZeroPageX),
{
    let index = cpu.x;
    let addr = cpu.addr_zero_page_indexed(index);
    let value = cpu.y;
    cpu.write_byte(value, addr);
}

/// bytes: 3
/// cycles: 4
/// flags affected: none
pub(crate) fn sty_absolute(cpu: &mut CPU)
    requires
        old(cpu).cycles <= CYCLE_LIMIT + 1,
    ensures
        final(cpu)@ == old(cpu)@.store(Register::Y, AddressingMode::Absolute),
{
    let addr = cpu.fetch_addr();
    let value = cpu.y;
    cpu.write_byte(value, addr);
}

} // verus!
