use vstd::prelude::*;

use crate::cpu::{CPU, CYCLE_LIMIT};
use crate::model::Register;
use crate::opcode::AddressingMode;

verus! {

/// bytes: 2
/// cycles: 2
/// flags affected: N,Z
pub(crate) fn lda_immediate(cpu: &mut CPU)
    requires
        old(cpu).cycles <= CYCLE_LIMIT + 1,
    ensures
        final(cpu)@ == old(cpu)@.load(Register::A, AddressingMode::Immediate),
{
    let value = cpu.fetch_byte();
    cpu.acc = value;
    cpu.update_zero_negative(value);
}

/// bytes: 2
/// cycles: 3
/// flags affected: N,Z
pub(crate) fn lda_zero_page(cpu: &mut CPU)
    requires
        old(cpu).cycles <= CYCLE_LIMIT + 1,
    ensures
        final(cpu)@ == old(cpu)@.load(Register::A, AddressingMode::ZeroPage),
{
    let addr = cpu.addr_zero_page();
    let value = cpu.read_byte(addr);
    cpu.acc = value;
    cpu.update_zero_negative(value);
}

/// bytes: 2
/// cycles: 4
/// flags affected: N,Z
pub(crate) fn lda_zero_page_x(cpu: &mut CPU)
    requires
        old(cpu).cycles <= CYCLE_LIMIT + 1,
    ensures
        final(cpu)@ == old(cpu)@.load(Register::A, AddressingMode::ZeroPageX),
{
    let index = cpu.x;
    let addr = cpu.addr_zero_page_indexed(index);
    let value = cpu.read_byte(addr);
    cpu.acc = value;
    cpu.update_zero_negative(value);
}

/// bytes: 3
/// cycles: 4
/// flags affected: N,Z
pub(crate) fn lda_absolute(cpu: &mut CPU)
    requires
        old(cpu).cycles <= CYCLE_LIMIT + 1,
    ensures
        final(cpu)@ == old(cpu)@.load(Register::A, AddressingMode::Absolute),
{
    let addr = cpu.fetch_addr();
    let value = cpu.read_byte(addr);
    cpu.acc = value;
    cpu.update_zero_negative(value);
}

/// bytes: 3
/// cycles: 4 (+1 if page crossed)
/// flags affected: N,Z
pub(crate) fn lda_absolute_x(cpu: &mut CPU)
    requires
        old(cpu).cycles <= CYCLE_LIMIT + 1,
    ensures
        final(cpu)@ == old(cpu)@.load(Register::A, AddressingMode::AbsoluteX),
{
    let index = cpu.x;
    let addr = cpu.addr_absolute_indexed(index, false);
    let value = cpu.read_byte(addr);
    cpu.acc = value;
    cpu.update_zero_negative(value);
}

/// bytes: 3
/// cycles: 4 (+1 if page crossed)
/// flags affected: N,Z
pub(crate) fn lda_absolute_y(cpu: &mut CPU)
    requires
        old(cpu).cycles <= CYCLE_LIMIT + 1,
    ensures
        final(cpu)@ == old(cpu)@.load(Register::A, AddressingMode::AbsoluteY),
{
    let index = cpu.y;
    let addr = cpu.addr_absolute_indexed(index, false);
    let value = cpu.read_byte(addr);
    cpu.acc = value;
    cpu.update_zero_negative(value);
}

/// bytes: 2
/// cycles: 6
/// flags affected: N,Z
pub(crate) fn lda_indirect_x(cpu: &mut CPU)
    requires
        old(cpu).cycles <= CYCLE_LIMIT + 1,
    ensures
        final(cpu)@ == old(cpu)@.load(Register::A, AddressingMode::IndirectX),
{
    let addr = cpu.addr_indirect_x();
    let value = cpu.read_byte(addr);
    cpu.acc = value;
    cpu.update_zero_negative(value);
}

/// bytes: 2
/// cycles: 5 (+1 if page crossed)
/// flags affected: N,Z
pub(crate) fn lda_indirect_y(cpu: &mut CPU)
    requires
        old(cpu).cycles <= CYCLE_LIMIT + 1,
    ensures
        final(cpu)@ == old(cpu)@.load(Register::A, AddressingMode::IndirectY),
{
    let addr = cpu.addr_indirect_y(false);
    let value = cpu.read_byte(addr);
    cpu.acc = value;
    cpu.update_zero_negative(value);
}

/// bytes: 2
/// cycles: 2
/// flags affected: N,Z
pub(crate) fn ldx_immediate(cpu: &mut CPU)
    requires
        old(cpu).cycles <= CYCLE_LIMIT + 1,
    ensures
        final(cpu)@ == old(cpu)@.load(Register::X, AddressingMode::Immediate),
{
    let value = cpu.fetch_byte();
    cpu.x = value;
    cpu.update_zero_negative(value);
}

/// bytes: 2
/// cycles: 3
/// flags affected: N,Z
pub(crate) fn ldx_zero_page(cpu: &mut CPU)
    requires
        old(cpu).cycles <= CYCLE_LIMIT + 1,
    ensures
        final(cpu)@ == old(cpu)@.load(Register::X, AddressingMode::ZeroPage),
{
    let addr = cpu.addr_zero_page();
    let value = cpu.read_byte(addr);
    cpu.x = value;
    cpu.update_zero_negative(value);
}

/// bytes: 2
/// cycles: 4
/// flags affected: N,Z
pub(crate) fn ldx_zero_page_y(cpu: &mut CPU)
    requires
        old(cpu).cycles <= CYCLE_LIMIT + 1,
    ensures
        final(cpu)@ == old(cpu)@.load(Register::X, AddressingMode::ZeroPageY),
{
    let index = cpu.y;
    let addr = cpu.addr_zero_page_indexed(index);
    let value = cpu.read_byte(addr);
    cpu.x = value;
    cpu.update_zero_negative(value);
}

/// bytes: 3
/// cycles: 4
/// flags affected: N,Z
pub(crate) fn ldx_absolute(cpu: &mut CPU)
    requires
        old(cpu).cycles <= CYCLE_LIMIT + 1,
    ensures
        final(cpu)@ == old(cpu)@.load(Register::X, AddressingMode::Absolute),
{
    let addr = cpu.fetch_addr();
    let value = cpu.read_byte(addr);
    cpu.x = value;
    cpu.update_zero_negative(value);
}

/// bytes: 3
/// cycles: 4 (+1 if page crossed)
/// flags affected: N,Z
pub(crate) fn ldx_absolute_y(cpu: &mut CPU)
    requires
        old(cpu).cycles <= CYCLE_LIMIT + 1,
    ensures
        final(cpu)@ == old(cpu)@.load(Register::X, AddressingMode::AbsoluteY),
{
    let index = cpu.y;
    let addr = cpu.addr_absolute_indexed(index, false);
    let value = cpu.read_byte(addr);
    cpu.x = value;
    cpu.update_zero_negative(value);
}

/// bytes: 2
/// cycles: 2
/// flags affected: N,Z
pub(crate) fn ldy_immediate(cpu: &mut CPU)
    requires
        old(cpu).cycles <= CYCLE_LIMIT + 1,
    ensures
        final(cpu)@ == old(cpu)@.load(Register::Y, AddressingMode::Immediate),
{
    let value = cpu.fetch_byte();
    cpu.y = value;
    cpu.update_zero_negative(value);
}

/// bytes: 2
/// cycles: 3
/// flags affected: N,Z
pub(crate) fn ldy_zero_page(cpu: &mut CPU)
    requires
        old(cpu).cycles <= CYCLE_LIMIT + 1,
    ensures
        final(cpu)@ == old(cpu)@.load(Register::Y, AddressingMode::ZeroPage),
{
    let addr = cpu.addr_zero_page();
    let value = cpu.read_byte(addr);
    cpu.y = value;
    cpu.update_zero_negative(value);
}

/// bytes: 2
/// cycles: 4
/// flags affected: N,Z
pub(crate) fn ldy_zero_page_x(cpu: &mut CPU)
    requires
        old(cpu).cycles <= CYCLE_LIMIT + 1,
    ensures
        final(cpu)@ == old(cpu)@.load(Register::Y, AddressingMode::ZeroPageX),
{
    let index = cpu.x;
    let addr = cpu.addr_zero_page_indexed(index);
    let value = cpu.read_byte(addr);
    cpu.y = value;
    cpu.update_zero_negative(value);
}

/// bytes: 3
/// cycles: 4
/// flags affected: N,Z
pub(crate) fn ldy_absolute(cpu: &mut CPU)
    requires
        old(cpu).cycles <= CYCLE_LIMIT + 1,
    ensures
        final(cpu)@ == old(cpu)@.load(Register::Y, AddressingMode::Absolute),
{
    let addr = cpu.fetch_addr();
    let value = cpu.read_byte(addr);
    cpu.y = value;
    cpu.update_zero_negative(value);
}

/// bytes: 3
/// cycles: 4 (+1 if page crossed)
/// flags affected: N,Z
pub(crate) fn ldy_absolute_x(cpu: &mut CPU)
    requires
        old(cpu).cycles <= CYCLE_LIMIT + 1,
    ensures
        final(cpu)@ == old(cpu)@.load(Register::Y, AddressingMode::AbsoluteX),
{
    let index = cpu.x;
    let addr = cpu.addr_absolute_indexed(index, false);
    let value = cpu.read_byte(addr);
    cpu.y = value;
    cpu.update_zero_negative(value);
}

} // verus!
