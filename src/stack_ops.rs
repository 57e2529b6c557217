use vstd::prelude::*;

use crate::cpu::{CPU, CYCLE_LIMIT};
use crate::model::{CSF_BREAK, CSF_UNUSED};

verus! {

/// bytes: 1
/// cycles: 3
/// flags affected: none
pub(crate) fn pha(cpu: &mut CPU)
    requires
        old(cpu).cycles <= CYCLE_LIMIT + 1,
    ensures
        final(cpu)@ == old(cpu)@.pha(),
{
    let value = cpu.acc;
    cpu.push_byte_to_stack(value);
    // one cycle to decrement SP, one to push
    cpu.cycles = cpu.cycles + 1;
}

/// bytes: 1
/// cycles: 3
/// flags affected: none
///
/// The pushed copy of `P` has `B` set; `P` itself is left alone.
pub(crate) fn php(cpu: &mut CPU)
    requires
        old(cpu).cycles <= CYCLE_LIMIT + 1,
    ensures
        final(cpu)@ == old(cpu)@.php(),
{
    let value = cpu.status | CSF_BREAK;
    cpu.push_byte_to_stack(value);
    cpu.cycles = cpu.cycles + 1;
}

/// bytes: 1
/// cycles: 4
/// flags affected: N,Z
pub(crate) fn pla(cpu: &mut CPU)
    requires
        old(cpu).cycles <= CYCLE_LIMIT + 1,
    ensures
        final(cpu)@ == old(cpu)@.pla(),
{
    let value = cpu.pop_byte_from_stack();
    // dummy read for internal timing
    cpu.cycles = cpu.cycles + 1;
    cpu.acc = value;
    cpu.update_zero_negative(value);
}

/// bytes: 1
/// cycles: 4
/// flags affected: all
///
/// `B` and bit 5 of the pulled byte are ignored: `P` keeps `B` clear and bit 5 set.
pub(crate) fn plp(cpu: &mut CPU)
    requires
        old(cpu).cycles <= CYCLE_LIMIT + 1,
    ensures
        final(cpu)@ == old(cpu)@.plp(),
{
    let value = cpu.pop_byte_from_stack();
    // dummy read for internal timing
    cpu.cycles = cpu.cycles + 1;
    cpu.status = (value & !CSF_BREAK) | CSF_UNUSED;
}

/// bytes: 1
/// cycles: 2
/// flags affected: N,Z
pub(crate) fn tsx(cpu: &mut CPU)
    requires
        old(cpu).cycles <= CYCLE_LIMIT + 1,
    ensures
        final(cpu)@ == old(cpu)@.tsx(),
{
    let value = cpu.sp;
    cpu.x = value;
    cpu.update_zero_negative(value);
    cpu.cycles = cpu.cycles + 1;
}

/// bytes: 1
/// cycles: 2
/// flags affected: none
///
/// Unlike `TSX`, no flag changes.
pub(crate) fn txs(cpu: &mut CPU)
    requires
        old(cpu).cycles <= CYCLE_LIMIT + 1,
    ensures
        final(cpu)@ == old(cpu)@.txs(),
{
    cpu.sp = cpu.x;
    cpu.cycles = cpu.cycles + 1;
}

} // verus!
