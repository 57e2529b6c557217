use vstd::prelude::*;

use crate::model::{
    is_negative, pulled_status, pushed_status, reset_state, stack_address, with_zn, wrap16, wrap8,
    CpuState, Register, CSF_BREAK, CSF_NEGATIVE, CSF_UNUSED, CSF_ZERO,
};
use crate::opcode::Opcode;

verus! {

/// The register whose new value sets `Z` and `N`, for the instructions that
/// write one.
pub open spec fn flag_register(op: Opcode) -> Option<Register> {
    match op {
        Opcode::LDAImm | Opcode::LDAZpg | Opcode::LDAZpx | Opcode::LDAAbs | Opcode::LDAAbx
        | Opcode::LDAAby | Opcode::LDAIdx | Opcode::LDAIdy | Opcode::PLA => Some(Register::A),
        Opcode::LDXImm | Opcode::LDXZpg | Opcode::LDXZpy | Opcode::LDXAbs | Opcode::LDXAby
        | Opcode::TSX => Some(Register::X),
        Opcode::LDYImm | Opcode::LDYZpg | Opcode::LDYZpx | Opcode::LDYAbs
        | Opcode::LDYAbx => Some(Register::Y),
        _ => None,
    }
}

/// The instructions that set `PC` themselves rather than step over their bytes.
pub open spec fn sets_pc(op: Opcode) -> bool {
    match op {
        Opcode::JMPAbs | Opcode::JMPInd | Opcode::JSR | Opcode::RTS => true,
        _ => false,
    }
}

/// The documented cost of `op` run from `s`: its base cycles, plus one when
/// it is one of the reads that pay for crossing a page and its indexing
/// crosses one.
pub open spec fn documented_cycles(s: CpuState, op: Opcode) -> nat {
    let f = s.fetched();
    let crossed = crate::model::page_crossed(
        f.base_address(op.mode()),
        f.effective_address(op.mode()),
    );
    op.base_cycles() + (if op.page_penalty_applies() && crossed {
        1nat
    } else {
        0nat
    })
}

/// `Z` reflects whether the value is zero, `N` its bit 7; no other bit of `P` moves.
pub proof fn lemma_with_zn(status: u8, value: u8)
    ensures
        (with_zn(status, value) & CSF_ZERO != 0) == (value == 0),
        (with_zn(status, value) & CSF_NEGATIVE != 0) == is_negative(value),
        with_zn(status, value) & !(CSF_ZERO | CSF_NEGATIVE) == status & !(CSF_ZERO | CSF_NEGATIVE),
{
    assert((with_zn(status, value) & CSF_ZERO != 0) == (value == 0)) by (bit_vector);
    assert((with_zn(status, value) & CSF_NEGATIVE != 0) == is_negative(value)) by (bit_vector);
    assert(with_zn(status, value) & !(CSF_ZERO | CSF_NEGATIVE) == status & !(CSF_ZERO
        | CSF_NEGATIVE)) by (bit_vector);
}

/// One instruction keeps bit 5 of `P` set.
pub proof fn lemma_step_keeps_unused_flag(s: CpuState)
    requires
        s.status & CSF_UNUSED != 0,
        s.step() is Some,
    ensures
        s.step().unwrap().status & CSF_UNUSED != 0,
{
    reveal(CpuState::execute);
    let status = s.status;
    assert forall|v: u8| #[trigger] with_zn(status, v) & CSF_UNUSED != 0 by {
        assert(status & CSF_UNUSED != 0 ==> with_zn(status, v) & CSF_UNUSED != 0) by (bit_vector);
    }
    let b = s.fetched().top();
    assert(pulled_status(b) & CSF_UNUSED != 0) by (bit_vector);
}

/// Every state reachable from RESET has bit 5 of `P` set.
pub proof fn law_unused_flag_always_set(mem: Seq<u8>, n: nat)
    ensures
        reset_state(mem).after_steps(n).status & CSF_UNUSED != 0,
    decreases n,
{
    if n == 0 {
        assert(CSF_UNUSED & CSF_UNUSED != 0) by (bit_vector);
    } else {
        law_unused_flag_always_set(mem, (n - 1) as nat);
        let s = reset_state(mem).after_steps((n - 1) as nat);
        if s.step() is Some {
            lemma_step_keeps_unused_flag(s);
        }
    }
}

/// A push writes at `$0100 | SP`, a slot of page one, and moves `SP` down by
/// one modulo 256; a pull reads at `$0100 | SP` after moving `SP` up.
pub proof fn law_stack_address(s: CpuState, b: u8)
    ensures
        s.pushed(b).mem == s.mem.update((0x0100u16 | s.sp as u16) as int, b),
        s.pushed(b).sp == wrap8(s.sp - 1),
        s.top() == s.mem[(0x0100u16 | wrap8(s.sp + 1) as u16) as int],
        0x0100 <= stack_address(s.sp) <= 0x01FF,
{
    crate::model::lemma_stack_address(s.sp);
    crate::model::lemma_stack_address(wrap8(s.sp + 1));
}

/// An instruction takes exactly its documented cycles, plus one when it is
/// one of the reads that pay for crossing a page and its indexing crosses one.
pub proof fn law_cycle_cost(s: CpuState)
    requires
        s.step() is Some,
    ensures
        s.step().unwrap().cycles == s.cycles + documented_cycles(s, s.next_opcode().unwrap()),
{
    reveal(CpuState::execute);
}

/// An instruction that writes `A`, `X` or `Y` leaves `Z` set exactly when the
/// written value is zero and `N` set exactly when its bit 7 is; `PLP` aside,
/// every other instruction leaves `P` as it was.
pub proof fn law_zero_negative_flags(s: CpuState)
    requires
        s.step() is Some,
    ensures
        ({
            let op = s.next_opcode().unwrap();
            let t = s.step().unwrap();
            match flag_register(op) {
                Some(r) => {
                    &&& (t.status & CSF_ZERO != 0) == (t.register(r) == 0)
                    &&& (t.status & CSF_NEGATIVE != 0) == (t.register(r) & 0x80 != 0)
                },
                None => op != Opcode::PLP ==> t.status == s.status,
            }
        }),
{
    reveal(CpuState::execute);
    let op = s.next_opcode().unwrap();
    let f = s.fetched();
    let t = s.step().unwrap();
    if let Some(r) = flag_register(op) {
        lemma_with_zn(f.status, t.register(r));
    }
}

/// An instruction that does not set `PC` itself moves it past its documented
/// length, modulo 2^16.
pub proof fn law_pc_advance(s: CpuState)
    requires
        s.step() is Some,
    ensures
        !sets_pc(s.next_opcode().unwrap()) ==> s.step().unwrap().pc == wrap16(
            s.pc + s.next_opcode().unwrap().length(),
        ),
{
    reveal(CpuState::execute);
    let pc = s.pc as int;
    assert(wrap16(wrap16(pc + 1) + 0) == wrap16(pc + 1));
    assert(wrap16(wrap16(pc + 1) + 1) == wrap16(pc + 2));
    assert(wrap16(wrap16(pc + 1) + 2) == wrap16(pc + 3));
}

/// `PHA` then `PLA` gives back `A` and `SP`, with `Z` and `N` set from `A`.
pub proof fn law_pha_pla(s: CpuState)
    requires
        s.mem.len() == 65536,
        s.next_opcode() == Some(Opcode::PHA),
        s.step().unwrap().next_opcode() == Some(Opcode::PLA),
    ensures
        ({
            let u = s.step().unwrap().step().unwrap();
            &&& u.acc == s.acc
            &&& u.sp == s.sp
            &&& u.status == with_zn(s.status, s.acc)
        }),
{
    reveal(CpuState::execute);
    crate::model::lemma_stack_address(s.sp);
    crate::model::lemma_stack_address(wrap8(wrap8(s.sp - 1) + 1));
}

/// `PHP` then `PLP` gives back bits 0-3 and 6-7 of `P`; `B` reads 0 and bit 5
/// reads 1 afterwards.
pub proof fn law_php_plp(s: CpuState)
    requires
        s.mem.len() == 65536,
        s.next_opcode() == Some(Opcode::PHP),
        s.step().unwrap().next_opcode() == Some(Opcode::PLP),
    ensures
        ({
            let u = s.step().unwrap().step().unwrap();
            &&& u.status & 0xCF == s.status & 0xCF
            &&& u.status & CSF_BREAK == 0
            &&& u.status & CSF_UNUSED != 0
            &&& u.sp == s.sp
        }),
{
    reveal(CpuState::execute);
    crate::model::lemma_stack_address(s.sp);
    crate::model::lemma_stack_address(wrap8(wrap8(s.sp - 1) + 1));
    let p = s.status;
    assert(pulled_status(pushed_status(p)) & 0xCF == p & 0xCF) by (bit_vector);
    assert(pulled_status(pushed_status(p)) & CSF_BREAK == 0) by (bit_vector);
    assert(pulled_status(pushed_status(p)) & CSF_UNUSED != 0) by (bit_vector);
}

proof fn lemma_jsr_effect(f: CpuState)
    ensures
        ({
            let ret = wrap16(f.pc + 1);
            let t = f.execute(Opcode::JSR);
            &&& t.sp == wrap8(wrap8(f.sp - 1) - 1)
            &&& t.mem == f.mem.update(stack_address(f.sp) as int, (ret / 256) as u8).update(
                stack_address(wrap8(f.sp - 1)) as int,
                (ret % 256) as u8,
            )
        }),
{
    reveal(CpuState::execute);
}

proof fn lemma_rts_effect(g: CpuState)
    ensures
        ({
            let u = g.execute(Opcode::RTS);
            let lo = g.mem[stack_address(wrap8(g.sp + 1)) as int];
            let hi = g.mem[stack_address(wrap8(wrap8(g.sp + 1) + 1)) as int];
            &&& u.pc == wrap16(crate::model::word(lo, hi) + 1)
            &&& u.sp == wrap8(g.sp + 2)
        }),
{
    reveal(CpuState::execute);
}

/// `JSR` to a routine that returns at once brings `PC` to the instruction
/// after the `JSR` and gives back `SP`.
pub proof fn law_jsr_rts(s: CpuState)
    requires
        s.mem.len() == 65536,
        s.next_opcode() == Some(Opcode::JSR),
        s.step().unwrap().next_opcode() == Some(Opcode::RTS),
    ensures
        ({
            let u = s.step().unwrap().step().unwrap();
            &&& u.pc == wrap16(s.pc + 3)
            &&& u.sp == s.sp
        }),
{
    let f = s.fetched();
    let ret = wrap16(f.pc + 1);
    let hi = (ret / 256) as u8;
    let lo = (ret % 256) as u8;
    let t = f.execute(Opcode::JSR);
    assert(s.step() == Some(t));
    lemma_jsr_effect(f);
    let g = t.fetched();
    assert(t.step() == Some(g.execute(Opcode::RTS)));
    lemma_rts_effect(g);
    let sp1 = wrap8(s.sp - 1);
    crate::model::lemma_stack_address(s.sp);
    crate::model::lemma_stack_address(sp1);
    assert(wrap8(wrap8(sp1 - 1) + 1) == sp1);
    assert(wrap8(sp1 + 1) == s.sp);
    assert(g.mem[stack_address(sp1) as int] == lo);
    assert(g.mem[stack_address(s.sp) as int] == hi);
    assert(crate::model::word(lo, hi) == ret);
    assert(wrap16(ret + 1) == wrap16(s.pc + 3));
    assert(wrap8(wrap8(sp1 - 1) + 2) == s.sp);
}

} // verus!
