use vstd::prelude::*;

use crate::jumps::{jmp_abs, jmp_ind, jsr, rts};
use crate::laws::{
    documented_cycles, flag_register, law_cycle_cost, law_pc_advance,
    law_zero_negative_flags, lemma_step_keeps_unused_flag, sets_pc,
};
use crate::load_ops::{
    lda_absolute, lda_absolute_x, lda_absolute_y, lda_immediate, lda_indirect_x, lda_indirect_y,
    lda_zero_page, lda_zero_page_x, ldx_absolute, ldx_absolute_y, ldx_immediate, ldx_zero_page,
    ldx_zero_page_y, ldy_absolute, ldy_absolute_x, ldy_immediate, ldy_zero_page, ldy_zero_page_x,
};
use crate::memory::{Memory, POWER_ON_RESET_ADDR_H, POWER_ON_RESET_ADDR_L};
use crate::model::{
    is_negative, lemma_stack_address, page_crossed, reset_state, stack_address, with_zn, word,
    wrap16, wrap8, CpuState, CSF_NEGATIVE, CSF_UNUSED, CSF_ZERO,
};
use crate::opcode::Opcode;
use crate::stack_ops::{pha, php, pla, plp, tsx, txs};
use crate::store_ops::{
    sta_absolute, sta_absolute_x, sta_absolute_y, sta_indirect_x, sta_indirect_y, sta_zero_page,
    sta_zero_page_x, stx_absolute, stx_zero_page, stx_zero_page_y, sty_absolute, sty_zero_page,
    sty_zero_page_x,
};

verus! {

broadcast use crate::memory::lemma_memory_len;

/// Top of the stack page.
pub const SYS_STACK_ADDR_START: u16 = 0x01FF;

/// Bottom of the stack page; OR-ed with `SP` it gives the stack slot.
pub const SYS_STACK_ADDR_END: u16 = 0x0100;

pub const CPU_DEFAULT_ACC: u8 = 0;

pub const CPU_DEFAULT_X: u8 = 0;

pub const CPU_DEFAULT_Y: u8 = 0;

pub const CPU_DEFAULT_SP: u8 = 0xFF;

/// Only bit 5 set.
pub const CPU_DEFAULT_STATUS: u8 = CSF_UNUSED;

/// Cycles that the modelled reset sequence takes.
pub const RESET_CYCLES: u64 = 7;

/// Highest cycle count from which one more instruction is guaranteed not to
/// overflow the 64-bit counter.
pub const CYCLE_LIMIT: u64 = 0xFFFF_FFFF_FFFF_FFF0;

/// Most cycles that one instruction takes.
pub const MAX_INSTRUCTION_CYCLES: u64 = 6;

/// An undocumented opcode met at `addr`: the processor cannot go on.
#[derive(PartialEq, Eq, Structural, Copy, Clone, Debug)]
pub struct InvalidOpcode {
    pub opcode: u8,
    pub addr: u16,
}

/// Why `run` came back.
#[derive(PartialEq, Eq, Structural, Copy, Clone, Debug)]
pub enum RunExit {
    /// The processor met an undocumented opcode.
    Halted(InvalidOpcode),
    /// The cycle counter has no room for another instruction.
    CycleLimitReached,
}

/// The register file of a 6502, with the memory it drives.
pub struct CPU {
    pub acc: u8,
    pub x: u8,
    pub y: u8,
    pub sp: u8,
    pub pc: u16,
    pub status: u8,
    pub cycles: u64,
    pub memory: Memory,
}

impl View for CPU {
    type V = CpuState;

    open spec fn view(&self) -> CpuState {
        CpuState {
            acc: self.acc,
            x: self.x,
            y: self.y,
            sp: self.sp,
            pc: self.pc,
            status: self.status,
            cycles: self.cycles as nat,
            mem: self.memory@,
        }
    }
}

impl CPU {
    /// A processor attached to `memory`, every register zero; `reset` makes it valid.
    pub fn new(memory: Memory) -> (r: Self)
        ensures
            r@ == (CpuState { acc: 0, x: 0, y: 0, sp: 0, pc: 0, status: 0, cycles: 0, mem: memory@ }),
    {
        Self { acc: 0, x: 0, y: 0, sp: 0, pc: 0, status: 0, cycles: 0, memory }
    }

    /// Applies the RESET sequence.
    pub fn reset(&mut self)
        ensures
            final(self)@ == reset_state(old(self)@.mem),
    {
        self.acc = CPU_DEFAULT_ACC;
        self.x = CPU_DEFAULT_X;
        self.y = CPU_DEFAULT_Y;
        self.sp = CPU_DEFAULT_SP;
        let lo = self.memory.read(POWER_ON_RESET_ADDR_L);
        let hi = self.memory.read(POWER_ON_RESET_ADDR_H);
        self.pc = (hi as u16) * 256 + lo as u16;
        self.status = CPU_DEFAULT_STATUS;
        self.cycles = RESET_CYCLES;
    }
    /// Runs the instruction `opcode`, whose opcode byte has just been fetched.
    pub(crate) fn dispatch(&mut self, opcode: Opcode)
        requires
            old(self).cycles <= CYCLE_LIMIT + 1,
        ensures
            final(self)@ == old(self)@.execute(opcode),
    {
        proof {
            reveal(CpuState::execute);
        }
        match opcode {
            // JMP
            Opcode::JMPAbs => jmp_abs(self),
            Opcode::JMPInd => jmp_ind(self),

            // JSR
            Opcode::JSR => jsr(self),

            // LDA
            Opcode::LDAImm => lda_immediate(self),
            Opcode::LDAZpg => lda_zero_page(self),
            Opcode::LDAZpx => lda_zero_page_x(self),
            Opcode::LDAAbs => lda_absolute(self),
            Opcode::LDAAbx => lda_absolute_x(self),
            Opcode::LDAAby => lda_absolute_y(self),
            Opcode::LDAIdx => lda_indirect_x(self),
            Opcode::LDAIdy => lda_indirect_y(self),

            // LDX
            Opcode::LDXImm => ldx_immediate(self),
            Opcode::LDXZpg => ldx_zero_page(self),
            Opcode::LDXZpy => ldx_zero_page_y(self),
            Opcode::LDXAbs => ldx_absolute(self),
            Opcode::LDXAby => ldx_absolute_y(self),

            // LDY
            Opcode::LDYImm => ldy_immediate(self),
            Opcode::LDYZpg => ldy_zero_page(self),
            Opcode::LDYZpx => ldy_zero_page_x(self),
            Opcode::LDYAbs => ldy_absolute(self),
            Opcode::LDYAbx => ldy_absolute_x(self),

            // PHA
            Opcode::PHA => pha(self),

            // PHP
            Opcode::PHP => php(self),

            // PLA
            Opcode::PLA => pla(self),

            // PLP
            Opcode::PLP => plp(self),

            // RTS
            Opcode::RTS => rts(self),

            // STA
            Opcode::STAZpg => sta_zero_page(self),
            Opcode::STAZpx => sta_zero_page_x(self),
            Opcode::STAAbs => sta_absolute(self),
            Opcode::STAAbx => sta_absolute_x(self),
            Opcode::STAAby => sta_absolute_y(self),
            Opcode::STAIdx => sta_indirect_x(self),
            Opcode::STAIdy => sta_indirect_y(self),

            // STX
            Opcode::STXZpg => stx_zero_page(self),
            Opcode::STXZpy => stx_zero_page_y(self),
            Opcode::STXAbs => stx_absolute(self),

            // STY
            Opcode::STYZpg => sty_zero_page(self),
            Opcode::STYZpx => sty_zero_page_x(self),
            Opcode::STYAbs => sty_absolute(self),

            // TSX
            Opcode::TSX => tsx(self),

            // TXS
            Opcode::TXS => txs(self),
        }
    }

    /// Runs one instruction: fetches the opcode at `PC` (one cycle) and
    /// dispatches it. An undocumented opcode leaves the processor untouched
    /// and is reported; running again reports it again.
    pub fn execute_next_instruction(&mut self) -> (r: Result<(), InvalidOpcode>)
        requires
            old(self).cycles <= CYCLE_LIMIT,
        ensures
            match old(self)@.step() {
                Some(next) => r is Ok && final(self)@ == next,
                None => r == Err::<(), InvalidOpcode>(
                    InvalidOpcode { opcode: old(self)@.mem[old(self).pc as int], addr: old(self).pc },
                ) && final(self)@ == old(self)@,
            },
            final(self).cycles <= old(self).cycles + MAX_INSTRUCTION_CYCLES,
            r is Ok ==> ({
                let op = old(self)@.next_opcode().unwrap();
                &&& final(self)@.cycles == old(self)@.cycles + documented_cycles(old(self)@, op)
                &&& !sets_pc(op) ==> final(self).pc == wrap16(old(self).pc + op.length())
                &&& flag_register(op) is Some ==> {
                    let v = final(self)@.register(flag_register(op).unwrap());
                    &&& (final(self).status & CSF_ZERO != 0) == (v == 0)
                    &&& (final(self).status & CSF_NEGATIVE != 0) == is_negative(v)
                }
                &&& (old(self).status & CSF_UNUSED != 0 ==> final(self).status & CSF_UNUSED
                    != 0)
            }),
    {
        let opcode_byte = self.memory.read(self.pc);
        let opcode = match Opcode::decode(opcode_byte) {
            Some(opcode) => opcode,
            None => {
                return Err(InvalidOpcode { opcode: opcode_byte, addr: self.pc });
            },
        };
        let ghost start = self@;
        let fetched = self.fetch_byte();
        assert(fetched == opcode_byte);
        self.dispatch(opcode);
        proof {
            law_cycle_cost(start);
            law_pc_advance(start);
            law_zero_negative_flags(start);
            if start.status & CSF_UNUSED != 0 {
                lemma_step_keeps_unused_flag(start);
            }
        }
        Ok(())
    }

    /// Runs instruction after instruction until an undocumented opcode halts
    /// the processor or the cycle counter has no room for one more
    /// instruction. The state reached is the one that that many single steps
    /// reach.
    pub fn run(&mut self) -> (r: RunExit)
        ensures
            exists|n: nat| final(self)@ == #[trigger] old(self)@.after_steps(n),
            match r {
                RunExit::Halted(e) => final(self)@.step() is None && e == (InvalidOpcode {
                    opcode: final(self)@.mem[final(self).pc as int],
                    addr: final(self).pc,
                }),
                RunExit::CycleLimitReached => CYCLE_LIMIT < final(self).cycles && (final(self).cycles
                    <= CYCLE_LIMIT + MAX_INSTRUCTION_CYCLES || final(self)@ == old(self)@),
            },
    {
        let ghost start = self@;
        let ghost mut n: nat = 0;
        loop
            invariant
                start == old(self)@,
                self@ == start.after_steps(n),
                n == 0 || self.cycles <= CYCLE_LIMIT + MAX_INSTRUCTION_CYCLES,
            decreases u64::MAX - self.cycles,
        {
            if self.cycles > CYCLE_LIMIT {
                assert(self@ == start.after_steps(n));
                return RunExit::CycleLimitReached;
            }
            let ghost before = self@;
            match self.execute_next_instruction() {
                Ok(()) => {},
                Err(e) => {
                    assert(self@ == start.after_steps(n));
                    return RunExit::Halted(e);
                },
            }
            proof {
                reveal(CpuState::execute);
                assert(self.cycles > before.cycles);
                n = n + 1;
            }
        }
    }

    #[inline]
    fn increment_pc(&mut self)
        ensures
            final(self)@ == (CpuState { pc: wrap16(old(self).pc + 1), ..old(self)@ }),
    {
        self.pc = self.pc.wrapping_add(1);
    }

    /// Reads the byte at the program counter and advances it, in 1 cycle.
    pub(crate) fn fetch_byte(&mut self) -> (r: u8)
        requires
            old(self).cycles < u64::MAX,
        ensures
            r == old(self)@.operand(0),
            final(self)@ == (CpuState {
                pc: wrap16(old(self).pc + 1),
                cycles: old(self)@.cycles + 1,
                ..old(self)@
            }),
    {
        let byte = self.memory.read(self.pc);
        self.increment_pc();
        self.cycles = self.cycles + 1;
        byte
    }

    /// Reads the little-endian address at the program counter and advances
    /// past it, in 2 cycles.
    pub(crate) fn fetch_addr(&mut self) -> (r: u16)
        requires
            old(self).cycles < u64::MAX - 1,
        ensures
            r == old(self)@.operand_word(),
            final(self)@ == (CpuState {
                pc: wrap16(old(self).pc + 2),
                cycles: old(self)@.cycles + 2,
                ..old(self)@
            }),
    {
        let addr_l = self.fetch_byte();
        let addr_h = self.fetch_byte();
        (addr_h as u16) * 256 + addr_l as u16
    }

    /// Reads the byte at `addr`, in 1 cycle.
    pub(crate) fn read_byte(&mut self, addr: u16) -> (r: u8)
        requires
            old(self).cycles < u64::MAX,
        ensures
            r == old(self)@.mem[addr as int],
            final(self)@ == (CpuState { cycles: old(self)@.cycles + 1, ..old(self)@ }),
    {
        let byte = self.memory.read(addr);
        self.cycles = self.cycles + 1;
        byte
    }

    /// Reads an address whose low byte is at `low` and high byte at `high`,
    /// in 2 cycles.
    pub(crate) fn read_addr(&mut self, low: u16, high: u16) -> (r: u16)
        requires
            old(self).cycles < u64::MAX - 1,
        ensures
            r == word(old(self)@.mem[low as int], old(self)@.mem[high as int]),
            final(self)@ == (CpuState { cycles: old(self)@.cycles + 2, ..old(self)@ }),
    {
        let addr_l = self.read_byte(low);
        let addr_h = self.read_byte(high);
        (addr_h as u16) * 256 + addr_l as u16
    }

    /// Writes `byte` at `addr`, in 1 cycle.
    pub(crate) fn write_byte(&mut self, byte: u8, addr: u16)
        requires
            old(self).cycles < u64::MAX,
        ensures
            final(self)@ == (CpuState {
                mem: old(self)@.mem.update(addr as int, byte),
                cycles: old(self)@.cycles + 1,
                ..old(self)@
            }),
    {
        self.memory.write(byte, addr);
        self.cycles = self.cycles + 1;
    }

    /// The stack slot that `SP` designates.
    fn stack_addr(&self) -> (r: u16)
        ensures
            r == stack_address(self.sp),
            r == (0x0100u16 | self.sp as u16),
    {
        proof {
            lemma_stack_address(self.sp);
        }
        SYS_STACK_ADDR_END | self.sp as u16
    }

    /// Pushes `byte` and moves `SP` down, wrapping within the page, in 1 cycle.
    pub(crate) fn push_byte_to_stack(&mut self, byte: u8)
        requires
            old(self).cycles < u64::MAX,
        ensures
            final(self)@ == (CpuState { cycles: old(self)@.cycles + 1, ..old(self)@.pushed(byte) }),
            final(self)@.mem == old(self)@.mem.update((0x0100u16 | old(self).sp as u16) as int, byte),
            final(self).sp == old(self).sp.wrapping_sub(1),
    {
        let stack_addr = self.stack_addr();
        self.memory.write(byte, stack_addr);
        self.sp = self.sp.wrapping_sub(1);
        self.cycles = self.cycles + 1;
    }

    /// Pushes `addr`, high byte first, in 2 cycles.
    pub(crate) fn push_addr_to_stack(&mut self, addr: u16)
        requires
            old(self).cycles < u64::MAX - 1,
        ensures
            final(self)@ == (CpuState {
                cycles: old(self)@.cycles + 2,
                ..old(self)@.pushed((addr / 256) as u8).pushed((addr % 256) as u8)
            }),
    {
        let addr_h = (addr / 256) as u8;
        let addr_l = (addr % 256) as u8;
        self.push_byte_to_stack(addr_h);
        self.push_byte_to_stack(addr_l);
    }

    /// Moves `SP` up, wrapping within the page, and reads the byte there, in
    /// 2 cycles.
    pub(crate) fn pop_byte_from_stack(&mut self) -> (r: u8)
        requires
            old(self).cycles < u64::MAX - 1,
        ensures
            r == old(self)@.top(),
            r == old(self)@.mem[(0x0100u16 | final(self).sp as u16) as int],
            final(self).sp == old(self).sp.wrapping_add(1),
            final(self)@ == (CpuState {
                sp: wrap8(old(self).sp + 1),
                cycles: old(self)@.cycles + 2,
                ..old(self)@
            }),
    {
        self.sp = self.sp.wrapping_add(1);
        let stack_addr = self.stack_addr();
        let byte = self.memory.read(stack_addr);
        self.cycles = self.cycles + 2;
        byte
    }

    /// Pops an address, low byte first, in 4 cycles.
    pub(crate) fn pop_addr_from_stack(&mut self) -> (r: u16)
        requires
            old(self).cycles < u64::MAX - 3,
        ensures
            r == word(old(self)@.top(), (CpuState { sp: wrap8(old(self).sp + 1), ..old(self)@ }).top()),
            final(self)@ == (CpuState {
                sp: wrap8(old(self).sp + 2),
                cycles: old(self)@.cycles + 4,
                ..old(self)@
            }),
    {
        let addr_l = self.pop_byte_from_stack();
        let addr_h = self.pop_byte_from_stack();
        (addr_h as u16) * 256 + addr_l as u16
    }

    /// Bit 7 of `byte` is set.
    #[inline(always)]
    pub fn byte_is_negative_int(byte: u8) -> (r: bool)
        ensures
            r == is_negative(byte),
    {
        byte & 0x80 != 0
    }

    /// The two addresses lie on different pages: indexing from one to the
    /// other needs a second pass through the 8-bit adder.
    #[inline(always)]
    pub fn page_crossed(addr_a: u16, addr_b: u16) -> (r: bool)
        ensures
            r == page_crossed(addr_a, addr_b),
    {
        assert(((addr_a & 0xFF00) != (addr_b & 0xFF00)) == (addr_a / 256 != addr_b / 256))
            by (bit_vector);
        (addr_a & 0xFF00) != (addr_b & 0xFF00)
    }

    /// Clears `Z` and `N`, then sets them from `value`.
    pub(crate) fn update_zero_negative(&mut self, value: u8)
        ensures
            final(self)@ == (CpuState { status: with_zn(old(self).status, value), ..old(self)@ }),
    {
        self.status = self.status & !(CSF_ZERO | CSF_NEGATIVE);
        if value == 0 {
            self.status = self.status | CSF_ZERO;
        } else if CPU::byte_is_negative_int(value) {
            self.status = self.status | CSF_NEGATIVE;
        }
    }
}

} // verus!
