use vstd::prelude::*;

use crate::opcode::{AddressingMode, Opcode};

verus! {

/// Carry flag.
pub const CSF_CARRY: u8 = 0x01;

/// Zero flag.
pub const CSF_ZERO: u8 = 0x02;

/// Interrupt-disable flag.
pub const CSF_INTERRUPT_DISABLE: u8 = 0x04;

/// Decimal-mode flag.
pub const CSF_DECIMAL: u8 = 0x08;

/// Break flag; only ever set on the copy of `P` that `PHP` pushes.
pub const CSF_BREAK: u8 = 0x10;

/// Unused bit 5, wired to 1.
pub const CSF_UNUSED: u8 = 0x20;

/// Overflow flag.
pub const CSF_OVERFLOW: u8 = 0x40;

/// Negative flag.
pub const CSF_NEGATIVE: u8 = 0x80;

/// The architectural state of the processor together with its memory.
pub struct CpuState {
    pub acc: u8,
    pub x: u8,
    pub y: u8,
    pub sp: u8,
    pub pc: u16,
    pub status: u8,
    pub cycles: nat,
    pub mem: Seq<u8>,
}

/// A general register that an instruction loads.
pub enum Register {
    A,
    X,
    Y,
}

/// The state that RESET leaves over memory `mem`: registers cleared, `SP` at
/// the top of the stack, `PC` from the RESET vector, only bit 5 of `P` set and
/// seven cycles counted for the reset sequence.
pub open spec fn reset_state(mem: Seq<u8>) -> CpuState {
    CpuState {
        acc: 0,
        x: 0,
        y: 0,
        sp: 0xFF,
        pc: word(mem[0xFFFC], mem[0xFFFD]),
        status: CSF_UNUSED,
        cycles: 7,
        mem,
    }
}

/// Wraps an integer to a byte.
pub open spec fn wrap8(n: int) -> u8 {
    (n % 256) as u8
}

/// Wraps an integer to a 16-bit address.
pub open spec fn wrap16(n: int) -> u16 {
    (n % 65536) as u16
}

/// The little-endian 16-bit value made of `lo` and `hi`.
pub open spec fn word(lo: u8, hi: u8) -> u16 {
    (hi as int * 256 + lo as int) as u16
}

/// Address of the stack slot that `sp` designates, in page one.
pub open spec fn stack_address(sp: u8) -> u16 {
    (0x100 + sp as int) as u16
}

/// Bit 7 of the byte is set.
pub open spec fn is_negative(b: u8) -> bool {
    b & 0x80 != 0
}

/// The two addresses lie on different 256-byte pages.
pub open spec fn page_crossed(a: u16, b: u16) -> bool {
    a / 256 != b / 256
}

/// `status` with `Z` and `N` cleared and then set from `value`.
pub open spec fn with_zn(status: u8, value: u8) -> u8 {
    let cleared = status & !(CSF_ZERO | CSF_NEGATIVE);
    if value == 0 {
        cleared | CSF_ZERO
    } else if is_negative(value) {
        cleared | CSF_NEGATIVE
    } else {
        cleared
    }
}

/// What `PLP` makes of a byte pulled from the stack: `B` reads as 0, bit 5 as 1.
pub open spec fn pulled_status(byte: u8) -> u8 {
    (byte & !CSF_BREAK) | CSF_UNUSED
}

/// The copy of `P` that `PHP` pushes: `B` set.
pub open spec fn pushed_status(status: u8) -> u8 {
    status | CSF_BREAK
}

/// Operand bytes that follow the opcode in each addressing mode.
pub open spec fn operand_len(mode: AddressingMode) -> nat {
    match mode {
        AddressingMode::Absolute | AddressingMode::AbsoluteX | AddressingMode::AbsoluteY
        | AddressingMode::Indirect => 2,
        AddressingMode::Implied | AddressingMode::Accumulator => 0,
        _ => 1,
    }
}

/// Cycles a load spends after its opcode fetch, page penalty excluded.
pub open spec fn load_cycles(mode: AddressingMode) -> nat {
    match mode {
        AddressingMode::Immediate => 1,
        AddressingMode::ZeroPage => 2,
        AddressingMode::IndirectX => 5,
        AddressingMode::IndirectY => 4,
        _ => 3,
    }
}

/// Cycles a store spends after its opcode fetch; indexed stores always pay the dummy read.
pub open spec fn store_cycles(mode: AddressingMode) -> nat {
    match mode {
        AddressingMode::ZeroPage => 2,
        AddressingMode::ZeroPageX | AddressingMode::ZeroPageY | AddressingMode::Absolute => 3,
        AddressingMode::AbsoluteX | AddressingMode::AbsoluteY => 4,
        _ => 5,
    }
}

impl CpuState {
    /// The byte `k` places after the program counter.
    pub open spec fn operand(self, k: int) -> u8 {
        self.mem[wrap16(self.pc + k) as int]
    }

    /// The little-endian address stored in the two bytes at the program counter.
    pub open spec fn operand_word(self) -> u16 {
        word(self.operand(0), self.operand(1))
    }

    /// A pointer read from the zero page at `p`; its high byte wraps within the page.
    pub open spec fn zero_page_pointer(self, p: u8) -> u16 {
        word(self.mem[p as int], self.mem[wrap8(p + 1) as int])
    }

    /// Where `JMP (addr16)` reads the high byte of its target: a pointer at the
    /// end of a page takes it from the start of the same page.
    pub open spec fn indirect_high_address(ptr: u16) -> u16 {
        if ptr % 256 == 255 {
            (ptr - 255) as u16
        } else {
            (ptr + 1) as u16
        }
    }

    /// The address before indexing, for the indexed modes.
    pub open spec fn base_address(self, mode: AddressingMode) -> u16 {
        match mode {
            AddressingMode::IndirectY => self.zero_page_pointer(self.operand(0)),
            _ => self.operand_word(),
        }
    }

    /// The address that the instruction reads or writes, with the program
    /// counter at the first operand byte. For an immediate operand that is the
    /// operand byte itself.
    pub open spec fn effective_address(self, mode: AddressingMode) -> u16 {
        match mode {
            AddressingMode::ZeroPage => self.operand(0) as u16,
            AddressingMode::ZeroPageX => wrap8(self.operand(0) + self.x) as u16,
            AddressingMode::ZeroPageY => wrap8(self.operand(0) + self.y) as u16,
            AddressingMode::Absolute => self.operand_word(),
            AddressingMode::AbsoluteX => wrap16(self.operand_word() + self.x),
            AddressingMode::AbsoluteY => wrap16(self.operand_word() + self.y),
            AddressingMode::IndirectX => self.zero_page_pointer(wrap8(self.operand(0) + self.x)),
            AddressingMode::IndirectY => wrap16(
                self.zero_page_pointer(self.operand(0)) + self.y,
            ),
            AddressingMode::Indirect => {
                let ptr = self.operand_word();
                word(self.mem[ptr as int], self.mem[CpuState::indirect_high_address(ptr) as int])
            },
            _ => self.pc,
        }
    }

    /// One more cycle when a read indexes across a page boundary.
    pub open spec fn page_penalty(self, mode: AddressingMode) -> nat {
        match mode {
            AddressingMode::AbsoluteX | AddressingMode::AbsoluteY | AddressingMode::IndirectY => {
                if page_crossed(self.base_address(mode), self.effective_address(mode)) {
                    1
                } else {
                    0
                }
            },
            _ => 0,
        }
    }

    /// The value held in `r`.
    pub open spec fn register(self, r: Register) -> u8 {
        match r {
            Register::A => self.acc,
            Register::X => self.x,
            Register::Y => self.y,
        }
    }

    /// The state with `r` holding `v`.
    pub open spec fn set_register(self, r: Register, v: u8) -> CpuState {
        match r {
            Register::A => CpuState { acc: v, ..self },
            Register::X => CpuState { x: v, ..self },
            Register::Y => CpuState { y: v, ..self },
        }
    }

    /// The state after the opcode fetch: one byte and one cycle consumed.
    pub open spec fn fetched(self) -> CpuState {
        CpuState { pc: wrap16(self.pc + 1), cycles: self.cycles + 1, ..self }
    }

    /// The state after a push of `b`.
    pub open spec fn pushed(self, b: u8) -> CpuState {
        CpuState {
            mem: self.mem.update(stack_address(self.sp) as int, b),
            sp: wrap8(self.sp - 1),
            ..self
        }
    }

    /// The byte the next pull takes from the stack.
    pub open spec fn top(self) -> u8 {
        self.mem[stack_address(wrap8(self.sp + 1)) as int]
    }

    /// Loads `r` in `mode`; the program counter is at the first operand byte.
    pub open spec fn load(self, r: Register, mode: AddressingMode) -> CpuState {
        let v = self.mem[self.effective_address(mode) as int];
        CpuState {
            pc: wrap16(self.pc + operand_len(mode)),
            cycles: self.cycles + load_cycles(mode) + self.page_penalty(mode),
            status: with_zn(self.status, v),
            ..self
        }.set_register(r, v)
    }

    /// Stores `r` in `mode`; the program counter is at the first operand byte.
    pub open spec fn store(self, r: Register, mode: AddressingMode) -> CpuState {
        CpuState {
            pc: wrap16(self.pc + operand_len(mode)),
            cycles: self.cycles + store_cycles(mode),
            mem: self.mem.update(self.effective_address(mode) as int, self.register(r)),
            ..self
        }
    }

    /// `JMP addr16`: jumps to the operand address.
    pub open spec fn jmp_absolute(self) -> CpuState {
        CpuState { pc: self.operand_word(), cycles: self.cycles + 2, ..self }
    }

    /// `JMP (addr16)`: jumps to the address stored at the operand address.
    pub open spec fn jmp_indirect(self) -> CpuState {
        CpuState {
            pc: self.effective_address(AddressingMode::Indirect),
            cycles: self.cycles + 4,
            ..self
        }
    }

    /// `JSR addr16`: pushes the address of its own last byte, high byte
    /// first, and jumps.
    pub open spec fn jsr(self) -> CpuState {
        let ret = wrap16(self.pc + 1);
        let s = self.pushed((ret / 256) as u8).pushed((ret % 256) as u8);
        CpuState { pc: self.operand_word(), cycles: self.cycles + 5, ..s }
    }

    /// `RTS`: pulls an address, low byte first, and resumes one past it.
    pub open spec fn rts(self) -> CpuState {
        let lo = self.top();
        let hi = (CpuState { sp: wrap8(self.sp + 1), ..self }).top();
        CpuState {
            sp: wrap8(self.sp + 2),
            pc: wrap16(word(lo, hi) + 1),
            cycles: self.cycles + 5,
            ..self
        }
    }

    /// `PHA`: pushes `A`.
    pub open spec fn pha(self) -> CpuState {
        CpuState { cycles: self.cycles + 2, ..self.pushed(self.acc) }
    }

    /// `PHP`: pushes `P` with `B` set on the copy.
    pub open spec fn php(self) -> CpuState {
        CpuState { cycles: self.cycles + 2, ..self.pushed(pushed_status(self.status)) }
    }

    /// `PLA`: pulls `A`, setting `Z` and `N`.
    pub open spec fn pla(self) -> CpuState {
        let v = self.top();
        CpuState {
            acc: v,
            sp: wrap8(self.sp + 1),
            status: with_zn(self.status, v),
            cycles: self.cycles + 3,
            ..self
        }
    }

    /// `PLP`: pulls `P`; `B` reads 0 and bit 5 reads 1 afterwards.
    pub open spec fn plp(self) -> CpuState {
        CpuState {
            status: pulled_status(self.top()),
            sp: wrap8(self.sp + 1),
            cycles: self.cycles + 3,
            ..self
        }
    }

    /// `TSX`: copies `SP` into `X`, setting `Z` and `N`.
    pub open spec fn tsx(self) -> CpuState {
        CpuState {
            x: self.sp,
            status: with_zn(self.status, self.sp),
            cycles: self.cycles + 1,
            ..self
        }
    }

    /// `TXS`: copies `X` into `SP`; no flag changes.
    pub open spec fn txs(self) -> CpuState {
        CpuState { sp: self.x, cycles: self.cycles + 1, ..self }
    }

    /// Runs the instruction whose opcode has just been fetched.
    #[verifier::opaque]
    pub open spec fn execute(self, op: Opcode) -> CpuState {
        match op {
            Opcode::JMPAbs => self.jmp_absolute(),
            Opcode::JMPInd => self.jmp_indirect(),
            Opcode::JSR => self.jsr(),
            Opcode::RTS => self.rts(),
            Opcode::LDAImm | Opcode::LDAZpg | Opcode::LDAZpx | Opcode::LDAAbs | Opcode::LDAAbx
            | Opcode::LDAAby | Opcode::LDAIdx | Opcode::LDAIdy => self.load(Register::A, op.mode()),
            Opcode::LDXImm | Opcode::LDXZpg | Opcode::LDXZpy | Opcode::LDXAbs
            | Opcode::LDXAby => self.load(Register::X, op.mode()),
            Opcode::LDYImm | Opcode::LDYZpg | Opcode::LDYZpx | Opcode::LDYAbs
            | Opcode::LDYAbx => self.load(Register::Y, op.mode()),
            Opcode::PHA => self.pha(),
            Opcode::PHP => self.php(),
            Opcode::PLA => self.pla(),
            Opcode::PLP => self.plp(),
            Opcode::STAZpg | Opcode::STAZpx | Opcode::STAAbs | Opcode::STAAbx | Opcode::STAAby
            | Opcode::STAIdx | Opcode::STAIdy => self.store(Register::A, op.mode()),
            Opcode::STXZpg | Opcode::STXZpy | Opcode::STXAbs => self.store(Register::X, op.mode()),
            Opcode::STYZpg | Opcode::STYZpx | Opcode::STYAbs => self.store(Register::Y, op.mode()),
            Opcode::TSX => self.tsx(),
            Opcode::TXS => self.txs(),
        }
    }

    /// The opcode at the program counter, if it is a documented one.
    pub open spec fn next_opcode(self) -> Option<Opcode> {
        Opcode::spec_decode(self.mem[self.pc as int])
    }

    /// One instruction from the opcode at the program counter; `None` for an
    /// undocumented opcode.
    pub open spec fn step(self) -> Option<CpuState> {
        match self.next_opcode() {
            Some(op) => Some(self.fetched().execute(op)),
            None => None,
        }
    }

    /// The state after `n` instructions, or at the first undocumented opcode
    /// if one comes sooner.
    pub open spec fn after_steps(self, n: nat) -> CpuState
        decreases n,
    {
        if n == 0 {
            self
        } else {
            let s = self.after_steps((n - 1) as nat);
            match s.step() {
                Some(t) => t,
                None => s,
            }
        }
    }
}

/// The address of the stack slot is `$0100 | SP`, within page one.
pub proof fn lemma_stack_address(sp: u8)
    ensures
        stack_address(sp) == (0x0100u16 | sp as u16),
        0x0100 <= stack_address(sp) <= 0x01FF,
{
    assert((0x0100u16 | sp as u16) == 0x0100u16 + sp as u16) by (bit_vector);
}

} // verus!
