use vstd::prelude::*;

use crate::cpu::{CPU, CYCLE_LIMIT};
use crate::jumps::{jmp_abs, jmp_ind, jsr, rts};
use crate::load_ops::{
    lda_absolute, lda_absolute_x, lda_absolute_y, lda_immediate, lda_indirect_x, lda_indirect_y,
    lda_zero_page, lda_zero_page_x, ldx_absolute, ldx_absolute_y, ldx_immediate, ldx_zero_page,
    ldx_zero_page_y, ldy_absolute, ldy_absolute_x, ldy_immediate, ldy_zero_page, ldy_zero_page_x,
};
use crate::model::{
    CpuState, CSF_CARRY, CSF_DECIMAL, CSF_INTERRUPT_DISABLE, CSF_NEGATIVE, CSF_OVERFLOW, CSF_ZERO,
};
use crate::opcode::{AddressingMode, Opcode};

verus! {

/// The flags that an instruction may change: `Z` and `N` for the instructions
/// that write `A`, `X` or `Y`; every flag but `B` and bit 5 for `PLP`; none
/// for the others.
pub open spec fn spec_flags_affected(op: Opcode) -> u8 {
    match op {
        Opcode::LDAImm | Opcode::LDAZpg | Opcode::LDAZpx | Opcode::LDAAbs | Opcode::LDAAbx
        | Opcode::LDAAby | Opcode::LDAIdx | Opcode::LDAIdy | Opcode::LDXImm | Opcode::LDXZpg
        | Opcode::LDXZpy | Opcode::LDXAbs | Opcode::LDXAby | Opcode::LDYImm | Opcode::LDYZpg
        | Opcode::LDYZpx | Opcode::LDYAbs | Opcode::LDYAbx | Opcode::PLA | Opcode::TSX => CSF_ZERO
            | CSF_NEGATIVE,
        Opcode::PLP => CSF_NEGATIVE | CSF_OVERFLOW | CSF_DECIMAL | CSF_INTERRUPT_DISABLE | CSF_ZERO
            | CSF_CARRY,
        _ => 0,
    }
}

/// An instruction together with its addressing mode and documented attributes.
pub trait Instruction {
    /// The opcode that the instruction stands for.
    spec fn spec_opcode(&self) -> Opcode;

    /// Executes the instruction on `cpu`, whose opcode has just been fetched.
    fn execute(&self, cpu: &mut CPU)
        requires
            old(cpu).cycles <= CYCLE_LIMIT + 1,
        ensures
            final(cpu)@ == old(cpu)@.execute(self.spec_opcode()),
    ;

    /// Returns the addressing mode of the instruction.
    fn addressing_mode(&self) -> (r: AddressingMode)
        ensures
            r == self.spec_opcode().mode(),
    ;

    /// Returns the opcode of the instruction.
    fn opcode(&self) -> (r: u8)
        ensures
            r == self.spec_opcode().spec_byte(),
    ;

    /// Returns the amount of cycles consumed by the instruction, page
    /// penalty excluded.
    fn cycles(&self) -> (r: u8)
        ensures
            r == self.spec_opcode().base_cycles(),
    ;

    /// Returns the amount of bytes consumed by the instruction.
    fn bytes(&self) -> (r: u8)
        ensures
            r == self.spec_opcode().length(),
    ;

    /// Returns the flags affected by the instruction: a set bit marks an
    /// affected flag.
    fn flags_affected(&self) -> (r: u8)
        ensures
            r == spec_flags_affected(self.spec_opcode()),
    ;
}

/// Sets the program counter to the address specified by the operand.
///
/// Addressing modes: Absolute, Indirect.
pub struct JMP {
    addr_mode: AddressingMode,
    opcode: u8,
    bytes: u8,
    cycles: u8,
}

impl JMP {
    /// The opcode of `JMP` in `mode`, if `JMP` has that mode.
    pub open spec fn opcode_for(mode: AddressingMode) -> Option<Opcode> {
        match mode {
            AddressingMode::Absolute => Some(Opcode::JMPAbs),
            AddressingMode::Indirect => Some(Opcode::JMPInd),
            _ => None,
        }
    }

    #[verifier::type_invariant]
    spec fn well_formed(self) -> bool {
        let op = Opcode::spec_decode(self.opcode);
        &&& (op == Some(Opcode::JMPAbs) || op == Some(Opcode::JMPInd))
        &&& self.addr_mode == op.unwrap().mode()
        &&& self.bytes == op.unwrap().length()
        &&& self.cycles == op.unwrap().base_cycles()
    }

    /// Constructs a new `JMP` instruction in `addr_mode`, one of its modes.
    pub fn new(addr_mode: AddressingMode) -> (r: Self)
        requires
            JMP::opcode_for(addr_mode) is Some,
        ensures
            r.spec_opcode() == JMP::opcode_for(addr_mode).unwrap(),
    {
        match addr_mode {
            AddressingMode::Absolute => Self {
                addr_mode,
                opcode: u8::from(Opcode::JMPAbs),
                bytes: 3,
                cycles: 3,
            },
            AddressingMode::Indirect => Self {
                addr_mode,
                opcode: u8::from(Opcode::JMPInd),
                bytes: 3,
                cycles: 5,
            },
            _ => {
                proof {
                    assert(false);
                }
                Self {
                    addr_mode,
                    opcode: u8::from(Opcode::JMPAbs),
                    bytes: 3,
                    cycles: 3,
                }
            },
        }
    }
}

impl Instruction for JMP {
    closed spec fn spec_opcode(&self) -> Opcode {
        Opcode::spec_decode(self.opcode).unwrap()
    }

    fn execute(&self, cpu: &mut CPU) {
        proof {
            use_type_invariant(self);
            reveal(CpuState::execute);
        }
        match self.addr_mode {
            AddressingMode::Absolute => jmp_abs(cpu),
            AddressingMode::Indirect => jmp_ind(cpu),
            _ => {},
        }
    }

    fn addressing_mode(&self) -> (r: AddressingMode) {
        proof {
            use_type_invariant(self);
        }
        self.addr_mode
    }

    fn opcode(&self) -> (r: u8) {
        proof {
            use_type_invariant(self);
        }
        self.opcode
    }

    fn cycles(&self) -> (r: u8) {
        proof {
            use_type_invariant(self);
        }
        self.cycles
    }

    fn bytes(&self) -> (r: u8) {
        proof {
            use_type_invariant(self);
        }
        self.bytes
    }

    fn flags_affected(&self) -> (r: u8) {
        proof {
            use_type_invariant(self);
        }
        0
    }
}

/// Pushes the address (minus one) of the return point on to the stack and then
/// sets the program counter to the target memory address.
pub struct JSR {
    addr_mode: AddressingMode,
    opcode: u8,
    bytes: u8,
    cycles: u8,
}

impl JSR {
    #[verifier::type_invariant]
    spec fn well_formed(self) -> bool {
        let op = Opcode::spec_decode(self.opcode);
        &&& op == Some(Opcode::JSR)
        &&& self.addr_mode == op.unwrap().mode()
        &&& self.bytes == op.unwrap().length()
        &&& self.cycles == op.unwrap().base_cycles()
    }

    /// Constructs a new `JSR` instruction.
    pub fn new() -> (r: Self)
        ensures
            r.spec_opcode() == Opcode::JSR,
    {
        Self {
            addr_mode: AddressingMode::Absolute,
            opcode: u8::from(Opcode::JSR),
            bytes: 3,
            cycles: 6,
        }
    }
}

impl Instruction for JSR {
    closed spec fn spec_opcode(&self) -> Opcode {
        Opcode::spec_decode(self.opcode).unwrap()
    }

    fn execute(&self, cpu: &mut CPU) {
        proof {
            use_type_invariant(self);
            reveal(CpuState::execute);
        }
        jsr(cpu);
    }

    fn addressing_mode(&self) -> (r: AddressingMode) {
        proof {
            use_type_invariant(self);
        }
        self.addr_mode
    }

    fn opcode(&self) -> (r: u8) {
        proof {
            use_type_invariant(self);
        }
        self.opcode
    }

    fn cycles(&self) -> (r: u8) {
        proof {
            use_type_invariant(self);
        }
        self.cycles
    }

    fn bytes(&self) -> (r: u8) {
        proof {
            use_type_invariant(self);
        }
        self.bytes
    }

    fn flags_affected(&self) -> (r: u8) {
        proof {
            use_type_invariant(self);
        }
        0
    }
}

/// Used at the end of a subroutine to return to the calling routine. It pulls
/// the program counter (minus one) from the stack.
pub struct RTS {
    addr_mode: AddressingMode,
    opcode: u8,
    bytes: u8,
    cycles: u8,
}

impl RTS {
    #[verifier::type_invariant]
    spec fn well_formed(self) -> bool {
        let op = Opcode::spec_decode(self.opcode);
        &&& op == Some(Opcode::RTS)
        &&& self.addr_mode == op.unwrap().mode()
        &&& self.bytes == op.unwrap().length()
        &&& self.cycles == op.unwrap().base_cycles()
    }

    /// Constructs a new `RTS` instruction.
    pub fn new() -> (r: Self)
        ensures
            r.spec_opcode() == Opcode::RTS,
    {
        Self {
            addr_mode: AddressingMode::Implied,
            opcode: u8::from(Opcode::RTS),
            bytes: 1,
            cycles: 6,
        }
    }
}

impl Instruction for RTS {
    closed spec fn spec_opcode(&self) -> Opcode {
        Opcode::spec_decode(self.opcode).unwrap()
    }

    fn execute(&self, cpu: &mut CPU) {
        proof {
            use_type_invariant(self);
            reveal(CpuState::execute);
        }
        rts(cpu);
    }

    fn addressing_mode(&self) -> (r: AddressingMode) {
        proof {
            use_type_invariant(self);
        }
        self.addr_mode
    }

    fn opcode(&self) -> (r: u8) {
        proof {
            use_type_invariant(self);
        }
        self.opcode
    }

    fn cycles(&self) -> (r: u8) {
        proof {
            use_type_invariant(self);
        }
        self.cycles
    }

    fn bytes(&self) -> (r: u8) {
        proof {
            use_type_invariant(self);
        }
        self.bytes
    }

    fn flags_affected(&self) -> (r: u8) {
        proof {
            use_type_invariant(self);
        }
        0
    }
}

/// Loads a byte of memory into the accumulator setting the zero and negative
/// flags as appropriate.
///
/// Addressing modes: Immediate, Zero Page, Zero Page,X, Absolute, Absolute,X,
/// Absolute,Y, (Indirect,X), (Indirect),Y.
pub struct LDA {
    addr_mode: AddressingMode,
    opcode: u8,
    bytes: u8,
    cycles: u8,
}

impl LDA {
    /// The opcode of `LDA` in `mode`, if `LDA` has that mode.
    pub open spec fn opcode_for(mode: AddressingMode) -> Option<Opcode> {
        match mode {
            AddressingMode::Immediate => Some(Opcode::LDAImm),
            AddressingMode::ZeroPage => Some(Opcode::LDAZpg),
            AddressingMode::ZeroPageX => Some(Opcode::LDAZpx),
            AddressingMode::Absolute => Some(Opcode::LDAAbs),
            AddressingMode::AbsoluteX => Some(Opcode::LDAAbx),
            AddressingMode::AbsoluteY => Some(Opcode::LDAAby),
            AddressingMode::IndirectX => Some(Opcode::LDAIdx),
            AddressingMode::IndirectY => Some(Opcode::LDAIdy),
            _ => None,
        }
    }

    #[verifier::type_invariant]
    spec fn well_formed(self) -> bool {
        let op = Opcode::spec_decode(self.opcode);
        &&& (op == Some(Opcode::LDAImm) || op == Some(Opcode::LDAZpg) || op == Some(Opcode::LDAZpx) || op == Some(Opcode::LDAAbs) || op == Some(Opcode::LDAAbx) || op == Some(Opcode::LDAAby) || op == Some(Opcode::LDAIdx) || op == Some(Opcode::LDAIdy))
        &&& self.addr_mode == op.unwrap().mode()
        &&& self.bytes == op.unwrap().length()
        &&& self.cycles == op.unwrap().base_cycles()
    }

    /// Constructs a new `LDA` instruction in `addr_mode`, one of its modes.
    pub fn new(addr_mode: AddressingMode) -> (r: Self)
        requires
            LDA::opcode_for(addr_mode) is Some,
        ensures
            r.spec_opcode() == LDA::opcode_for(addr_mode).unwrap(),
    {
        match addr_mode {
            AddressingMode::Immediate => Self {
                addr_mode,
                opcode: u8::from(Opcode::LDAImm),
                bytes: 2,
                cycles: 2,
            },
            AddressingMode::ZeroPage => Self {
                addr_mode,
                opcode: u8::from(Opcode::LDAZpg),
                bytes: 2,
                cycles: 3,
            },
            AddressingMode::ZeroPageX => Self {
                addr_mode,
                opcode: u8::from(Opcode::LDAZpx),
                bytes: 2,
                cycles: 4,
            },
            AddressingMode::Absolute => Self {
                addr_mode,
                opcode: u8::from(Opcode::LDAAbs),
                bytes: 3,
                cycles: 4,
            },
            AddressingMode::AbsoluteX => Self {
                addr_mode,
                opcode: u8::from(Opcode::LDAAbx),
                bytes: 3,
                cycles: 4,
            },
            AddressingMode::AbsoluteY => Self {
                addr_mode,
                opcode: u8::from(Opcode::LDAAby),
                bytes: 3,
                cycles: 4,
            },
            AddressingMode::IndirectX => Self {
                addr_mode,
                opcode: u8::from(Opcode::LDAIdx),
                bytes: 2,
                cycles: 6,
            },
            AddressingMode::IndirectY => Self {
                addr_mode,
                opcode: u8::from(Opcode::LDAIdy),
                bytes: 2,
                cycles: 5,
            },
            _ => {
                proof {
                    assert(false);
                }
                Self {
                    addr_mode,
                    opcode: u8::from(Opcode::LDAImm),
                    bytes: 2,
                    cycles: 2,
                }
            },
        }
    }
}

impl Instruction for LDA {
    closed spec fn spec_opcode(&self) -> Opcode {
        Opcode::spec_decode(self.opcode).unwrap()
    }

    fn execute(&self, cpu: &mut CPU) {
        proof {
            use_type_invariant(self);
            reveal(CpuState::execute);
        }
        match self.addr_mode {
            AddressingMode::Immediate => lda_immediate(cpu),
            AddressingMode::ZeroPage => lda_zero_page(cpu),
            AddressingMode::ZeroPageX => lda_zero_page_x(cpu),
            AddressingMode::Absolute => lda_absolute(cpu),
            AddressingMode::AbsoluteX => lda_absolute_x(cpu),
            AddressingMode::AbsoluteY => lda_absolute_y(cpu),
            AddressingMode::IndirectX => lda_indirect_x(cpu),
            AddressingMode::IndirectY => lda_indirect_y(cpu),
            _ => {},
        }
    }

    fn addressing_mode(&self) -> (r: AddressingMode) {
        proof {
            use_type_invariant(self);
        }
        self.addr_mode
    }

    fn opcode(&self) -> (r: u8) {
        proof {
            use_type_invariant(self);
        }
        self.opcode
    }

    fn cycles(&self) -> (r: u8) {
        proof {
            use_type_invariant(self);
        }
        self.cycles
    }

    fn bytes(&self) -> (r: u8) {
        proof {
            use_type_invariant(self);
        }
        self.bytes
    }

    fn flags_affected(&self) -> (r: u8) {
        proof {
            use_type_invariant(self);
        }
        CSF_ZERO | CSF_NEGATIVE
    }
}

/// Loads a byte of memory into the X register setting the zero and negative
/// flags as appropriate.
///
/// Addressing modes: Immediate, Zero Page, Zero Page,Y, Absolute, Absolute,Y.
pub struct LDX {
    addr_mode: AddressingMode,
    opcode: u8,
    bytes: u8,
    cycles: u8,
}

impl LDX {
    /// The opcode of `LDX` in `mode`, if `LDX` has that mode.
    pub open spec fn opcode_for(mode: AddressingMode) -> Option<Opcode> {
        match mode {
            AddressingMode::Immediate => Some(Opcode::LDXImm),
            AddressingMode::ZeroPage => Some(Opcode::LDXZpg),
            AddressingMode::ZeroPageY => Some(Opcode::LDXZpy),
            AddressingMode::Absolute => Some(Opcode::LDXAbs),
            AddressingMode::AbsoluteY => Some(Opcode::LDXAby),
            _ => None,
        }
    }

    #[verifier::type_invariant]
    spec fn well_formed(self) -> bool {
        let op = Opcode::spec_decode(self.opcode);
        &&& (op == Some(Opcode::LDXImm) || op == Some(Opcode::LDXZpg) || op == Some(Opcode::LDXZpy) || op == Some(Opcode::LDXAbs) || op == Some(Opcode::LDXAby))
        &&& self.addr_mode == op.unwrap().mode()
        &&& self.bytes == op.unwrap().length()
        &&& self.cycles == op.unwrap().base_cycles()
    }

    /// Constructs a new `LDX` instruction in `addr_mode`, one of its modes.
    pub fn new(addr_mode: AddressingMode) -> (r: Self)
        requires
            LDX::opcode_for(addr_mode) is Some,
        ensures
            r.spec_opcode() == LDX::opcode_for(addr_mode).unwrap(),
    {
        match addr_mode {
            AddressingMode::Immediate => Self {
                addr_mode,
                opcode: u8::from(Opcode::LDXImm),
                bytes: 2,
                cycles: 2,
            },
            AddressingMode::ZeroPage => Self {
                addr_mode,
                opcode: u8::from(Opcode::LDXZpg),
                bytes: 2,
                cycles: 3,
            },
            AddressingMode::ZeroPageY => Self {
                addr_mode,
                opcode: u8::from(Opcode::LDXZpy),
                bytes: 2,
                cycles: 4,
            },
            AddressingMode::Absolute => Self {
                addr_mode,
                opcode: u8::from(Opcode::LDXAbs),
                bytes: 3,
                cycles: 4,
            },
            AddressingMode::AbsoluteY => Self {
                addr_mode,
                opcode: u8::from(Opcode::LDXAby),
                bytes: 3,
                cycles: 4,
            },
            _ => {
                proof {
                    assert(false);
                }
                Self {
                    addr_mode,
                    opcode: u8::from(Opcode::LDXImm),
                    bytes: 2,
                    cycles: 2,
                }
            },
        }
    }
}

impl Instruction for LDX {
    closed spec fn spec_opcode(&self) -> Opcode {
        Opcode::spec_decode(self.opcode).unwrap()
    }

    fn execute(&self, cpu: &mut CPU) {
        proof {
            use_type_invariant(self);
            reveal(CpuState::execute);
        }
        match self.addr_mode {
            AddressingMode::Immediate => ldx_immediate(cpu),
            AddressingMode::ZeroPage => ldx_zero_page(cpu),
            AddressingMode::ZeroPageY => ldx_zero_page_y(cpu),
            AddressingMode::Absolute => ldx_absolute(cpu),
            AddressingMode::AbsoluteY => ldx_absolute_y(cpu),
            _ => {},
        }
    }

    fn addressing_mode(&self) -> (r: AddressingMode) {
        proof {
            use_type_invariant(self);
        }
        self.addr_mode
    }

    fn opcode(&self) -> (r: u8) {
        proof {
            use_type_invariant(self);
        }
        self.opcode
    }

    fn cycles(&self) -> (r: u8) {
        proof {
            use_type_invariant(self);
        }
        self.cycles
    }

    fn bytes(&self) -> (r: u8) {
        proof {
            use_type_invariant(self);
        }
        self.bytes
    }

    fn flags_affected(&self) -> (r: u8) {
        proof {
            use_type_invariant(self);
        }
        CSF_ZERO | CSF_NEGATIVE
    }
}

/// Loads a byte of memory into the Y register setting the zero and negative
/// flags as appropriate.
///
/// Addressing modes: Immediate, Zero Page, Zero Page,X, Absolute, Absolute,X.
pub struct LDY {
    addr_mode: AddressingMode,
    opcode: u8,
    bytes: u8,
    cycles: u8,
}

impl LDY {
    /// The opcode of `LDY` in `mode`, if `LDY` has that mode.
    pub open spec fn opcode_for(mode: AddressingMode) -> Option<Opcode> {
        match mode {
            AddressingMode::Immediate => Some(Opcode::LDYImm),
            AddressingMode::ZeroPage => Some(Opcode::LDYZpg),
            AddressingMode::ZeroPageX => Some(Opcode::LDYZpx),
            AddressingMode::Absolute => Some(Opcode::LDYAbs),
            AddressingMode::AbsoluteX => Some(Opcode::LDYAbx),
            _ => None,
        }
    }

    #[verifier::type_invariant]
    spec fn well_formed(self) -> bool {
        let op = Opcode::spec_decode(self.opcode);
        &&& (op == Some(Opcode::LDYImm) || op == Some(Opcode::LDYZpg) || op == Some(Opcode::LDYZpx) || op == Some(Opcode::LDYAbs) || op == Some(Opcode::LDYAbx))
        &&& self.addr_mode == op.unwrap().mode()
        &&& self.bytes == op.unwrap().length()
        &&& self.cycles == op.unwrap().base_cycles()
    }

    /// Constructs a new `LDY` instruction in `addr_mode`, one of its modes.
    pub fn new(addr_mode: AddressingMode) -> (r: Self)
        requires
            LDY::opcode_for(addr_mode) is Some,
        ensures
            r.spec_opcode() == LDY::opcode_for(addr_mode).unwrap(),
    {
        match addr_mode {
            AddressingMode::Immediate => Self {
                addr_mode,
                opcode: u8::from(Opcode::LDYImm),
                bytes: 2,
                cycles: 2,
            },
            AddressingMode::ZeroPage => Self {
                addr_mode,
                opcode: u8::from(Opcode::LDYZpg),
                bytes: 2,
                cycles: 3,
            },
            AddressingMode::ZeroPageX => Self {
                addr_mode,
                opcode: u8::from(Opcode::LDYZpx),
                bytes: 2,
                cycles: 4,
            },
            AddressingMode::Absolute => Self {
                addr_mode,
                opcode: u8::from(Opcode::LDYAbs),
                bytes: 3,
                cycles: 4,
            },
            AddressingMode::AbsoluteX => Self {
                addr_mode,
                opcode: u8::from(Opcode::LDYAbx),
                bytes: 3,
                cycles: 4,
            },
            _ => {
                proof {
                    assert(false);
                }
                Self {
                    addr_mode,
                    opcode: u8::from(Opcode::LDYImm),
                    bytes: 2,
                    cycles: 2,
                }
            },
        }
    }
}

impl Instruction for LDY {
    closed spec fn spec_opcode(&self) -> Opcode {
        Opcode::spec_decode(self.opcode).unwrap()
    }

    fn execute(&self, cpu: &mut CPU) {
        proof {
            use_type_invariant(self);
            reveal(CpuState::execute);
        }
        match self.addr_mode {
            AddressingMode::Immediate => ldy_immediate(cpu),
            AddressingMode::ZeroPage => ldy_zero_page(cpu),
            AddressingMode::ZeroPageX => ldy_zero_page_x(cpu),
            AddressingMode::Absolute => ldy_absolute(cpu),
            AddressingMode::AbsoluteX => ldy_absolute_x(cpu),
            _ => {},
        }
    }

    fn addressing_mode(&self) -> (r: AddressingMode) {
        proof {
            use_type_invariant(self);
        }
        self.addr_mode
    }

    fn opcode(&self) -> (r: u8) {
        proof {
            use_type_invariant(self);
        }
        self.opcode
    }

    fn cycles(&self) -> (r: u8) {
        proof {
            use_type_invariant(self);
        }
        self.cycles
    }

    fn bytes(&self) -> (r: u8) {
        proof {
            use_type_invariant(self);
        }
        self.bytes
    }

    fn flags_affected(&self) -> (r: u8) {
        proof {
            use_type_invariant(self);
        }
        CSF_ZERO | CSF_NEGATIVE
    }
}

/// Every documented opcode is an instruction of its own.
impl Instruction for Opcode {
    open spec fn spec_opcode(&self) -> Opcode {
        *self
    }

    fn execute(&self, cpu: &mut CPU) {
        cpu.dispatch(*self);
    }

    fn addressing_mode(&self) -> (r: AddressingMode) {
        match self {
            Opcode::JMPAbs => AddressingMode::Absolute,
            Opcode::JMPInd => AddressingMode::Indirect,
            Opcode::JSR => AddressingMode::Absolute,
            Opcode::LDAImm => AddressingMode::Immediate,
            Opcode::LDAZpg => AddressingMode::ZeroPage,
            Opcode::LDAZpx => AddressingMode::ZeroPageX,
            Opcode::LDAAbs => AddressingMode::Absolute,
            Opcode::LDAAbx => AddressingMode::AbsoluteX,
            Opcode::LDAAby => AddressingMode::AbsoluteY,
            Opcode::LDAIdx => AddressingMode::IndirectX,
            Opcode::LDAIdy => AddressingMode::IndirectY,
            Opcode::LDXImm => AddressingMode::Immediate,
            Opcode::LDXZpg => AddressingMode::ZeroPage,
            Opcode::LDXZpy => AddressingMode::ZeroPageY,
            Opcode::LDXAbs => AddressingMode::Absolute,
            Opcode::LDXAby => AddressingMode::AbsoluteY,
            Opcode::LDYImm => AddressingMode::Immediate,
            Opcode::LDYZpg => AddressingMode::ZeroPage,
            Opcode::LDYZpx => AddressingMode::ZeroPageX,
            Opcode::LDYAbs => AddressingMode::Absolute,
            Opcode::LDYAbx => AddressingMode::AbsoluteX,
            Opcode::PHA => AddressingMode::Implied,
            Opcode::PHP => AddressingMode::Implied,
            Opcode::PLA => AddressingMode::Implied,
            Opcode::PLP => AddressingMode::Implied,
            Opcode::RTS => AddressingMode::Implied,
            Opcode::STAZpg => AddressingMode::ZeroPage,
            Opcode::STAZpx => AddressingMode::ZeroPageX,
            Opcode::STAAbs => AddressingMode::Absolute,
            Opcode::STAAbx => AddressingMode::AbsoluteX,
            Opcode::STAAby => AddressingMode::AbsoluteY,
            Opcode::STAIdx => AddressingMode::IndirectX,
            Opcode::STAIdy => AddressingMode::IndirectY,
            Opcode::STXZpg => AddressingMode::ZeroPage,
            Opcode::STXZpy => AddressingMode::ZeroPageY,
            Opcode::STXAbs => AddressingMode::Absolute,
            Opcode::STYZpg => AddressingMode::ZeroPage,
            Opcode::STYZpx => AddressingMode::ZeroPageX,
            Opcode::STYAbs => AddressingMode::Absolute,
            Opcode::TSX => AddressingMode::Implied,
            Opcode::TXS => AddressingMode::Implied,
        }
    }

    fn opcode(&self) -> (r: u8) {
        u8::from(*self)
    }

    fn cycles(&self) -> (r: u8) {
        match self {
            Opcode::JMPAbs => 3,
            Opcode::JMPInd => 5,
            Opcode::JSR => 6,
            Opcode::LDAImm => 2,
            Opcode::LDAZpg => 3,
            Opcode::LDAZpx => 4,
            Opcode::LDAAbs => 4,
            Opcode::LDAAbx => 4,
            Opcode::LDAAby => 4,
            Opcode::LDAIdx => 6,
            Opcode::LDAIdy => 5,
            Opcode::LDXImm => 2,
            Opcode::LDXZpg => 3,
            Opcode::LDXZpy => 4,
            Opcode::LDXAbs => 4,
            Opcode::LDXAby => 4,
            Opcode::LDYImm => 2,
            Opcode::LDYZpg => 3,
            Opcode::LDYZpx => 4,
            Opcode::LDYAbs => 4,
            Opcode::LDYAbx => 4,
            Opcode::PHA => 3,
            Opcode::PHP => 3,
            Opcode::PLA => 4,
            Opcode::PLP => 4,
            Opcode::RTS => 6,
            Opcode::STAZpg => 3,
            Opcode::STAZpx => 4,
            Opcode::STAAbs => 4,
            Opcode::STAAbx => 5,
            Opcode::STAAby => 5,
            Opcode::STAIdx => 6,
            Opcode::STAIdy => 6,
            Opcode::STXZpg => 3,
            Opcode::STXZpy => 4,
            Opcode::STXAbs => 4,
            Opcode::STYZpg => 3,
            Opcode::STYZpx => 4,
            Opcode::STYAbs => 4,
            Opcode::TSX => 2,
            Opcode::TXS => 2,
        }
    }

    fn bytes(&self) -> (r: u8) {
        match self {
            Opcode::JMPAbs => 3,
            Opcode::JMPInd => 3,
            Opcode::JSR => 3,
            Opcode::LDAImm => 2,
            Opcode::LDAZpg => 2,
            Opcode::LDAZpx => 2,
            Opcode::LDAAbs => 3,
            Opcode::LDAAbx => 3,
            Opcode::LDAAby => 3,
            Opcode::LDAIdx => 2,
            Opcode::LDAIdy => 2,
            Opcode::LDXImm => 2,
            Opcode::LDXZpg => 2,
            Opcode::LDXZpy => 2,
            Opcode::LDXAbs => 3,
            Opcode::LDXAby => 3,
            Opcode::LDYImm => 2,
            Opcode::LDYZpg => 2,
            Opcode::LDYZpx => 2,
            Opcode::LDYAbs => 3,
            Opcode::LDYAbx => 3,
            Opcode::PHA => 1,
            Opcode::PHP => 1,
            Opcode::PLA => 1,
            Opcode::PLP => 1,
            Opcode::RTS => 1,
            Opcode::STAZpg => 2,
            Opcode::STAZpx => 2,
            Opcode::STAAbs => 3,
            Opcode::STAAbx => 3,
            Opcode::STAAby => 3,
            Opcode::STAIdx => 2,
            Opcode::STAIdy => 2,
            Opcode::STXZpg => 2,
            Opcode::STXZpy => 2,
            Opcode::STXAbs => 3,
            Opcode::STYZpg => 2,
            Opcode::STYZpx => 2,
            Opcode::STYAbs => 3,
            Opcode::TSX => 1,
            Opcode::TXS => 1,
        }
    }

    fn flags_affected(&self) -> (r: u8) {
        match self {
            Opcode::LDAImm
            | Opcode::LDAZpg
            | Opcode::LDAZpx
            | Opcode::LDAAbs
            | Opcode::LDAAbx
            | Opcode::LDAAby
            | Opcode::LDAIdx
            | Opcode::LDAIdy
            | Opcode::LDXImm
            | Opcode::LDXZpg
            | Opcode::LDXZpy
            | Opcode::LDXAbs
            | Opcode::LDXAby
            | Opcode::LDYImm
            | Opcode::LDYZpg
            | Opcode::LDYZpx
            | Opcode::LDYAbs
            | Opcode::LDYAbx
            | Opcode::PLA
            | Opcode::TSX => CSF_ZERO | CSF_NEGATIVE,
            Opcode::PLP => CSF_NEGATIVE | CSF_OVERFLOW | CSF_DECIMAL | CSF_INTERRUPT_DISABLE | CSF_ZERO
                | CSF_CARRY,
            _ => 0,
        }
    }
}

/// An instruction that the decoder hands out: a jump or a load as its own
/// instruction type, any other documented opcode as itself.
pub enum DecodedInstruction {
    Jmp(JMP),
    Jsr(JSR),
    Rts(RTS),
    Lda(LDA),
    Ldx(LDX),
    Ldy(LDY),
    Other(Opcode),
}

impl Instruction for DecodedInstruction {
    open spec fn spec_opcode(&self) -> Opcode {
        match self {
            DecodedInstruction::Jmp(i) => i.spec_opcode(),
            DecodedInstruction::Jsr(i) => i.spec_opcode(),
            DecodedInstruction::Rts(i) => i.spec_opcode(),
            DecodedInstruction::Lda(i) => i.spec_opcode(),
            DecodedInstruction::Ldx(i) => i.spec_opcode(),
            DecodedInstruction::Ldy(i) => i.spec_opcode(),
            DecodedInstruction::Other(op) => *op,
        }
    }

    fn execute(&self, cpu: &mut CPU) {
        match self {
            DecodedInstruction::Jmp(i) => i.execute(cpu),
            DecodedInstruction::Jsr(i) => i.execute(cpu),
            DecodedInstruction::Rts(i) => i.execute(cpu),
            DecodedInstruction::Lda(i) => i.execute(cpu),
            DecodedInstruction::Ldx(i) => i.execute(cpu),
            DecodedInstruction::Ldy(i) => i.execute(cpu),
            DecodedInstruction::Other(op) => op.execute(cpu),
        }
    }

    fn addressing_mode(&self) -> (r: AddressingMode) {
        match self {
            DecodedInstruction::Jmp(i) => i.addressing_mode(),
            DecodedInstruction::Jsr(i) => i.addressing_mode(),
            DecodedInstruction::Rts(i) => i.addressing_mode(),
            DecodedInstruction::Lda(i) => i.addressing_mode(),
            DecodedInstruction::Ldx(i) => i.addressing_mode(),
            DecodedInstruction::Ldy(i) => i.addressing_mode(),
            DecodedInstruction::Other(op) => op.addressing_mode(),
        }
    }

    fn opcode(&self) -> (r: u8) {
        match self {
            DecodedInstruction::Jmp(i) => i.opcode(),
            DecodedInstruction::Jsr(i) => i.opcode(),
            DecodedInstruction::Rts(i) => i.opcode(),
            DecodedInstruction::Lda(i) => i.opcode(),
            DecodedInstruction::Ldx(i) => i.opcode(),
            DecodedInstruction::Ldy(i) => i.opcode(),
            DecodedInstruction::Other(op) => op.opcode(),
        }
    }

    fn cycles(&self) -> (r: u8) {
        match self {
            DecodedInstruction::Jmp(i) => i.cycles(),
            DecodedInstruction::Jsr(i) => i.cycles(),
            DecodedInstruction::Rts(i) => i.cycles(),
            DecodedInstruction::Lda(i) => i.cycles(),
            DecodedInstruction::Ldx(i) => i.cycles(),
            DecodedInstruction::Ldy(i) => i.cycles(),
            DecodedInstruction::Other(op) => op.cycles(),
        }
    }

    fn bytes(&self) -> (r: u8) {
        match self {
            DecodedInstruction::Jmp(i) => i.bytes(),
            DecodedInstruction::Jsr(i) => i.bytes(),
            DecodedInstruction::Rts(i) => i.bytes(),
            DecodedInstruction::Lda(i) => i.bytes(),
            DecodedInstruction::Ldx(i) => i.bytes(),
            DecodedInstruction::Ldy(i) => i.bytes(),
            DecodedInstruction::Other(op) => op.bytes(),
        }
    }

    fn flags_affected(&self) -> (r: u8) {
        match self {
            DecodedInstruction::Jmp(i) => i.flags_affected(),
            DecodedInstruction::Jsr(i) => i.flags_affected(),
            DecodedInstruction::Rts(i) => i.flags_affected(),
            DecodedInstruction::Lda(i) => i.flags_affected(),
            DecodedInstruction::Ldx(i) => i.flags_affected(),
            DecodedInstruction::Ldy(i) => i.flags_affected(),
            DecodedInstruction::Other(op) => op.flags_affected(),
        }
    }
}

/// Turns opcode bytes into instructions.
pub struct InstructionDecoder;

impl InstructionDecoder {
    /// The instruction that `byte` encodes; `None` where the byte encodes no
    /// documented opcode.
    pub fn from_byte(byte: u8) -> (r: Option<DecodedInstruction>)
        ensures
            r is Some <==> Opcode::spec_decode(byte) is Some,
            r is Some ==> Opcode::spec_decode(byte) == Some(r.unwrap().spec_opcode()),
    {
        match Opcode::decode(byte) {
            Some(Opcode::JMPAbs) => Some(DecodedInstruction::Jmp(JMP::new(AddressingMode::Absolute))),
            Some(Opcode::JMPInd) => Some(DecodedInstruction::Jmp(JMP::new(AddressingMode::Indirect))),
            Some(Opcode::JSR) => Some(DecodedInstruction::Jsr(JSR::new())),
            Some(Opcode::LDAImm) => Some(DecodedInstruction::Lda(LDA::new(AddressingMode::Immediate))),
            Some(Opcode::LDAZpg) => Some(DecodedInstruction::Lda(LDA::new(AddressingMode::ZeroPage))),
            Some(Opcode::LDAZpx) => Some(DecodedInstruction::Lda(LDA::new(AddressingMode::ZeroPageX))),
            Some(Opcode::LDAAbs) => Some(DecodedInstruction::Lda(LDA::new(AddressingMode::Absolute))),
            Some(Opcode::LDAAbx) => Some(DecodedInstruction::Lda(LDA::new(AddressingMode::AbsoluteX))),
            Some(Opcode::LDAAby) => Some(DecodedInstruction::Lda(LDA::new(AddressingMode::AbsoluteY))),
            Some(Opcode::LDAIdx) => Some(DecodedInstruction::Lda(LDA::new(AddressingMode::IndirectX))),
            Some(Opcode::LDAIdy) => Some(DecodedInstruction::Lda(LDA::new(AddressingMode::IndirectY))),
            Some(Opcode::LDXImm) => Some(DecodedInstruction::Ldx(LDX::new(AddressingMode::Immediate))),
            Some(Opcode::LDXZpg) => Some(DecodedInstruction::Ldx(LDX::new(AddressingMode::ZeroPage))),
            Some(Opcode::LDXZpy) => Some(DecodedInstruction::Ldx(LDX::new(AddressingMode::ZeroPageY))),
            Some(Opcode::LDXAbs) => Some(DecodedInstruction::Ldx(LDX::new(AddressingMode::Absolute))),
            Some(Opcode::LDXAby) => Some(DecodedInstruction::Ldx(LDX::new(AddressingMode::AbsoluteY))),
            Some(Opcode::LDYImm) => Some(DecodedInstruction::Ldy(LDY::new(AddressingMode::Immediate))),
            Some(Opcode::LDYZpg) => Some(DecodedInstruction::Ldy(LDY::new(AddressingMode::ZeroPage))),
            Some(Opcode::LDYZpx) => Some(DecodedInstruction::Ldy(LDY::new(AddressingMode::ZeroPageX))),
            Some(Opcode::LDYAbs) => Some(DecodedInstruction::Ldy(LDY::new(AddressingMode::Absolute))),
            Some(Opcode::LDYAbx) => Some(DecodedInstruction::Ldy(LDY::new(AddressingMode::AbsoluteX))),
            Some(Opcode::RTS) => Some(DecodedInstruction::Rts(RTS::new())),
            Some(op) => Some(DecodedInstruction::Other(op)),
            None => None,
        }
    }
}

} // verus!
