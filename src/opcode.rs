use vstd::prelude::*;

verus! {

/// How an instruction finds its operand.
#[derive(PartialEq, Eq, Structural, Copy, Clone, Debug)]
pub enum AddressingMode {
    Absolute,
    AbsoluteX,
    AbsoluteY,
    Accumulator,
    Immediate,
    Implied,
    Indirect,
    IndirectX,
    IndirectY,
    Relative,
    ZeroPage,
    ZeroPageX,
    ZeroPageY,
}

/// The documented opcodes that this core executes.
#[allow(non_camel_case_types, clippy::upper_case_acronyms)]
#[derive(PartialEq, Eq, Structural, Copy, Clone, Debug)]
pub enum Opcode {
    // JMP
    JMPAbs,
    JMPInd,

    // JSR
    JSR,

    // LDA
    LDAImm,
    LDAZpg,
    LDAZpx,
    LDAAbs,
    LDAAbx,
    LDAAby,
    LDAIdx,
    LDAIdy,

    // LDX
    LDXImm,
    LDXZpg,
    LDXZpy,
    LDXAbs,
    LDXAby,

    // LDY
    LDYImm,
    LDYZpg,
    LDYZpx,
    LDYAbs,
    LDYAbx,

    // PHA
    PHA,

    // PHP
    PHP,

    // PLA
    PLA,

    // PLP
    PLP,

    // RTS
    RTS,

    // STA
    STAZpg,
    STAZpx,
    STAAbs,
    STAAbx,
    STAAby,
    STAIdx,
    STAIdy,

    // STX
    STXZpg,
    STXZpy,
    STXAbs,

    // STY
    STYZpg,
    STYZpx,
    STYAbs,

    // TSX
    TSX,

    // TXS
    TXS,
}

impl Opcode {
    /// The byte that encodes this opcode.
    pub open spec fn spec_byte(self) -> u8 {
        match self {
            Opcode::JMPAbs => 0x4C,
            Opcode::JMPInd => 0x6C,
            Opcode::JSR => 0x20,
            Opcode::LDAImm => 0xA9,
            Opcode::LDAZpg => 0xA5,
            Opcode::LDAZpx => 0xB5,
            Opcode::LDAAbs => 0xAD,
            Opcode::LDAAbx => 0xBD,
            Opcode::LDAAby => 0xB9,
            Opcode::LDAIdx => 0xA1,
            Opcode::LDAIdy => 0xB1,
            Opcode::LDXImm => 0xA2,
            Opcode::LDXZpg => 0xA6,
            Opcode::LDXZpy => 0xB6,
            Opcode::LDXAbs => 0xAE,
            Opcode::LDXAby => 0xBE,
            Opcode::LDYImm => 0xA0,
            Opcode::LDYZpg => 0xA4,
            Opcode::LDYZpx => 0xB4,
            Opcode::LDYAbs => 0xAC,
            Opcode::LDYAbx => 0xBC,
            Opcode::PHA => 0x48,
            Opcode::PHP => 0x08,
            Opcode::PLA => 0x68,
            Opcode::PLP => 0x28,
            Opcode::RTS => 0x60,
            Opcode::STAZpg => 0x85,
            Opcode::STAZpx => 0x95,
            Opcode::STAAbs => 0x8D,
            Opcode::STAAbx => 0x9D,
            Opcode::STAAby => 0x99,
            Opcode::STAIdx => 0x81,
            Opcode::STAIdy => 0x91,
            Opcode::STXZpg => 0x86,
            Opcode::STXZpy => 0x96,
            Opcode::STXAbs => 0x8E,
            Opcode::STYZpg => 0x84,
            Opcode::STYZpx => 0x94,
            Opcode::STYAbs => 0x8C,
            Opcode::TSX => 0xBA,
            Opcode::TXS => 0x9A,
        }
    }

    /// The opcode that `byte` encodes, if it encodes one.
    pub open spec fn spec_decode(byte: u8) -> Option<Opcode> {
        match byte {
            0x08 => Some(Opcode::PHP),
            0x20 => Some(Opcode::JSR),
            0x28 => Some(Opcode::PLP),
            0x48 => Some(Opcode::PHA),
            0x4C => Some(Opcode::JMPAbs),
            0x60 => Some(Opcode::RTS),
            0x68 => Some(Opcode::PLA),
            0x6C => Some(Opcode::JMPInd),
            0x81 => Some(Opcode::STAIdx),
            0x84 => Some(Opcode::STYZpg),
            0x85 => Some(Opcode::STAZpg),
            0x86 => Some(Opcode::STXZpg),
            0x8C => Some(Opcode::STYAbs),
            0x8D => Some(Opcode::STAAbs),
            0x8E => Some(Opcode::STXAbs),
            0x91 => Some(Opcode::STAIdy),
            0x94 => Some(Opcode::STYZpx),
            0x95 => Some(Opcode::STAZpx),
            0x96 => Some(Opcode::STXZpy),
            0x99 => Some(Opcode::STAAby),
            0x9A => Some(Opcode::TXS),
            0x9D => Some(Opcode::STAAbx),
            0xA0 => Some(Opcode::LDYImm),
            0xA1 => Some(Opcode::LDAIdx),
            0xA2 => Some(Opcode::LDXImm),
            0xA4 => Some(Opcode::LDYZpg),
            0xA5 => Some(Opcode::LDAZpg),
            0xA6 => Some(Opcode::LDXZpg),
            0xA9 => Some(Opcode::LDAImm),
            0xAC => Some(Opcode::LDYAbs),
            0xAD => Some(Opcode::LDAAbs),
            0xAE => Some(Opcode::LDXAbs),
            0xB1 => Some(Opcode::LDAIdy),
            0xB4 => Some(Opcode::LDYZpx),
            0xB5 => Some(Opcode::LDAZpx),
            0xB6 => Some(Opcode::LDXZpy),
            0xB9 => Some(Opcode::LDAAby),
            0xBA => Some(Opcode::TSX),
            0xBC => Some(Opcode::LDYAbx),
            0xBD => Some(Opcode::LDAAbx),
            0xBE => Some(Opcode::LDXAby),
            _ => None,
        }
    }

    /// The addressing mode of the instruction.
    pub open spec fn mode(self) -> AddressingMode {
        match self {
            Opcode::JMPAbs => AddressingMode::Absolute,
            Opcode::JMPInd => AddressingMode::Indirect,
            Opcode::JSR => AddressingMode::Absolute,
            Opcode::LDAImm => AddressingMode::Immediate,
            Opcode::LDAZpg => AddressingMode::ZeroPage,
            Opcode::LDAZpx => AddressingMode::ZeroPageX,
            Opcode::LDAAbs => AddressingMode::Absolute,
            Opcode::LDAAbx => AddressingMode::AbsoluteX,
            Opcode::LDAAby => AddressingMode::AbsoluteY,
            Opcode::LDAIdx => AddressingMode::IndirectX,
            Opcode::LDAIdy => AddressingMode::IndirectY,
            Opcode::LDXImm => AddressingMode::Immediate,
            Opcode::LDXZpg => AddressingMode::ZeroPage,
            Opcode::LDXZpy => AddressingMode::ZeroPageY,
            Opcode::LDXAbs => AddressingMode::Absolute,
            Opcode::LDXAby => AddressingMode::AbsoluteY,
            Opcode::LDYImm => AddressingMode::Immediate,
            Opcode::LDYZpg => AddressingMode::ZeroPage,
            Opcode::LDYZpx => AddressingMode::ZeroPageX,
            Opcode::LDYAbs => AddressingMode::Absolute,
            Opcode::LDYAbx => AddressingMode::AbsoluteX,
            Opcode::PHA => AddressingMode::Implied,
            Opcode::PHP => AddressingMode::Implied,
            Opcode::PLA => AddressingMode::Implied,
            Opcode::PLP => AddressingMode::Implied,
            Opcode::RTS => AddressingMode::Implied,
            Opcode::STAZpg => AddressingMode::ZeroPage,
            Opcode::STAZpx => AddressingMode::ZeroPageX,
            Opcode::STAAbs => AddressingMode::Absolute,
            Opcode::STAAbx => AddressingMode::AbsoluteX,
            Opcode::STAAby => AddressingMode::AbsoluteY,
            Opcode::STAIdx => AddressingMode::IndirectX,
            Opcode::STAIdy => AddressingMode::IndirectY,
            Opcode::STXZpg => AddressingMode::ZeroPage,
            Opcode::STXZpy => AddressingMode::ZeroPageY,
            Opcode::STXAbs => AddressingMode::Absolute,
            Opcode::STYZpg => AddressingMode::ZeroPage,
            Opcode::STYZpx => AddressingMode::ZeroPageX,
            Opcode::STYAbs => AddressingMode::Absolute,
            Opcode::TSX => AddressingMode::Implied,
            Opcode::TXS => AddressingMode::Implied,
        }
    }

    /// Documented length of the instruction in bytes, opcode included.
    pub open spec fn length(self) -> nat {
        match self {
            Opcode::JMPAbs => 3,
            Opcode::JMPInd => 3,
            Opcode::JSR => 3,
            Opcode::LDAImm => 2,
            Opcode::LDAZpg => 2,
            Opcode::LDAZpx => 2,
            Opcode::LDAAbs => 3,
            Opcode::LDAAbx => 3,
            Opcode::LDAAby => 3,
            Opcode::LDAIdx => 2,
            Opcode::LDAIdy => 2,
            Opcode::LDXImm => 2,
            Opcode::LDXZpg => 2,
            Opcode::LDXZpy => 2,
            Opcode::LDXAbs => 3,
            Opcode::LDXAby => 3,
            Opcode::LDYImm => 2,
            Opcode::LDYZpg => 2,
            Opcode::LDYZpx => 2,
            Opcode::LDYAbs => 3,
            Opcode::LDYAbx => 3,
            Opcode::PHA => 1,
            Opcode::PHP => 1,
            Opcode::PLA => 1,
            Opcode::PLP => 1,
            Opcode::RTS => 1,
            Opcode::STAZpg => 2,
            Opcode::STAZpx => 2,
            Opcode::STAAbs => 3,
            Opcode::STAAbx => 3,
            Opcode::STAAby => 3,
            Opcode::STAIdx => 2,
            Opcode::STAIdy => 2,
            Opcode::STXZpg => 2,
            Opcode::STXZpy => 2,
            Opcode::STXAbs => 3,
            Opcode::STYZpg => 2,
            Opcode::STYZpx => 2,
            Opcode::STYAbs => 3,
            Opcode::TSX => 1,
            Opcode::TXS => 1,
        }
    }

    /// Documented cycle cost of the instruction when no page is crossed.
    pub open spec fn base_cycles(self) -> nat {
        match self {
            Opcode::JMPAbs => 3,
            Opcode::JMPInd => 5,
            Opcode::JSR => 6,
            Opcode::LDAImm => 2,
            Opcode::LDAZpg => 3,
            Opcode::LDAZpx => 4,
            Opcode::LDAAbs => 4,
            Opcode::LDAAbx => 4,
            Opcode::LDAAby => 4,
            Opcode::LDAIdx => 6,
            Opcode::LDAIdy => 5,
            Opcode::LDXImm => 2,
            Opcode::LDXZpg => 3,
            Opcode::LDXZpy => 4,
            Opcode::LDXAbs => 4,
            Opcode::LDXAby => 4,
            Opcode::LDYImm => 2,
            Opcode::LDYZpg => 3,
            Opcode::LDYZpx => 4,
            Opcode::LDYAbs => 4,
            Opcode::LDYAbx => 4,
            Opcode::PHA => 3,
            Opcode::PHP => 3,
            Opcode::PLA => 4,
            Opcode::PLP => 4,
            Opcode::RTS => 6,
            Opcode::STAZpg => 3,
            Opcode::STAZpx => 4,
            Opcode::STAAbs => 4,
            Opcode::STAAbx => 5,
            Opcode::STAAby => 5,
            Opcode::STAIdx => 6,
            Opcode::STAIdy => 6,
            Opcode::STXZpg => 3,
            Opcode::STXZpy => 4,
            Opcode::STXAbs => 4,
            Opcode::STYZpg => 3,
            Opcode::STYZpx => 4,
            Opcode::STYAbs => 4,
            Opcode::TSX => 2,
            Opcode::TXS => 2,
        }
    }

    /// Whether the instruction takes one more cycle when its indexing crosses a page.
    pub open spec fn page_penalty_applies(self) -> bool {
        match self {
            Opcode::LDAAbx | Opcode::LDAAby | Opcode::LDAIdy | Opcode::LDXAby | Opcode::LDYAbx => true,
            _ => false,
        }
    }

    /// Decodes an opcode byte; `None` for a byte that encodes no documented opcode.
    pub fn decode(byte: u8) -> (r: Option<Opcode>)
        ensures
            r == Opcode::spec_decode(byte),
    {
        match byte {
            0x08 => Some(Opcode::PHP),
            0x20 => Some(Opcode::JSR),
            0x28 => Some(Opcode::PLP),
            0x48 => Some(Opcode::PHA),
            0x4C => Some(Opcode::JMPAbs),
            0x60 => Some(Opcode::RTS),
            0x68 => Some(Opcode::PLA),
            0x6C => Some(Opcode::JMPInd),
            0x81 => Some(Opcode::STAIdx),
            0x84 => Some(Opcode::STYZpg),
            0x85 => Some(Opcode::STAZpg),
            0x86 => Some(Opcode::STXZpg),
            0x8C => Some(Opcode::STYAbs),
            0x8D => Some(Opcode::STAAbs),
            0x8E => Some(Opcode::STXAbs),
            0x91 => Some(Opcode::STAIdy),
            0x94 => Some(Opcode::STYZpx),
            0x95 => Some(Opcode::STAZpx),
            0x96 => Some(Opcode::STXZpy),
            0x99 => Some(Opcode::STAAby),
            0x9A => Some(Opcode::TXS),
            0x9D => Some(Opcode::STAAbx),
            0xA0 => Some(Opcode::LDYImm),
            0xA1 => Some(Opcode::LDAIdx),
            0xA2 => Some(Opcode::LDXImm),
            0xA4 => Some(Opcode::LDYZpg),
            0xA5 => Some(Opcode::LDAZpg),
            0xA6 => Some(Opcode::LDXZpg),
            0xA9 => Some(Opcode::LDAImm),
            0xAC => Some(Opcode::LDYAbs),
            0xAD => Some(Opcode::LDAAbs),
            0xAE => Some(Opcode::LDXAbs),
            0xB1 => Some(Opcode::LDAIdy),
            0xB4 => Some(Opcode::LDYZpx),
            0xB5 => Some(Opcode::LDAZpx),
            0xB6 => Some(Opcode::LDXZpy),
            0xB9 => Some(Opcode::LDAAby),
            0xBA => Some(Opcode::TSX),
            0xBC => Some(Opcode::LDYAbx),
            0xBD => Some(Opcode::LDAAbx),
            0xBE => Some(Opcode::LDXAby),
            _ => None,
        }
    }
}

impl From<Opcode> for u8 {
    fn from(op: Opcode) -> (r: u8)
        ensures
            r == op.spec_byte(),
    {
        match op {
            Opcode::JMPAbs => 0x4C,
            Opcode::JMPInd => 0x6C,
            Opcode::JSR => 0x20,
            Opcode::LDAImm => 0xA9,
            Opcode::LDAZpg => 0xA5,
            Opcode::LDAZpx => 0xB5,
            Opcode::LDAAbs => 0xAD,
            Opcode::LDAAbx => 0xBD,
            Opcode::LDAAby => 0xB9,
            Opcode::LDAIdx => 0xA1,
            Opcode::LDAIdy => 0xB1,
            Opcode::LDXImm => 0xA2,
            Opcode::LDXZpg => 0xA6,
            Opcode::LDXZpy => 0xB6,
            Opcode::LDXAbs => 0xAE,
            Opcode::LDXAby => 0xBE,
            Opcode::LDYImm => 0xA0,
            Opcode::LDYZpg => 0xA4,
            Opcode::LDYZpx => 0xB4,
            Opcode::LDYAbs => 0xAC,
            Opcode::LDYAbx => 0xBC,
            Opcode::PHA => 0x48,
            Opcode::PHP => 0x08,
            Opcode::PLA => 0x68,
            Opcode::PLP => 0x28,
            Opcode::RTS => 0x60,
            Opcode::STAZpg => 0x85,
            Opcode::STAZpx => 0x95,
            Opcode::STAAbs => 0x8D,
            Opcode::STAAbx => 0x9D,
            Opcode::STAAby => 0x99,
            Opcode::STAIdx => 0x81,
            Opcode::STAIdy => 0x91,
            Opcode::STXZpg => 0x86,
            Opcode::STXZpy => 0x96,
            Opcode::STXAbs => 0x8E,
            Opcode::STYZpg => 0x84,
            Opcode::STYZpx => 0x94,
            Opcode::STYAbs => 0x8C,
            Opcode::TSX => 0xBA,
            Opcode::TXS => 0x9A,
        }
    }
}

impl vstd::std_specs::convert::FromSpecImpl<Opcode> for u8 {
    open spec fn obeys_from_spec() -> bool {
        true
    }

    open spec fn from_spec(op: Opcode) -> u8 {
        op.spec_byte()
    }
}

/// Decoding is the inverse of encoding: every opcode decodes back from its byte,
/// and a byte decodes to an opcode only if that opcode encodes as the byte.
pub proof fn lemma_decode_inverts_byte(op: Opcode, byte: u8)
    ensures
        Opcode::spec_decode(op.spec_byte()) == Some(op),
        Opcode::spec_decode(byte) == Some(op) ==> op.spec_byte() == byte,
{
}

} // verus!
