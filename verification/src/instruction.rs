//! Instructions and the opcode table.
//!
//! The table is written down twice, in the two orders in which such tables
//! are published. [`Instruction::encoding`] is the reference listing, by
//! mnemonic: for each operation, the opcode byte of each addressing mode it
//! has. [`decode`] is the same table by opcode byte, as the engine needs it.
//! `decode` is proved to be the exact inverse of the listing.
//!
//! What the table holds:
//! - the 151 documented opcodes of the NMOS 6502;
//! - the bit instructions of the 65C02 at their places there (test and set
//!   or reset bits, reset one memory bit, branch on one memory bit), with the
//!   accumulator forms of increment and decrement and the indexed forms of
//!   the bit test;
//! - the combined undocumented instructions of the NMOS 6502 at their places
//!   there, as far as no bit instruction has taken the place.
//!
//! Every other byte has no meaning, and fetching one halts the engine. In
//! particular the table has no zero-page indirect form: the indirect mode
//! belongs to the jump alone.
use vstd::prelude::*;

verus! {

#[derive(Copy, Debug, Clone, PartialEq, Eq, Structural)]
pub enum AddressingMode {
    /// The operand is the accumulator.
    Accumulator,
    /// The instruction names no operand.
    Implied,
    /// The operand is the byte after the opcode.
    Immediate,
    /// The byte after the opcode is an address in the zero page.
    ZeroPage,
    /// Zero page, with index X added modulo 256.
    ZeroPageX,
    /// Zero page, with index Y added modulo 256.
    ZeroPageY,
    /// The byte after the opcode is a signed displacement from the
    /// address after the instruction.
    Relative,
    /// The operand is on the stack. Resolved like `Implied`; the table
    /// files the stack instructions under `Implied`.
    Stack,
    /// The two bytes after the opcode are the address.
    Absolute,
    /// Absolute, with index X added modulo 65536.
    AbsoluteX,
    /// Absolute, with index Y added modulo 65536.
    AbsoluteY,
    /// The address is the word at the absolute address plus index X. No
    /// entry of the table has this mode.
    AbsoluteIndexedIndirect,
    /// Another name for `Indirect`. No entry of the table has this mode.
    AbsoluteIndirect,
    /// The two bytes after the opcode point at the word that is the
    /// address. Only the jump has this mode.
    Indirect,
    /// The byte after the opcode plus index X, modulo 256, points at a
    /// zero-page word that is the address.
    IndexedIndirectX,
    /// The byte after the opcode points at a zero-page word; the address
    /// is that word plus index Y, modulo 65536.
    IndirectIndexedY,
}

#[derive(Copy, Debug, Clone, PartialEq, Eq, Structural)]
pub enum OpCode {
    ADC,
    AND,
    ASL,
    BBR0,
    BBR1,
    BBR2,
    BBR3,
    BBR4,
    BBR5,
    BBR6,
    BBR7,
    BBS0,
    BBS1,
    BBS2,
    BBS3,
    BBS4,
    BBS5,
    BBS6,
    BBS7,
    BCC,
    BCS,
    BEQ,
    BIT,
    BMI,
    BNE,
    BPL,
    BRK,
    BVC,
    BVS,
    CLC,
    CLD,
    CLI,
    CLV,
    CMP,
    CPX,
    CPY,
    DCP,
    DEC,
    DEX,
    DEY,
    EOR,
    INC,
    INX,
    INY,
    ISB,
    JMP,
    JSR,
    LAX,
    LDA,
    LDX,
    LDY,
    LSR,
    NOP,
    ORA,
    PHA,
    PHP,
    PLA,
    PLP,
    RLA,
    RMB0,
    RMB1,
    RMB2,
    RMB3,
    RMB4,
    RMB5,
    RMB6,
    RMB7,
    ROL,
    ROR,
    RRA,
    RTI,
    RTS,
    SAX,
    SBC,
    SEC,
    SED,
    SEI,
    SLO,
    SRE,
    STA,
    STX,
    STY,
    TAX,
    TAY,
    TRB,
    TSB,
    TSX,
    TXA,
    TXS,
    TYA,
}

/// An operation paired with the addressing mode of its operand.
#[derive(Copy, Debug, Clone, PartialEq, Eq, Structural)]
pub struct Instruction {
    pub opcode: OpCode,
    pub mode: AddressingMode,
}

impl AddressingMode {
    /// How many bytes an instruction with this mode occupies, opcode included.
    pub open spec fn spec_length(self) -> u16 {
        match self {
            AddressingMode::Accumulator | AddressingMode::Implied | AddressingMode::Stack => 1,
            AddressingMode::Immediate
            | AddressingMode::ZeroPage
            | AddressingMode::ZeroPageX
            | AddressingMode::ZeroPageY
            | AddressingMode::Relative
            | AddressingMode::IndexedIndirectX
            | AddressingMode::IndirectIndexedY => 2,
            AddressingMode::Absolute
            | AddressingMode::AbsoluteX
            | AddressingMode::AbsoluteY
            | AddressingMode::AbsoluteIndexedIndirect
            | AddressingMode::AbsoluteIndirect
            | AddressingMode::Indirect => 3,
        }
    }

    #[verifier::when_used_as_spec(spec_length)]
    pub fn length(self) -> (n: u16)
        ensures
            n == self.spec_length(),
    {
        match self {
            AddressingMode::Accumulator | AddressingMode::Implied | AddressingMode::Stack => 1,
            AddressingMode::Immediate
            | AddressingMode::ZeroPage
            | AddressingMode::ZeroPageX
            | AddressingMode::ZeroPageY
            | AddressingMode::Relative
            | AddressingMode::IndexedIndirectX
            | AddressingMode::IndirectIndexedY => 2,
            AddressingMode::Absolute
            | AddressingMode::AbsoluteX
            | AddressingMode::AbsoluteY
            | AddressingMode::AbsoluteIndexedIndirect
            | AddressingMode::AbsoluteIndirect
            | AddressingMode::Indirect => 3,
        }
    }
}

/// The reference listing: the opcode byte of `opcode` with `mode`, or `None`
/// where the operation has no such form.
pub open spec fn encoding(opcode: OpCode, mode: AddressingMode) -> Option<u8> {
    match opcode {
        OpCode::ADC => match mode {
            AddressingMode::Immediate => Some(0x69u8),
            AddressingMode::ZeroPage => Some(0x65u8),
            AddressingMode::ZeroPageX => Some(0x75u8),
            AddressingMode::Absolute => Some(0x6Du8),
            AddressingMode::AbsoluteX => Some(0x7Du8),
            AddressingMode::AbsoluteY => Some(0x79u8),
            AddressingMode::IndexedIndirectX => Some(0x61u8),
            AddressingMode::IndirectIndexedY => Some(0x71u8),
            _ => None,
        },
        OpCode::AND => match mode {
            AddressingMode::Immediate => Some(0x29u8),
            AddressingMode::ZeroPage => Some(0x25u8),
            AddressingMode::ZeroPageX => Some(0x35u8),
            AddressingMode::Absolute => Some(0x2Du8),
            AddressingMode::AbsoluteX => Some(0x3Du8),
            AddressingMode::AbsoluteY => Some(0x39u8),
            AddressingMode::IndexedIndirectX => Some(0x21u8),
            AddressingMode::IndirectIndexedY => Some(0x31u8),
            _ => None,
        },
        OpCode::ASL => match mode {
            AddressingMode::Accumulator => Some(0x0Au8),
            AddressingMode::ZeroPage => Some(0x06u8),
            AddressingMode::ZeroPageX => Some(0x16u8),
            AddressingMode::Absolute => Some(0x0Eu8),
            AddressingMode::AbsoluteX => Some(0x1Eu8),
            _ => None,
        },
        OpCode::BBR0 => match mode {
            AddressingMode::Relative => Some(0x0Fu8),
            _ => None,
        },
        OpCode::BBR1 => match mode {
            AddressingMode::Relative => Some(0x1Fu8),
            _ => None,
        },
        OpCode::BBR2 => match mode {
            AddressingMode::Relative => Some(0x2Fu8),
            _ => None,
        },
        OpCode::BBR3 => match mode {
            AddressingMode::Relative => Some(0x3Fu8),
            _ => None,
        },
        OpCode::BBR4 => match mode {
            AddressingMode::Relative => Some(0x4Fu8),
            _ => None,
        },
        OpCode::BBR5 => match mode {
            AddressingMode::Relative => Some(0x5Fu8),
            _ => None,
        },
        OpCode::BBR6 => match mode {
            AddressingMode::Relative => Some(0x6Fu8),
            _ => None,
        },
        OpCode::BBR7 => match mode {
            AddressingMode::Relative => Some(0x7Fu8),
            _ => None,
        },
        OpCode::BBS0 => match mode {
            AddressingMode::Relative => Some(0x8Fu8),
            _ => None,
        },
        OpCode::BBS1 => match mode {
            AddressingMode::Relative => Some(0x9Fu8),
            _ => None,
        },
        OpCode::BBS2 => match mode {
            AddressingMode::Relative => Some(0xAFu8),
            _ => None,
        },
        OpCode::BBS3 => match mode {
            AddressingMode::Relative => Some(0xBFu8),
            _ => None,
        },
        OpCode::BBS4 => match mode {
            AddressingMode::Relative => Some(0xCFu8),
            _ => None,
        },
        OpCode::BBS5 => match mode {
            AddressingMode::Relative => Some(0xDFu8),
            _ => None,
        },
        OpCode::BBS6 => match mode {
            AddressingMode::Relative => Some(0xEFu8),
            _ => None,
        },
        OpCode::BBS7 => match mode {
            AddressingMode::Relative => Some(0xFFu8),
            _ => None,
        },
        OpCode::BCC => match mode {
            AddressingMode::Relative => Some(0x90u8),
            _ => None,
        },
        OpCode::BCS => match mode {
            AddressingMode::Relative => Some(0xB0u8),
            _ => None,
        },
        OpCode::BEQ => match mode {
            AddressingMode::Relative => Some(0xF0u8),
            _ => None,
        },
        OpCode::BIT => match mode {
            AddressingMode::ZeroPage => Some(0x24u8),
            AddressingMode::ZeroPageX => Some(0x34u8),
            AddressingMode::Absolute => Some(0x2Cu8),
            AddressingMode::AbsoluteX => Some(0x3Cu8),
            _ => None,
        },
        OpCode::BMI => match mode {
            AddressingMode::Relative => Some(0x30u8),
            _ => None,
        },
        OpCode::BNE => match mode {
            AddressingMode::Relative => Some(0xD0u8),
            _ => None,
        },
        OpCode::BPL => match mode {
            AddressingMode::Relative => Some(0x10u8),
            _ => None,
        },
        OpCode::BRK => match mode {
            AddressingMode::Implied => Some(0x00u8),
            _ => None,
        },
        OpCode::BVC => match mode {
            AddressingMode::Relative => Some(0x50u8),
            _ => None,
        },
        OpCode::BVS => match mode {
            AddressingMode::Relative => Some(0x70u8),
            _ => None,
        },
        OpCode::CLC => match mode {
            AddressingMode::Implied => Some(0x18u8),
            _ => None,
        },
        OpCode::CLD => match mode {
            AddressingMode::Implied => Some(0xD8u8),
            _ => None,
        },
        OpCode::CLI => match mode {
            AddressingMode::Implied => Some(0x58u8),
            _ => None,
        },
        OpCode::CLV => match mode {
            AddressingMode::Implied => Some(0xB8u8),
            _ => None,
        },
        OpCode::CMP => match mode {
            AddressingMode::Immediate => Some(0xC9u8),
            AddressingMode::ZeroPage => Some(0xC5u8),
            AddressingMode::ZeroPageX => Some(0xD5u8),
            AddressingMode::Absolute => Some(0xCDu8),
            AddressingMode::AbsoluteX => Some(0xDDu8),
            AddressingMode::AbsoluteY => Some(0xD9u8),
            AddressingMode::IndexedIndirectX => Some(0xC1u8),
            AddressingMode::IndirectIndexedY => Some(0xD1u8),
            _ => None,
        },
        OpCode::CPX => match mode {
            AddressingMode::Immediate => Some(0xE0u8),
            AddressingMode::ZeroPage => Some(0xE4u8),
            AddressingMode::Absolute => Some(0xECu8),
            _ => None,
        },
        OpCode::CPY => match mode {
            AddressingMode::Immediate => Some(0xC0u8),
            AddressingMode::ZeroPage => Some(0xC4u8),
            AddressingMode::Absolute => Some(0xCCu8),
            _ => None,
        },
        OpCode::DCP => match mode {
            AddressingMode::ZeroPage => Some(0xC7u8),
            AddressingMode::ZeroPageX => Some(0xD7u8),
            AddressingMode::AbsoluteY => Some(0xDBu8),
            AddressingMode::IndexedIndirectX => Some(0xC3u8),
            AddressingMode::IndirectIndexedY => Some(0xD3u8),
            _ => None,
        },
        OpCode::DEC => match mode {
            AddressingMode::Accumulator => Some(0x3Au8),
            AddressingMode::ZeroPage => Some(0xC6u8),
            AddressingMode::ZeroPageX => Some(0xD6u8),
            AddressingMode::Absolute => Some(0xCEu8),
            AddressingMode::AbsoluteX => Some(0xDEu8),
            _ => None,
        },
        OpCode::DEX => match mode {
            AddressingMode::Implied => Some(0xCAu8),
            _ => None,
        },
        OpCode::DEY => match mode {
            AddressingMode::Implied => Some(0x88u8),
            _ => None,
        },
        OpCode::EOR => match mode {
            AddressingMode::Immediate => Some(0x49u8),
            AddressingMode::ZeroPage => Some(0x45u8),
            AddressingMode::ZeroPageX => Some(0x55u8),
            AddressingMode::Absolute => Some(0x4Du8),
            AddressingMode::AbsoluteX => Some(0x5Du8),
            AddressingMode::AbsoluteY => Some(0x59u8),
            AddressingMode::IndexedIndirectX => Some(0x41u8),
            AddressingMode::IndirectIndexedY => Some(0x51u8),
            _ => None,
        },
        OpCode::INC => match mode {
            AddressingMode::Accumulator => Some(0x1Au8),
            AddressingMode::ZeroPage => Some(0xE6u8),
            AddressingMode::ZeroPageX => Some(0xF6u8),
            AddressingMode::Absolute => Some(0xEEu8),
            AddressingMode::AbsoluteX => Some(0xFEu8),
            _ => None,
        },
        OpCode::INX => match mode {
            AddressingMode::Implied => Some(0xE8u8),
            _ => None,
        },
        OpCode::INY => match mode {
            AddressingMode::Implied => Some(0xC8u8),
            _ => None,
        },
        OpCode::ISB => match mode {
            AddressingMode::ZeroPage => Some(0xE7u8),
            AddressingMode::ZeroPageX => Some(0xF7u8),
            AddressingMode::AbsoluteY => Some(0xFBu8),
            AddressingMode::IndexedIndirectX => Some(0xE3u8),
            AddressingMode::IndirectIndexedY => Some(0xF3u8),
            _ => None,
        },
        OpCode::JMP => match mode {
            AddressingMode::Absolute => Some(0x4Cu8),
            AddressingMode::Indirect => Some(0x6Cu8),
            _ => None,
        },
        OpCode::JSR => match mode {
            AddressingMode::Absolute => Some(0x20u8),
            _ => None,
        },
        OpCode::LAX => match mode {
            AddressingMode::ZeroPage => Some(0xA7u8),
            AddressingMode::ZeroPageY => Some(0xB7u8),
            AddressingMode::IndexedIndirectX => Some(0xA3u8),
            AddressingMode::IndirectIndexedY => Some(0xB3u8),
            _ => None,
        },
        OpCode::LDA => match mode {
            AddressingMode::Immediate => Some(0xA9u8),
            AddressingMode::ZeroPage => Some(0xA5u8),
            AddressingMode::ZeroPageX => Some(0xB5u8),
            AddressingMode::Absolute => Some(0xADu8),
            AddressingMode::AbsoluteX => Some(0xBDu8),
            AddressingMode::AbsoluteY => Some(0xB9u8),
            AddressingMode::IndexedIndirectX => Some(0xA1u8),
            AddressingMode::IndirectIndexedY => Some(0xB1u8),
            _ => None,
        },
        OpCode::LDX => match mode {
            AddressingMode::Immediate => Some(0xA2u8),
            AddressingMode::ZeroPage => Some(0xA6u8),
            AddressingMode::ZeroPageY => Some(0xB6u8),
            AddressingMode::Absolute => Some(0xAEu8),
            AddressingMode::AbsoluteY => Some(0xBEu8),
            _ => None,
        },
        OpCode::LDY => match mode {
            AddressingMode::Immediate => Some(0xA0u8),
            AddressingMode::ZeroPage => Some(0xA4u8),
            AddressingMode::ZeroPageX => Some(0xB4u8),
            AddressingMode::Absolute => Some(0xACu8),
            AddressingMode::AbsoluteX => Some(0xBCu8),
            _ => None,
        },
        OpCode::LSR => match mode {
            AddressingMode::Accumulator => Some(0x4Au8),
            AddressingMode::ZeroPage => Some(0x46u8),
            AddressingMode::ZeroPageX => Some(0x56u8),
            AddressingMode::Absolute => Some(0x4Eu8),
            AddressingMode::AbsoluteX => Some(0x5Eu8),
            _ => None,
        },
        OpCode::NOP => match mode {
            AddressingMode::Implied => Some(0xEAu8),
            _ => None,
        },
        OpCode::ORA => match mode {
            AddressingMode::Immediate => Some(0x09u8),
            AddressingMode::ZeroPage => Some(0x05u8),
            AddressingMode::ZeroPageX => Some(0x15u8),
            AddressingMode::Absolute => Some(0x0Du8),
            AddressingMode::AbsoluteX => Some(0x1Du8),
            AddressingMode::AbsoluteY => Some(0x19u8),
            AddressingMode::IndexedIndirectX => Some(0x01u8),
            AddressingMode::IndirectIndexedY => Some(0x11u8),
            _ => None,
        },
        OpCode::PHA => match mode {
            AddressingMode::Implied => Some(0x48u8),
            _ => None,
        },
        OpCode::PHP => match mode {
            AddressingMode::Implied => Some(0x08u8),
            _ => None,
        },
        OpCode::PLA => match mode {
            AddressingMode::Implied => Some(0x68u8),
            _ => None,
        },
        OpCode::PLP => match mode {
            AddressingMode::Implied => Some(0x28u8),
            _ => None,
        },
        OpCode::RLA => match mode {
            AddressingMode::AbsoluteY => Some(0x3Bu8),
            AddressingMode::IndexedIndirectX => Some(0x23u8),
            AddressingMode::IndirectIndexedY => Some(0x33u8),
            _ => None,
        },
        OpCode::RMB0 => match mode {
            AddressingMode::ZeroPage => Some(0x07u8),
            _ => None,
        },
        OpCode::RMB1 => match mode {
            AddressingMode::ZeroPage => Some(0x17u8),
            _ => None,
        },
        OpCode::RMB2 => match mode {
            AddressingMode::ZeroPage => Some(0x27u8),
            _ => None,
        },
        OpCode::RMB3 => match mode {
            AddressingMode::ZeroPage => Some(0x37u8),
            _ => None,
        },
        OpCode::RMB4 => match mode {
            AddressingMode::ZeroPage => Some(0x47u8),
            _ => None,
        },
        OpCode::RMB5 => match mode {
            AddressingMode::ZeroPage => Some(0x57u8),
            _ => None,
        },
        OpCode::RMB6 => match mode {
            AddressingMode::ZeroPage => Some(0x67u8),
            _ => None,
        },
        OpCode::RMB7 => match mode {
            AddressingMode::ZeroPage => Some(0x77u8),
            _ => None,
        },
        OpCode::ROL => match mode {
            AddressingMode::Accumulator => Some(0x2Au8),
            AddressingMode::ZeroPage => Some(0x26u8),
            AddressingMode::ZeroPageX => Some(0x36u8),
            AddressingMode::Absolute => Some(0x2Eu8),
            AddressingMode::AbsoluteX => Some(0x3Eu8),
            _ => None,
        },
        OpCode::ROR => match mode {
            AddressingMode::Accumulator => Some(0x6Au8),
            AddressingMode::ZeroPage => Some(0x66u8),
            AddressingMode::ZeroPageX => Some(0x76u8),
            AddressingMode::Absolute => Some(0x6Eu8),
            AddressingMode::AbsoluteX => Some(0x7Eu8),
            _ => None,
        },
        OpCode::RRA => match mode {
            AddressingMode::AbsoluteY => Some(0x7Bu8),
            AddressingMode::IndexedIndirectX => Some(0x63u8),
            AddressingMode::IndirectIndexedY => Some(0x73u8),
            _ => None,
        },
        OpCode::RTI => match mode {
            AddressingMode::Implied => Some(0x40u8),
            _ => None,
        },
        OpCode::RTS => match mode {
            AddressingMode::Implied => Some(0x60u8),
            _ => None,
        },
        OpCode::SAX => match mode {
            AddressingMode::ZeroPage => Some(0x87u8),
            AddressingMode::ZeroPageY => Some(0x97u8),
            AddressingMode::IndexedIndirectX => Some(0x83u8),
            _ => None,
        },
        OpCode::SBC => match mode {
            AddressingMode::Immediate => Some(0xE9u8),
            AddressingMode::ZeroPage => Some(0xE5u8),
            AddressingMode::ZeroPageX => Some(0xF5u8),
            AddressingMode::Absolute => Some(0xEDu8),
            AddressingMode::AbsoluteX => Some(0xFDu8),
            AddressingMode::AbsoluteY => Some(0xF9u8),
            AddressingMode::IndexedIndirectX => Some(0xE1u8),
            AddressingMode::IndirectIndexedY => Some(0xF1u8),
            _ => None,
        },
        OpCode::SEC => match mode {
            AddressingMode::Implied => Some(0x38u8),
            _ => None,
        },
        OpCode::SED => match mode {
            AddressingMode::Implied => Some(0xF8u8),
            _ => None,
        },
        OpCode::SEI => match mode {
            AddressingMode::Implied => Some(0x78u8),
            _ => None,
        },
        OpCode::SLO => match mode {
            AddressingMode::AbsoluteY => Some(0x1Bu8),
            AddressingMode::IndexedIndirectX => Some(0x03u8),
            AddressingMode::IndirectIndexedY => Some(0x13u8),
            _ => None,
        },
        OpCode::SRE => match mode {
            AddressingMode::AbsoluteY => Some(0x5Bu8),
            AddressingMode::IndexedIndirectX => Some(0x43u8),
            AddressingMode::IndirectIndexedY => Some(0x53u8),
            _ => None,
        },
        OpCode::STA => match mode {
            AddressingMode::ZeroPage => Some(0x85u8),
            AddressingMode::ZeroPageX => Some(0x95u8),
            AddressingMode::Absolute => Some(0x8Du8),
            AddressingMode::AbsoluteX => Some(0x9Du8),
            AddressingMode::AbsoluteY => Some(0x99u8),
            AddressingMode::IndexedIndirectX => Some(0x81u8),
            AddressingMode::IndirectIndexedY => Some(0x91u8),
            _ => None,
        },
        OpCode::STX => match mode {
            AddressingMode::ZeroPage => Some(0x86u8),
            AddressingMode::ZeroPageY => Some(0x96u8),
            AddressingMode::Absolute => Some(0x8Eu8),
            _ => None,
        },
        OpCode::STY => match mode {
            AddressingMode::ZeroPage => Some(0x84u8),
            AddressingMode::ZeroPageX => Some(0x94u8),
            AddressingMode::Absolute => Some(0x8Cu8),
            _ => None,
        },
        OpCode::TAX => match mode {
            AddressingMode::Implied => Some(0xAAu8),
            _ => None,
        },
        OpCode::TAY => match mode {
            AddressingMode::Implied => Some(0xA8u8),
            _ => None,
        },
        OpCode::TRB => match mode {
            AddressingMode::ZeroPage => Some(0x14u8),
            AddressingMode::Absolute => Some(0x1Cu8),
            _ => None,
        },
        OpCode::TSB => match mode {
            AddressingMode::ZeroPage => Some(0x04u8),
            AddressingMode::Absolute => Some(0x0Cu8),
            _ => None,
        },
        OpCode::TSX => match mode {
            AddressingMode::Implied => Some(0xBAu8),
            _ => None,
        },
        OpCode::TXA => match mode {
            AddressingMode::Implied => Some(0x8Au8),
            _ => None,
        },
        OpCode::TXS => match mode {
            AddressingMode::Implied => Some(0x9Au8),
            _ => None,
        },
        OpCode::TYA => match mode {
            AddressingMode::Implied => Some(0x98u8),
            _ => None,
        },
    }
}

impl Instruction {
    /// The instruction's opcode byte, if it has one.
    pub open spec fn encoding(self) -> Option<u8> {
        encoding(self.opcode, self.mode)
    }

    /// Whether the instruction is an entry of the opcode table.
    pub open spec fn is_legal(self) -> bool {
        self.encoding() is Some
    }
}

/// The instruction that `byte` stands for: the one whose opcode byte it is,
/// or `None` where there is none.
pub open spec fn decode_spec(byte: u8) -> Option<Instruction> {
    if exists|i: Instruction| #[trigger] i.encoding() == Some(byte) {
        Some(choose|i: Instruction| #[trigger] i.encoding() == Some(byte))
    } else {
        None
    }
}

/// No two instructions share an opcode byte.
pub proof fn lemma_encoding_injective(i: Instruction, j: Instruction)
    requires
        i.encoding() is Some,
        i.encoding() == j.encoding(),
    ensures
        i == j,
{
}

/// `decode_spec` is the inverse of the reference listing.
pub proof fn lemma_decode_inverts_encoding(byte: u8, i: Instruction)
    ensures
        decode_spec(byte) == Some(i) <==> i.encoding() == Some(byte),
{
    if i.encoding() == Some(byte) {
        let j = choose|j: Instruction| #[trigger] j.encoding() == Some(byte);
        lemma_encoding_injective(i, j);
    }
}

fn entry(opcode: OpCode, mode: AddressingMode) -> (r: Option<Instruction>)
    ensures
        r == Some(Instruction { opcode, mode }),
{
    Some(Instruction { opcode, mode })
}

/// Looks `byte` up in the opcode table. The table is fixed: the match is
/// over constants, one arm for each byte that has a meaning.
pub fn decode(byte: u8) -> (r: Option<Instruction>)
    ensures
        r == decode_spec(byte),
        r matches Some(i) ==> i.encoding() == Some(byte),
        r is None ==> forall|i: Instruction| #[trigger] i.encoding() != Some(byte),
{
    let r = match byte {
        0x00 => entry(OpCode::BRK, AddressingMode::Implied),
        0x01 => entry(OpCode::ORA, AddressingMode::IndexedIndirectX),
        0x03 => entry(OpCode::SLO, AddressingMode::IndexedIndirectX),
        0x04 => entry(OpCode::TSB, AddressingMode::ZeroPage),
        0x05 => entry(OpCode::ORA, AddressingMode::ZeroPage),
        0x06 => entry(OpCode::ASL, AddressingMode::ZeroPage),
        0x07 => entry(OpCode::RMB0, AddressingMode::ZeroPage),
        0x08 => entry(OpCode::PHP, AddressingMode::Implied),
        0x09 => entry(OpCode::ORA, AddressingMode::Immediate),
        0x0A => entry(OpCode::ASL, AddressingMode::Accumulator),
        0x0C => entry(OpCode::TSB, AddressingMode::Absolute),
        0x0D => entry(OpCode::ORA, AddressingMode::Absolute),
        0x0E => entry(OpCode::ASL, AddressingMode::Absolute),
        0x0F => entry(OpCode::BBR0, AddressingMode::Relative),
        0x10 => entry(OpCode::BPL, AddressingMode::Relative),
        0x11 => entry(OpCode::ORA, AddressingMode::IndirectIndexedY),
        0x13 => entry(OpCode::SLO, AddressingMode::IndirectIndexedY),
        0x14 => entry(OpCode::TRB, AddressingMode::ZeroPage),
        0x15 => entry(OpCode::ORA, AddressingMode::ZeroPageX),
        0x16 => entry(OpCode::ASL, AddressingMode::ZeroPageX),
        0x17 => entry(OpCode::RMB1, AddressingMode::ZeroPage),
        0x18 => entry(OpCode::CLC, AddressingMode::Implied),
        0x19 => entry(OpCode::ORA, AddressingMode::AbsoluteY),
        0x1A => entry(OpCode::INC, AddressingMode::Accumulator),
        0x1B => entry(OpCode::SLO, AddressingMode::AbsoluteY),
        0x1C => entry(OpCode::TRB, AddressingMode::Absolute),
        0x1D => entry(OpCode::ORA, AddressingMode::AbsoluteX),
        0x1E => entry(OpCode::ASL, AddressingMode::AbsoluteX),
        0x1F => entry(OpCode::BBR1, AddressingMode::Relative),
        0x20 => entry(OpCode::JSR, AddressingMode::Absolute),
        0x21 => entry(OpCode::AND, AddressingMode::IndexedIndirectX),
        0x23 => entry(OpCode::RLA, AddressingMode::IndexedIndirectX),
        0x24 => entry(OpCode::BIT, AddressingMode::ZeroPage),
        0x25 => entry(OpCode::AND, AddressingMode::ZeroPage),
        0x26 => entry(OpCode::ROL, AddressingMode::ZeroPage),
        0x27 => entry(OpCode::RMB2, AddressingMode::ZeroPage),
        0x28 => entry(OpCode::PLP, AddressingMode::Implied),
        0x29 => entry(OpCode::AND, AddressingMode::Immediate),
        0x2A => entry(OpCode::ROL, AddressingMode::Accumulator),
        0x2C => entry(OpCode::BIT, AddressingMode::Absolute),
        0x2D => entry(OpCode::AND, AddressingMode::Absolute),
        0x2E => entry(OpCode::ROL, AddressingMode::Absolute),
        0x2F => entry(OpCode::BBR2, AddressingMode::Relative),
        0x30 => entry(OpCode::BMI, AddressingMode::Relative),
        0x31 => entry(OpCode::AND, AddressingMode::IndirectIndexedY),
        0x33 => entry(OpCode::RLA, AddressingMode::IndirectIndexedY),
        0x34 => entry(OpCode::BIT, AddressingMode::ZeroPageX),
        0x35 => entry(OpCode::AND, AddressingMode::ZeroPageX),
        0x36 => entry(OpCode::ROL, AddressingMode::ZeroPageX),
        0x37 => entry(OpCode::RMB3, AddressingMode::ZeroPage),
        0x38 => entry(OpCode::SEC, AddressingMode::Implied),
        0x39 => entry(OpCode::AND, AddressingMode::AbsoluteY),
        0x3A => entry(OpCode::DEC, AddressingMode::Accumulator),
        0x3B => entry(OpCode::RLA, AddressingMode::AbsoluteY),
        0x3C => entry(OpCode::BIT, AddressingMode::AbsoluteX),
        0x3D => entry(OpCode::AND, AddressingMode::AbsoluteX),
        0x3E => entry(OpCode::ROL, AddressingMode::AbsoluteX),
        0x3F => entry(OpCode::BBR3, AddressingMode::Relative),
        0x40 => entry(OpCode::RTI, AddressingMode::Implied),
        0x41 => entry(OpCode::EOR, AddressingMode::IndexedIndirectX),
        0x43 => entry(OpCode::SRE, AddressingMode::IndexedIndirectX),
        0x45 => entry(OpCode::EOR, AddressingMode::ZeroPage),
        0x46 => entry(OpCode::LSR, AddressingMode::ZeroPage),
        0x47 => entry(OpCode::RMB4, AddressingMode::ZeroPage),
        0x48 => entry(OpCode::PHA, AddressingMode::Implied),
        0x49 => entry(OpCode::EOR, AddressingMode::Immediate),
        0x4A => entry(OpCode::LSR, AddressingMode::Accumulator),
        0x4C => entry(OpCode::JMP, AddressingMode::Absolute),
        0x4D => entry(OpCode::EOR, AddressingMode::Absolute),
        0x4E => entry(OpCode::LSR, AddressingMode::Absolute),
        0x4F => entry(OpCode::BBR4, AddressingMode::Relative),
        0x50 => entry(OpCode::BVC, AddressingMode::Relative),
        0x51 => entry(OpCode::EOR, AddressingMode::IndirectIndexedY),
        0x53 => entry(OpCode::SRE, AddressingMode::IndirectIndexedY),
        0x55 => entry(OpCode::EOR, AddressingMode::ZeroPageX),
        0x56 => entry(OpCode::LSR, AddressingMode::ZeroPageX),
        0x57 => entry(OpCode::RMB5, AddressingMode::ZeroPage),
        0x58 => entry(OpCode::CLI, AddressingMode::Implied),
        0x59 => entry(OpCode::EOR, AddressingMode::AbsoluteY),
        0x5B => entry(OpCode::SRE, AddressingMode::AbsoluteY),
        0x5D => entry(OpCode::EOR, AddressingMode::AbsoluteX),
        0x5E => entry(OpCode::LSR, AddressingMode::AbsoluteX),
        0x5F => entry(OpCode::BBR5, AddressingMode::Relative),
        0x60 => entry(OpCode::RTS, AddressingMode::Implied),
        0x61 => entry(OpCode::ADC, AddressingMode::IndexedIndirectX),
        0x63 => entry(OpCode::RRA, AddressingMode::IndexedIndirectX),
        0x65 => entry(OpCode::ADC, AddressingMode::ZeroPage),
        0x66 => entry(OpCode::ROR, AddressingMode::ZeroPage),
        0x67 => entry(OpCode::RMB6, AddressingMode::ZeroPage),
        0x68 => entry(OpCode::PLA, AddressingMode::Implied),
        0x69 => entry(OpCode::ADC, AddressingMode::Immediate),
        0x6A => entry(OpCode::ROR, AddressingMode::Accumulator),
        0x6C => entry(OpCode::JMP, AddressingMode::Indirect),
        0x6D => entry(OpCode::ADC, AddressingMode::Absolute),
        0x6E => entry(OpCode::ROR, AddressingMode::Absolute),
        0x6F => entry(OpCode::BBR6, AddressingMode::Relative),
        0x70 => entry(OpCode::BVS, AddressingMode::Relative),
        0x71 => entry(OpCode::ADC, AddressingMode::IndirectIndexedY),
        0x73 => entry(OpCode::RRA, AddressingMode::IndirectIndexedY),
        0x75 => entry(OpCode::ADC, AddressingMode::ZeroPageX),
        0x76 => entry(OpCode::ROR, AddressingMode::ZeroPageX),
        0x77 => entry(OpCode::RMB7, AddressingMode::ZeroPage),
        0x78 => entry(OpCode::SEI, AddressingMode::Implied),
        0x79 => entry(OpCode::ADC, AddressingMode::AbsoluteY),
        0x7B => entry(OpCode::RRA, AddressingMode::AbsoluteY),
        0x7D => entry(OpCode::ADC, AddressingMode::AbsoluteX),
        0x7E => entry(OpCode::ROR, AddressingMode::AbsoluteX),
        0x7F => entry(OpCode::BBR7, AddressingMode::Relative),
        0x81 => entry(OpCode::STA, AddressingMode::IndexedIndirectX),
        0x83 => entry(OpCode::SAX, AddressingMode::IndexedIndirectX),
        0x84 => entry(OpCode::STY, AddressingMode::ZeroPage),
        0x85 => entry(OpCode::STA, AddressingMode::ZeroPage),
        0x86 => entry(OpCode::STX, AddressingMode::ZeroPage),
        0x87 => entry(OpCode::SAX, AddressingMode::ZeroPage),
        0x88 => entry(OpCode::DEY, AddressingMode::Implied),
        0x8A => entry(OpCode::TXA, AddressingMode::Implied),
        0x8C => entry(OpCode::STY, AddressingMode::Absolute),
        0x8D => entry(OpCode::STA, AddressingMode::Absolute),
        0x8E => entry(OpCode::STX, AddressingMode::Absolute),
        0x8F => entry(OpCode::BBS0, AddressingMode::Relative),
        0x90 => entry(OpCode::BCC, AddressingMode::Relative),
        0x91 => entry(OpCode::STA, AddressingMode::IndirectIndexedY),
        0x94 => entry(OpCode::STY, AddressingMode::ZeroPageX),
        0x95 => entry(OpCode::STA, AddressingMode::ZeroPageX),
        0x96 => entry(OpCode::STX, AddressingMode::ZeroPageY),
        0x97 => entry(OpCode::SAX, AddressingMode::ZeroPageY),
        0x98 => entry(OpCode::TYA, AddressingMode::Implied),
        0x99 => entry(OpCode::STA, AddressingMode::AbsoluteY),
        0x9A => entry(OpCode::TXS, AddressingMode::Implied),
        0x9D => entry(OpCode::STA, AddressingMode::AbsoluteX),
        0x9F => entry(OpCode::BBS1, AddressingMode::Relative),
        0xA0 => entry(OpCode::LDY, AddressingMode::Immediate),
        0xA1 => entry(OpCode::LDA, AddressingMode::IndexedIndirectX),
        0xA2 => entry(OpCode::LDX, AddressingMode::Immediate),
        0xA3 => entry(OpCode::LAX, AddressingMode::IndexedIndirectX),
        0xA4 => entry(OpCode::LDY, AddressingMode::ZeroPage),
        0xA5 => entry(OpCode::LDA, AddressingMode::ZeroPage),
        0xA6 => entry(OpCode::LDX, AddressingMode::ZeroPage),
        0xA7 => entry(OpCode::LAX, AddressingMode::ZeroPage),
        0xA8 => entry(OpCode::TAY, AddressingMode::Implied),
        0xA9 => entry(OpCode::LDA, AddressingMode::Immediate),
        0xAA => entry(OpCode::TAX, AddressingMode::Implied),
        0xAC => entry(OpCode::LDY, AddressingMode::Absolute),
        0xAD => entry(OpCode::LDA, AddressingMode::Absolute),
        0xAE => entry(OpCode::LDX, AddressingMode::Absolute),
        0xAF => entry(OpCode::BBS2, AddressingMode::Relative),
        0xB0 => entry(OpCode::BCS, AddressingMode::Relative),
        0xB1 => entry(OpCode::LDA, AddressingMode::IndirectIndexedY),
        0xB3 => entry(OpCode::LAX, AddressingMode::IndirectIndexedY),
        0xB4 => entry(OpCode::LDY, AddressingMode::ZeroPageX),
        0xB5 => entry(OpCode::LDA, AddressingMode::ZeroPageX),
        0xB6 => entry(OpCode::LDX, AddressingMode::ZeroPageY),
        0xB7 => entry(OpCode::LAX, AddressingMode::ZeroPageY),
        0xB8 => entry(OpCode::CLV, AddressingMode::Implied),
        0xB9 => entry(OpCode::LDA, AddressingMode::AbsoluteY),
        0xBA => entry(OpCode::TSX, AddressingMode::Implied),
        0xBC => entry(OpCode::LDY, AddressingMode::AbsoluteX),
        0xBD => entry(OpCode::LDA, AddressingMode::AbsoluteX),
        0xBE => entry(OpCode::LDX, AddressingMode::AbsoluteY),
        0xBF => entry(OpCode::BBS3, AddressingMode::Relative),
        0xC0 => entry(OpCode::CPY, AddressingMode::Immediate),
        0xC1 => entry(OpCode::CMP, AddressingMode::IndexedIndirectX),
        0xC3 => entry(OpCode::DCP, AddressingMode::IndexedIndirectX),
        0xC4 => entry(OpCode::CPY, AddressingMode::ZeroPage),
        0xC5 => entry(OpCode::CMP, AddressingMode::ZeroPage),
        0xC6 => entry(OpCode::DEC, AddressingMode::ZeroPage),
        0xC7 => entry(OpCode::DCP, AddressingMode::ZeroPage),
        0xC8 => entry(OpCode::INY, AddressingMode::Implied),
        0xC9 => entry(OpCode::CMP, AddressingMode::Immediate),
        0xCA => entry(OpCode::DEX, AddressingMode::Implied),
        0xCC => entry(OpCode::CPY, AddressingMode::Absolute),
        0xCD => entry(OpCode::CMP, AddressingMode::Absolute),
        0xCE => entry(OpCode::DEC, AddressingMode::Absolute),
        0xCF => entry(OpCode::BBS4, AddressingMode::Relative),
        0xD0 => entry(OpCode::BNE, AddressingMode::Relative),
        0xD1 => entry(OpCode::CMP, AddressingMode::IndirectIndexedY),
        0xD3 => entry(OpCode::DCP, AddressingMode::IndirectIndexedY),
        0xD5 => entry(OpCode::CMP, AddressingMode::ZeroPageX),
        0xD6 => entry(OpCode::DEC, AddressingMode::ZeroPageX),
        0xD7 => entry(OpCode::DCP, AddressingMode::ZeroPageX),
        0xD8 => entry(OpCode::CLD, AddressingMode::Implied),
        0xD9 => entry(OpCode::CMP, AddressingMode::AbsoluteY),
        0xDB => entry(OpCode::DCP, AddressingMode::AbsoluteY),
        0xDD => entry(OpCode::CMP, AddressingMode::AbsoluteX),
        0xDE => entry(OpCode::DEC, AddressingMode::AbsoluteX),
        0xDF => entry(OpCode::BBS5, AddressingMode::Relative),
        0xE0 => entry(OpCode::CPX, AddressingMode::Immediate),
        0xE1 => entry(OpCode::SBC, AddressingMode::IndexedIndirectX),
        0xE3 => entry(OpCode::ISB, AddressingMode::IndexedIndirectX),
        0xE4 => entry(OpCode::CPX, AddressingMode::ZeroPage),
        0xE5 => entry(OpCode::SBC, AddressingMode::ZeroPage),
        0xE6 => entry(OpCode::INC, AddressingMode::ZeroPage),
        0xE7 => entry(OpCode::ISB, AddressingMode::ZeroPage),
        0xE8 => entry(OpCode::INX, AddressingMode::Implied),
        0xE9 => entry(OpCode::SBC, AddressingMode::Immediate),
        0xEA => entry(OpCode::NOP, AddressingMode::Implied),
        0xEC => entry(OpCode::CPX, AddressingMode::Absolute),
        0xED => entry(OpCode::SBC, AddressingMode::Absolute),
        0xEE => entry(OpCode::INC, AddressingMode::Absolute),
        0xEF => entry(OpCode::BBS6, AddressingMode::Relative),
        0xF0 => entry(OpCode::BEQ, AddressingMode::Relative),
        0xF1 => entry(OpCode::SBC, AddressingMode::IndirectIndexedY),
        0xF3 => entry(OpCode::ISB, AddressingMode::IndirectIndexedY),
        0xF5 => entry(OpCode::SBC, AddressingMode::ZeroPageX),
        0xF6 => entry(OpCode::INC, AddressingMode::ZeroPageX),
        0xF7 => entry(OpCode::ISB, AddressingMode::ZeroPageX),
        0xF8 => entry(OpCode::SED, AddressingMode::Implied),
        0xF9 => entry(OpCode::SBC, AddressingMode::AbsoluteY),
        0xFB => entry(OpCode::ISB, AddressingMode::AbsoluteY),
        0xFD => entry(OpCode::SBC, AddressingMode::AbsoluteX),
        0xFE => entry(OpCode::INC, AddressingMode::AbsoluteX),
        0xFF => entry(OpCode::BBS7, AddressingMode::Relative),
        _ => None,
    };
    proof {
        match r {
            Some(i) => {
                assert(i.encoding() == Some(byte));
                lemma_decode_inverts_encoding(byte, i);
            },
            None => {
                assert forall|i: Instruction| #[trigger] i.encoding() != Some(byte) by {}
            },
        }
    }
    r
}

} // verus!
