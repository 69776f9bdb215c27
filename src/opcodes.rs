//! The fixed table that decodes an opcode byte.
use vstd::prelude::*;

verus! {

/// The documented instructions, and `XXX` for every byte that encodes none of them.
#[allow(clippy::upper_case_acronyms)]
#[derive(Clone, Copy, PartialEq, Eq, Structural, Debug)]
pub enum Instruction {
    /// Add with carry.
    ADC,
    /// Logical and.
    AND,
    /// Arithmetic shift left.
    ASL,
    /// Branch if carry clear.
    BCC,
    /// Branch if carry set.
    BCS,
    /// Branch if zero set.
    BEQ,
    /// Bit test.
    BIT,
    /// Branch if negative set.
    BMI,
    /// Branch if zero clear.
    BNE,
    /// Branch if negative clear.
    BPL,
    /// Force interrupt.
    BRK,
    /// Branch if overflow clear.
    BVC,
    /// Branch if overflow set.
    BVS,
    /// Clear carry.
    CLC,
    /// Clear decimal mode.
    CLD,
    /// Clear interrupt disable.
    CLI,
    /// Clear overflow.
    CLV,
    /// Compare accumulator.
    CMP,
    /// Compare X.
    CPX,
    /// Compare Y.
    CPY,
    /// Decrement memory.
    DEC,
    /// Decrement X.
    DEX,
    /// Decrement Y.
    DEY,
    /// Exclusive or.
    EOR,
    /// Increment memory.
    INC,
    /// Increment X.
    INX,
    /// Increment Y.
    INY,
    /// Jump.
    JMP,
    /// Jump to subroutine.
    JSR,
    /// Load accumulator.
    LDA,
    /// Load X.
    LDX,
    /// Load Y.
    LDY,
    /// Logical shift right.
    LSR,
    /// No operation.
    NOP,
    /// Logical inclusive or.
    ORA,
    /// Push accumulator.
    PHA,
    /// Push status.
    PHP,
    /// Pull accumulator.
    PLA,
    /// Pull status.
    PLP,
    /// Rotate left.
    ROL,
    /// Rotate right.
    ROR,
    /// Return from interrupt.
    RTI,
    /// Return from subroutine.
    RTS,
    /// Subtract with carry.
    SBC,
    /// Set carry.
    SEC,
    /// Set decimal mode.
    SED,
    /// Set interrupt disable.
    SEI,
    /// Store accumulator.
    STA,
    /// Store X.
    STX,
    /// Store Y.
    STY,
    /// Transfer accumulator to X.
    TAX,
    /// Transfer accumulator to Y.
    TAY,
    /// Transfer stack pointer to X.
    TSX,
    /// Transfer X to accumulator.
    TXA,
    /// Transfer X to stack pointer.
    TXS,
    /// Transfer Y to accumulator.
    TYA,
    /// An undocumented opcode, executed as a no-op.
    XXX,
}

/// The rule by which an instruction finds its operand.
#[derive(Clone, Copy, PartialEq, Eq, Structural, Debug)]
pub enum AddrMode {
    /// No operand.
    Implicit,
    /// The accumulator itself is the operand.
    Accumulator,
    /// The byte after the opcode is the operand.
    Immediate,
    /// An 8-bit address into page zero.
    ZeroPage,
    /// An 8-bit address plus X, wrapping within page zero.
    ZeroPageX,
    /// An 8-bit address plus Y, wrapping within page zero.
    ZeroPageY,
    /// A signed 8-bit branch offset.
    Relative,
    /// A 16-bit address.
    Absolute,
    /// A 16-bit address plus X.
    AbsoluteX,
    /// A 16-bit address plus Y.
    AbsoluteY,
    /// A 16-bit pointer to the 16-bit target; used by JMP alone.
    Indirect,
    /// `(zp,X)`: a pointer in page zero at the 8-bit address plus X.
    IndexedIndirect,
    /// `(zp),Y`: a pointer in page zero, plus Y.
    IndirectIndexed,
}

/// What an opcode byte stands for.
#[derive(Clone, Copy, PartialEq, Eq, Structural, Debug)]
pub struct Descriptor {
    pub instr: Instruction,
    pub mode: AddrMode,
    /// Cycles taken before any page-crossing or branch penalty.
    pub cycles: u8,
}

/// The descriptor of each of the 256 opcode bytes.
pub open spec fn descriptor(op: u8) -> Descriptor {
    match op {
        0x00 => Descriptor { instr: Instruction::BRK, mode: AddrMode::Implicit, cycles: 7 },
        0x01 => Descriptor { instr: Instruction::ORA, mode: AddrMode::IndexedIndirect, cycles: 6 },
        0x05 => Descriptor { instr: Instruction::ORA, mode: AddrMode::ZeroPage, cycles: 3 },
        0x06 => Descriptor { instr: Instruction::ASL, mode: AddrMode::ZeroPage, cycles: 5 },
        0x08 => Descriptor { instr: Instruction::PHP, mode: AddrMode::Implicit, cycles: 3 },
        0x09 => Descriptor { instr: Instruction::ORA, mode: AddrMode::Immediate, cycles: 2 },
        0x0A => Descriptor { instr: Instruction::ASL, mode: AddrMode::Accumulator, cycles: 2 },
        0x0D => Descriptor { instr: Instruction::ORA, mode: AddrMode::Absolute, cycles: 4 },
        0x0E => Descriptor { instr: Instruction::ASL, mode: AddrMode::Absolute, cycles: 6 },
        0x10 => Descriptor { instr: Instruction::BPL, mode: AddrMode::Relative, cycles: 2 },
        0x11 => Descriptor { instr: Instruction::ORA, mode: AddrMode::IndirectIndexed, cycles: 5 },
        0x15 => Descriptor { instr: Instruction::ORA, mode: AddrMode::ZeroPageX, cycles: 4 },
        0x16 => Descriptor { instr: Instruction::ASL, mode: AddrMode::ZeroPageX, cycles: 6 },
        0x18 => Descriptor { instr: Instruction::CLC, mode: AddrMode::Implicit, cycles: 2 },
        0x19 => Descriptor { instr: Instruction::ORA, mode: AddrMode::AbsoluteY, cycles: 4 },
        0x1D => Descriptor { instr: Instruction::ORA, mode: AddrMode::AbsoluteX, cycles: 4 },
        0x1E => Descriptor { instr: Instruction::ASL, mode: AddrMode::AbsoluteX, cycles: 7 },
        0x20 => Descriptor { instr: Instruction::JSR, mode: AddrMode::Absolute, cycles: 6 },
        0x21 => Descriptor { instr: Instruction::AND, mode: AddrMode::IndexedIndirect, cycles: 6 },
        0x24 => Descriptor { instr: Instruction::BIT, mode: AddrMode::ZeroPage, cycles: 3 },
        0x25 => Descriptor { instr: Instruction::AND, mode: AddrMode::ZeroPage, cycles: 3 },
        0x26 => Descriptor { instr: Instruction::ROL, mode: AddrMode::ZeroPage, cycles: 5 },
        0x28 => Descriptor { instr: Instruction::PLP, mode: AddrMode::Implicit, cycles: 4 },
        0x29 => Descriptor { instr: Instruction::AND, mode: AddrMode::Immediate, cycles: 2 },
        0x2A => Descriptor { instr: Instruction::ROL, mode: AddrMode::Accumulator, cycles: 2 },
        0x2C => Descriptor { instr: Instruction::BIT, mode: AddrMode::Absolute, cycles: 4 },
        0x2D => Descriptor { instr: Instruction::AND, mode: AddrMode::Absolute, cycles: 4 },
        0x2E => Descriptor { instr: Instruction::ROL, mode: AddrMode::Absolute, cycles: 6 },
        0x30 => Descriptor { instr: Instruction::BMI, mode: AddrMode::Relative, cycles: 2 },
        0x31 => Descriptor { instr: Instruction::AND, mode: AddrMode::IndirectIndexed, cycles: 5 },
        0x35 => Descriptor { instr: Instruction::AND, mode: AddrMode::ZeroPageX, cycles: 4 },
        0x36 => Descriptor { instr: Instruction::ROL, mode: AddrMode::ZeroPageX, cycles: 6 },
        0x38 => Descriptor { instr: Instruction::SEC, mode: AddrMode::Implicit, cycles: 2 },
        0x39 => Descriptor { instr: Instruction::AND, mode: AddrMode::AbsoluteY, cycles: 4 },
        0x3D => Descriptor { instr: Instruction::AND, mode: AddrMode::AbsoluteX, cycles: 4 },
        0x3E => Descriptor { instr: Instruction::ROL, mode: AddrMode::AbsoluteX, cycles: 7 },
        0x40 => Descriptor { instr: Instruction::RTI, mode: AddrMode::Implicit, cycles: 6 },
        0x41 => Descriptor { instr: Instruction::EOR, mode: AddrMode::IndexedIndirect, cycles: 6 },
        0x45 => Descriptor { instr: Instruction::EOR, mode: AddrMode::ZeroPage, cycles: 3 },
        0x46 => Descriptor { instr: Instruction::LSR, mode: AddrMode::ZeroPage, cycles: 5 },
        0x48 => Descriptor { instr: Instruction::PHA, mode: AddrMode::Implicit, cycles: 3 },
        0x49 => Descriptor { instr: Instruction::EOR, mode: AddrMode::Immediate, cycles: 2 },
        0x4A => Descriptor { instr: Instruction::LSR, mode: AddrMode::Accumulator, cycles: 2 },
        0x4C => Descriptor { instr: Instruction::JMP, mode: AddrMode::Absolute, cycles: 3 },
        0x4D => Descriptor { instr: Instruction::EOR, mode: AddrMode::Absolute, cycles: 4 },
        0x4E => Descriptor { instr: Instruction::LSR, mode: AddrMode::Absolute, cycles: 6 },
        0x50 => Descriptor { instr: Instruction::BVC, mode: AddrMode::Relative, cycles: 2 },
        0x51 => Descriptor { instr: Instruction::EOR, mode: AddrMode::IndirectIndexed, cycles: 5 },
        0x55 => Descriptor { instr: Instruction::EOR, mode: AddrMode::ZeroPageX, cycles: 4 },
        0x56 => Descriptor { instr: Instruction::LSR, mode: AddrMode::ZeroPageX, cycles: 6 },
        0x58 => Descriptor { instr: Instruction::CLI, mode: AddrMode::Implicit, cycles: 2 },
        0x59 => Descriptor { instr: Instruction::EOR, mode: AddrMode::AbsoluteY, cycles: 4 },
        0x5D => Descriptor { instr: Instruction::EOR, mode: AddrMode::AbsoluteX, cycles: 4 },
        0x5E => Descriptor { instr: Instruction::LSR, mode: AddrMode::AbsoluteX, cycles: 7 },
        0x60 => Descriptor { instr: Instruction::RTS, mode: AddrMode::Implicit, cycles: 6 },
        0x61 => Descriptor { instr: Instruction::ADC, mode: AddrMode::IndexedIndirect, cycles: 6 },
        0x65 => Descriptor { instr: Instruction::ADC, mode: AddrMode::ZeroPage, cycles: 3 },
        0x66 => Descriptor { instr: Instruction::ROR, mode: AddrMode::ZeroPage, cycles: 5 },
        0x68 => Descriptor { instr: Instruction::PLA, mode: AddrMode::Implicit, cycles: 4 },
        0x69 => Descriptor { instr: Instruction::ADC, mode: AddrMode::Immediate, cycles: 2 },
        0x6A => Descriptor { instr: Instruction::ROR, mode: AddrMode::Accumulator, cycles: 2 },
        0x6C => Descriptor { instr: Instruction::JMP, mode: AddrMode::Indirect, cycles: 5 },
        0x6D => Descriptor { instr: Instruction::ADC, mode: AddrMode::Absolute, cycles: 4 },
        0x6E => Descriptor { instr: Instruction::ROR, mode: AddrMode::Absolute, cycles: 6 },
        0x70 => Descriptor { instr: Instruction::BVS, mode: AddrMode::Relative, cycles: 2 },
        0x71 => Descriptor { instr: Instruction::ADC, mode: AddrMode::IndirectIndexed, cycles: 5 },
        0x75 => Descriptor { instr: Instruction::ADC, mode: AddrMode::ZeroPageX, cycles: 4 },
        0x76 => Descriptor { instr: Instruction::ROR, mode: AddrMode::ZeroPageX, cycles: 6 },
        0x78 => Descriptor { instr: Instruction::SEI, mode: AddrMode::Implicit, cycles: 2 },
        0x79 => Descriptor { instr: Instruction::ADC, mode: AddrMode::AbsoluteY, cycles: 4 },
        0x7D => Descriptor { instr: Instruction::ADC, mode: AddrMode::AbsoluteX, cycles: 4 },
        0x7E => Descriptor { instr: Instruction::ROR, mode: AddrMode::AbsoluteX, cycles: 7 },
        0x81 => Descriptor { instr: Instruction::STA, mode: AddrMode::IndexedIndirect, cycles: 6 },
        0x84 => Descriptor { instr: Instruction::STY, mode: AddrMode::ZeroPage, cycles: 3 },
        0x85 => Descriptor { instr: Instruction::STA, mode: AddrMode::ZeroPage, cycles: 3 },
        0x86 => Descriptor { instr: Instruction::STX, mode: AddrMode::ZeroPage, cycles: 3 },
        0x88 => Descriptor { instr: Instruction::DEY, mode: AddrMode::Implicit, cycles: 2 },
        0x8A => Descriptor { instr: Instruction::TXA, mode: AddrMode::Implicit, cycles: 2 },
        0x8C => Descriptor { instr: Instruction::STY, mode: AddrMode::Absolute, cycles: 4 },
        0x8D => Descriptor { instr: Instruction::STA, mode: AddrMode::Absolute, cycles: 4 },
        0x8E => Descriptor { instr: Instruction::STX, mode: AddrMode::Absolute, cycles: 4 },
        0x90 => Descriptor { instr: Instruction::BCC, mode: AddrMode::Relative, cycles: 2 },
        0x91 => Descriptor { instr: Instruction::STA, mode: AddrMode::IndirectIndexed, cycles: 6 },
        0x94 => Descriptor { instr: Instruction::STY, mode: AddrMode::ZeroPageX, cycles: 4 },
        0x95 => Descriptor { instr: Instruction::STA, mode: AddrMode::ZeroPageX, cycles: 4 },
        0x96 => Descriptor { instr: Instruction::STX, mode: AddrMode::ZeroPageY, cycles: 4 },
        0x98 => Descriptor { instr: Instruction::TYA, mode: AddrMode::Implicit, cycles: 2 },
        0x99 => Descriptor { instr: Instruction::STA, mode: AddrMode::AbsoluteY, cycles: 5 },
        0x9A => Descriptor { instr: Instruction::TXS, mode: AddrMode::Implicit, cycles: 2 },
        0x9D => Descriptor { instr: Instruction::STA, mode: AddrMode::AbsoluteX, cycles: 5 },
        0xA0 => Descriptor { instr: Instruction::LDY, mode: AddrMode::Immediate, cycles: 2 },
        0xA1 => Descriptor { instr: Instruction::LDA, mode: AddrMode::IndexedIndirect, cycles: 6 },
        0xA2 => Descriptor { instr: Instruction::LDX, mode: AddrMode::Immediate, cycles: 2 },
        0xA4 => Descriptor { instr: Instruction::LDY, mode: AddrMode::ZeroPage, cycles: 3 },
        0xA5 => Descriptor { instr: Instruction::LDA, mode: AddrMode::ZeroPage, cycles: 3 },
        0xA6 => Descriptor { instr: Instruction::LDX, mode: AddrMode::ZeroPage, cycles: 3 },
        0xA8 => Descriptor { instr: Instruction::TAY, mode: AddrMode::Implicit, cycles: 2 },
        0xA9 => Descriptor { instr: Instruction::LDA, mode: AddrMode::Immediate, cycles: 2 },
        0xAA => Descriptor { instr: Instruction::TAX, mode: AddrMode::Implicit, cycles: 2 },
        0xAC => Descriptor { instr: Instruction::LDY, mode: AddrMode::Absolute, cycles: 4 },
        0xAD => Descriptor { instr: Instruction::LDA, mode: AddrMode::Absolute, cycles: 4 },
        0xAE => Descriptor { instr: Instruction::LDX, mode: AddrMode::Absolute, cycles: 4 },
        0xB0 => Descriptor { instr: Instruction::BCS, mode: AddrMode::Relative, cycles: 2 },
        0xB1 => Descriptor { instr: Instruction::LDA, mode: AddrMode::IndirectIndexed, cycles: 5 },
        0xB4 => Descriptor { instr: Instruction::LDY, mode: AddrMode::ZeroPageX, cycles: 4 },
        0xB5 => Descriptor { instr: Instruction::LDA, mode: AddrMode::ZeroPageX, cycles: 4 },
        0xB6 => Descriptor { instr: Instruction::LDX, mode: AddrMode::ZeroPageY, cycles: 4 },
        0xB8 => Descriptor { instr: Instruction::CLV, mode: AddrMode::Implicit, cycles: 2 },
        0xB9 => Descriptor { instr: Instruction::LDA, mode: AddrMode::AbsoluteY, cycles: 4 },
        0xBA => Descriptor { instr: Instruction::TSX, mode: AddrMode::Implicit, cycles: 2 },
        0xBC => Descriptor { instr: Instruction::LDY, mode: AddrMode::AbsoluteX, cycles: 4 },
        0xBD => Descriptor { instr: Instruction::LDA, mode: AddrMode::AbsoluteX, cycles: 4 },
        0xBE => Descriptor { instr: Instruction::LDX, mode: AddrMode::AbsoluteY, cycles: 4 },
        0xC0 => Descriptor { instr: Instruction::CPY, mode: AddrMode::Immediate, cycles: 2 },
        0xC1 => Descriptor { instr: Instruction::CMP, mode: AddrMode::IndexedIndirect, cycles: 6 },
        0xC4 => Descriptor { instr: Instruction::CPY, mode: AddrMode::ZeroPage, cycles: 3 },
        0xC5 => Descriptor { instr: Instruction::CMP, mode: AddrMode::ZeroPage, cycles: 3 },
        0xC6 => Descriptor { instr: Instruction::DEC, mode: AddrMode::ZeroPage, cycles: 5 },
        0xC8 => Descriptor { instr: Instruction::INY, mode: AddrMode::Implicit, cycles: 2 },
        0xC9 => Descriptor { instr: Instruction::CMP, mode: AddrMode::Immediate, cycles: 2 },
        0xCA => Descriptor { instr: Instruction::DEX, mode: AddrMode::Implicit, cycles: 2 },
        0xCC => Descriptor { instr: Instruction::CPY, mode: AddrMode::Absolute, cycles: 4 },
        0xCD => Descriptor { instr: Instruction::CMP, mode: AddrMode::Absolute, cycles: 4 },
        0xCE => Descriptor { instr: Instruction::DEC, mode: AddrMode::Absolute, cycles: 6 },
        0xD0 => Descriptor { instr: Instruction::BNE, mode: AddrMode::Relative, cycles: 2 },
        0xD1 => Descriptor { instr: Instruction::CMP, mode: AddrMode::IndirectIndexed, cycles: 5 },
        0xD5 => Descriptor { instr: Instruction::CMP, mode: AddrMode::ZeroPageX, cycles: 4 },
        0xD6 => Descriptor { instr: Instruction::DEC, mode: AddrMode::ZeroPageX, cycles: 6 },
        0xD8 => Descriptor { instr: Instruction::CLD, mode: AddrMode::Implicit, cycles: 2 },
        0xD9 => Descriptor { instr: Instruction::CMP, mode: AddrMode::AbsoluteY, cycles: 4 },
        0xDD => Descriptor { instr: Instruction::CMP, mode: AddrMode::AbsoluteX, cycles: 4 },
        0xDE => Descriptor { instr: Instruction::DEC, mode: AddrMode::AbsoluteX, cycles: 7 },
        0xE0 => Descriptor { instr: Instruction::CPX, mode: AddrMode::Immediate, cycles: 2 },
        0xE1 => Descriptor { instr: Instruction::SBC, mode: AddrMode::IndexedIndirect, cycles: 6 },
        0xE4 => Descriptor { instr: Instruction::CPX, mode: AddrMode::ZeroPage, cycles: 3 },
        0xE5 => Descriptor { instr: Instruction::SBC, mode: AddrMode::ZeroPage, cycles: 3 },
        0xE6 => Descriptor { instr: Instruction::INC, mode: AddrMode::ZeroPage, cycles: 5 },
        0xE8 => Descriptor { instr: Instruction::INX, mode: AddrMode::Implicit, cycles: 2 },
        0xE9 => Descriptor { instr: Instruction::SBC, mode: AddrMode::Immediate, cycles: 2 },
        0xEA => Descriptor { instr: Instruction::NOP, mode: AddrMode::Implicit, cycles: 2 },
        0xEC => Descriptor { instr: Instruction::CPX, mode: AddrMode::Absolute, cycles: 4 },
        0xED => Descriptor { instr: Instruction::SBC, mode: AddrMode::Absolute, cycles: 4 },
        0xEE => Descriptor { instr: Instruction::INC, mode: AddrMode::Absolute, cycles: 6 },
        0xF0 => Descriptor { instr: Instruction::BEQ, mode: AddrMode::Relative, cycles: 2 },
        0xF1 => Descriptor { instr: Instruction::SBC, mode: AddrMode::IndirectIndexed, cycles: 5 },
        0xF5 => Descriptor { instr: Instruction::SBC, mode: AddrMode::ZeroPageX, cycles: 4 },
        0xF6 => Descriptor { instr: Instruction::INC, mode: AddrMode::ZeroPageX, cycles: 6 },
        0xF8 => Descriptor { instr: Instruction::SED, mode: AddrMode::Implicit, cycles: 2 },
        0xF9 => Descriptor { instr: Instruction::SBC, mode: AddrMode::AbsoluteY, cycles: 4 },
        0xFD => Descriptor { instr: Instruction::SBC, mode: AddrMode::AbsoluteX, cycles: 4 },
        0xFE => Descriptor { instr: Instruction::INC, mode: AddrMode::AbsoluteX, cycles: 7 },
        _ => Descriptor { instr: Instruction::XXX, mode: AddrMode::Implicit, cycles: 2 },
    }
}

/// Decodes an opcode byte; every byte decodes to some descriptor.
pub fn lookup(op: u8) -> (d: Descriptor)
    ensures
        d == descriptor(op),
        2 <= d.cycles <= 7,
{
    match op {
        0x00 => Descriptor { instr: Instruction::BRK, mode: AddrMode::Implicit, cycles: 7 },
        0x01 => Descriptor { instr: Instruction::ORA, mode: AddrMode::IndexedIndirect, cycles: 6 },
        0x05 => Descriptor { instr: Instruction::ORA, mode: AddrMode::ZeroPage, cycles: 3 },
        0x06 => Descriptor { instr: Instruction::ASL, mode: AddrMode::ZeroPage, cycles: 5 },
        0x08 => Descriptor { instr: Instruction::PHP, mode: AddrMode::Implicit, cycles: 3 },
        0x09 => Descriptor { instr: Instruction::ORA, mode: AddrMode::Immediate, cycles: 2 },
        0x0A => Descriptor { instr: Instruction::ASL, mode: AddrMode::Accumulator, cycles: 2 },
        0x0D => Descriptor { instr: Instruction::ORA, mode: AddrMode::Absolute, cycles: 4 },
        0x0E => Descriptor { instr: Instruction::ASL, mode: AddrMode::Absolute, cycles: 6 },
        0x10 => Descriptor { instr: Instruction::BPL, mode: AddrMode::Relative, cycles: 2 },
        0x11 => Descriptor { instr: Instruction::ORA, mode: AddrMode::IndirectIndexed, cycles: 5 },
        0x15 => Descriptor { instr: Instruction::ORA, mode: AddrMode::ZeroPageX, cycles: 4 },
        0x16 => Descriptor { instr: Instruction::ASL, mode: AddrMode::ZeroPageX, cycles: 6 },
        0x18 => Descriptor { instr: Instruction::CLC, mode: AddrMode::Implicit, cycles: 2 },
        0x19 => Descriptor { instr: Instruction::ORA, mode: AddrMode::AbsoluteY, cycles: 4 },
        0x1D => Descriptor { instr: Instruction::ORA, mode: AddrMode::AbsoluteX, cycles: 4 },
        0x1E => Descriptor { instr: Instruction::ASL, mode: AddrMode::AbsoluteX, cycles: 7 },
        0x20 => Descriptor { instr: Instruction::JSR, mode: AddrMode::Absolute, cycles: 6 },
        0x21 => Descriptor { instr: Instruction::AND, mode: AddrMode::IndexedIndirect, cycles: 6 },
        0x24 => Descriptor { instr: Instruction::BIT, mode: AddrMode::ZeroPage, cycles: 3 },
        0x25 => Descriptor { instr: Instruction::AND, mode: AddrMode::ZeroPage, cycles: 3 },
        0x26 => Descriptor { instr: Instruction::ROL, mode: AddrMode::ZeroPage, cycles: 5 },
        0x28 => Descriptor { instr: Instruction::PLP, mode: AddrMode::Implicit, cycles: 4 },
        0x29 => Descriptor { instr: Instruction::AND, mode: AddrMode::Immediate, cycles: 2 },
        0x2A => Descriptor { instr: Instruction::ROL, mode: AddrMode::Accumulator, cycles: 2 },
        0x2C => Descriptor { instr: Instruction::BIT, mode: AddrMode::Absolute, cycles: 4 },
        0x2D => Descriptor { instr: Instruction::AND, mode: AddrMode::Absolute, cycles: 4 },
        0x2E => Descriptor { instr: Instruction::ROL, mode: AddrMode::Absolute, cycles: 6 },
        0x30 => Descriptor { instr: Instruction::BMI, mode: AddrMode::Relative, cycles: 2 },
        0x31 => Descriptor { instr: Instruction::AND, mode: AddrMode::IndirectIndexed, cycles: 5 },
        0x35 => Descriptor { instr: Instruction::AND, mode: AddrMode::ZeroPageX, cycles: 4 },
        0x36 => Descriptor { instr: Instruction::ROL, mode: AddrMode::ZeroPageX, cycles: 6 },
        0x38 => Descriptor { instr: Instruction::SEC, mode: AddrMode::Implicit, cycles: 2 },
        0x39 => Descriptor { instr: Instruction::AND, mode: AddrMode::AbsoluteY, cycles: 4 },
        0x3D => Descriptor { instr: Instruction::AND, mode: AddrMode::AbsoluteX, cycles: 4 },
        0x3E => Descriptor { instr: Instruction::ROL, mode: AddrMode::AbsoluteX, cycles: 7 },
        0x40 => Descriptor { instr: Instruction::RTI, mode: AddrMode::Implicit, cycles: 6 },
        0x41 => Descriptor { instr: Instruction::EOR, mode: AddrMode::IndexedIndirect, cycles: 6 },
        0x45 => Descriptor { instr: Instruction::EOR, mode: AddrMode::ZeroPage, cycles: 3 },
        0x46 => Descriptor { instr: Instruction::LSR, mode: AddrMode::ZeroPage, cycles: 5 },
        0x48 => Descriptor { instr: Instruction::PHA, mode: AddrMode::Implicit, cycles: 3 },
        0x49 => Descriptor { instr: Instruction::EOR, mode: AddrMode::Immediate, cycles: 2 },
        0x4A => Descriptor { instr: Instruction::LSR, mode: AddrMode::Accumulator, cycles: 2 },
        0x4C => Descriptor { instr: Instruction::JMP, mode: AddrMode::Absolute, cycles: 3 },
        0x4D => Descriptor { instr: Instruction::EOR, mode: AddrMode::Absolute, cycles: 4 },
        0x4E => Descriptor { instr: Instruction::LSR, mode: AddrMode::Absolute, cycles: 6 },
        0x50 => Descriptor { instr: Instruction::BVC, mode: AddrMode::Relative, cycles: 2 },
        0x51 => Descriptor { instr: Instruction::EOR, mode: AddrMode::IndirectIndexed, cycles: 5 },
        0x55 => Descriptor { instr: Instruction::EOR, mode: AddrMode::ZeroPageX, cycles: 4 },
        0x56 => Descriptor { instr: Instruction::LSR, mode: AddrMode::ZeroPageX, cycles: 6 },
        0x58 => Descriptor { instr: Instruction::CLI, mode: AddrMode::Implicit, cycles: 2 },
        0x59 => Descriptor { instr: Instruction::EOR, mode: AddrMode::AbsoluteY, cycles: 4 },
        0x5D => Descriptor { instr: Instruction::EOR, mode: AddrMode::AbsoluteX, cycles: 4 },
        0x5E => Descriptor { instr: Instruction::LSR, mode: AddrMode::AbsoluteX, cycles: 7 },
        0x60 => Descriptor { instr: Instruction::RTS, mode: AddrMode::Implicit, cycles: 6 },
        0x61 => Descriptor { instr: Instruction::ADC, mode: AddrMode::IndexedIndirect, cycles: 6 },
        0x65 => Descriptor { instr: Instruction::ADC, mode: AddrMode::ZeroPage, cycles: 3 },
        0x66 => Descriptor { instr: Instruction::ROR, mode: AddrMode::ZeroPage, cycles: 5 },
        0x68 => Descriptor { instr: Instruction::PLA, mode: AddrMode::Implicit, cycles: 4 },
        0x69 => Descriptor { instr: Instruction::ADC, mode: AddrMode::Immediate, cycles: 2 },
        0x6A => Descriptor { instr: Instruction::ROR, mode: AddrMode::Accumulator, cycles: 2 },
        0x6C => Descriptor { instr: Instruction::JMP, mode: AddrMode::Indirect, cycles: 5 },
        0x6D => Descriptor { instr: Instruction::ADC, mode: AddrMode::Absolute, cycles: 4 },
        0x6E => Descriptor { instr: Instruction::ROR, mode: AddrMode::Absolute, cycles: 6 },
        0x70 => Descriptor { instr: Instruction::BVS, mode: AddrMode::Relative, cycles: 2 },
        0x71 => Descriptor { instr: Instruction::ADC, mode: AddrMode::IndirectIndexed, cycles: 5 },
        0x75 => Descriptor { instr: Instruction::ADC, mode: AddrMode::ZeroPageX, cycles: 4 },
        0x76 => Descriptor { instr: Instruction::ROR, mode: AddrMode::ZeroPageX, cycles: 6 },
        0x78 => Descriptor { instr: Instruction::SEI, mode: AddrMode::Implicit, cycles: 2 },
        0x79 => Descriptor { instr: Instruction::ADC, mode: AddrMode::AbsoluteY, cycles: 4 },
        0x7D => Descriptor { instr: Instruction::ADC, mode: AddrMode::AbsoluteX, cycles: 4 },
        0x7E => Descriptor { instr: Instruction::ROR, mode: AddrMode::AbsoluteX, cycles: 7 },
        0x81 => Descriptor { instr: Instruction::STA, mode: AddrMode::IndexedIndirect, cycles: 6 },
        0x84 => Descriptor { instr: Instruction::STY, mode: AddrMode::ZeroPage, cycles: 3 },
        0x85 => Descriptor { instr: Instruction::STA, mode: AddrMode::ZeroPage, cycles: 3 },
        0x86 => Descriptor { instr: Instruction::STX, mode: AddrMode::ZeroPage, cycles: 3 },
        0x88 => Descriptor { instr: Instruction::DEY, mode: AddrMode::Implicit, cycles: 2 },
        0x8A => Descriptor { instr: Instruction::TXA, mode: AddrMode::Implicit, cycles: 2 },
        0x8C => Descriptor { instr: Instruction::STY, mode: AddrMode::Absolute, cycles: 4 },
        0x8D => Descriptor { instr: Instruction::STA, mode: AddrMode::Absolute, cycles: 4 },
        0x8E => Descriptor { instr: Instruction::STX, mode: AddrMode::Absolute, cycles: 4 },
        0x90 => Descriptor { instr: Instruction::BCC, mode: AddrMode::Relative, cycles: 2 },
        0x91 => Descriptor { instr: Instruction::STA, mode: AddrMode::IndirectIndexed, cycles: 6 },
        0x94 => Descriptor { instr: Instruction::STY, mode: AddrMode::ZeroPageX, cycles: 4 },
        0x95 => Descriptor { instr: Instruction::STA, mode: AddrMode::ZeroPageX, cycles: 4 },
        0x96 => Descriptor { instr: Instruction::STX, mode: AddrMode::ZeroPageY, cycles: 4 },
        0x98 => Descriptor { instr: Instruction::TYA, mode: AddrMode::Implicit, cycles: 2 },
        0x99 => Descriptor { instr: Instruction::STA, mode: AddrMode::AbsoluteY, cycles: 5 },
        0x9A => Descriptor { instr: Instruction::TXS, mode: AddrMode::Implicit, cycles: 2 },
        0x9D => Descriptor { instr: Instruction::STA, mode: AddrMode::AbsoluteX, cycles: 5 },
        0xA0 => Descriptor { instr: Instruction::LDY, mode: AddrMode::Immediate, cycles: 2 },
        0xA1 => Descriptor { instr: Instruction::LDA, mode: AddrMode::IndexedIndirect, cycles: 6 },
        0xA2 => Descriptor { instr: Instruction::LDX, mode: AddrMode::Immediate, cycles: 2 },
        0xA4 => Descriptor { instr: Instruction::LDY, mode: AddrMode::ZeroPage, cycles: 3 },
        0xA5 => Descriptor { instr: Instruction::LDA, mode: AddrMode::ZeroPage, cycles: 3 },
        0xA6 => Descriptor { instr: Instruction::LDX, mode: AddrMode::ZeroPage, cycles: 3 },
        0xA8 => Descriptor { instr: Instruction::TAY, mode: AddrMode::Implicit, cycles: 2 },
        0xA9 => Descriptor { instr: Instruction::LDA, mode: AddrMode::Immediate, cycles: 2 },
        0xAA => Descriptor { instr: Instruction::TAX, mode: AddrMode::Implicit, cycles: 2 },
        0xAC => Descriptor { instr: Instruction::LDY, mode: AddrMode::Absolute, cycles: 4 },
        0xAD => Descriptor { instr: Instruction::LDA, mode: AddrMode::Absolute, cycles: 4 },
        0xAE => Descriptor { instr: Instruction::LDX, mode: AddrMode::Absolute, cycles: 4 },
        0xB0 => Descriptor { instr: Instruction::BCS, mode: AddrMode::Relative, cycles: 2 },
        0xB1 => Descriptor { instr: Instruction::LDA, mode: AddrMode::IndirectIndexed, cycles: 5 },
        0xB4 => Descriptor { instr: Instruction::LDY, mode: AddrMode::ZeroPageX, cycles: 4 },
        0xB5 => Descriptor { instr: Instruction::LDA, mode: AddrMode::ZeroPageX, cycles: 4 },
        0xB6 => Descriptor { instr: Instruction::LDX, mode: AddrMode::ZeroPageY, cycles: 4 },
        0xB8 => Descriptor { instr: Instruction::CLV, mode: AddrMode::Implicit, cycles: 2 },
        0xB9 => Descriptor { instr: Instruction::LDA, mode: AddrMode::AbsoluteY, cycles: 4 },
        0xBA => Descriptor { instr: Instruction::TSX, mode: AddrMode::Implicit, cycles: 2 },
        0xBC => Descriptor { instr: Instruction::LDY, mode: AddrMode::AbsoluteX, cycles: 4 },
        0xBD => Descriptor { instr: Instruction::LDA, mode: AddrMode::AbsoluteX, cycles: 4 },
        0xBE => Descriptor { instr: Instruction::LDX, mode: AddrMode::AbsoluteY, cycles: 4 },
        0xC0 => Descriptor { instr: Instruction::CPY, mode: AddrMode::Immediate, cycles: 2 },
        0xC1 => Descriptor { instr: Instruction::CMP, mode: AddrMode::IndexedIndirect, cycles: 6 },
        0xC4 => Descriptor { instr: Instruction::CPY, mode: AddrMode::ZeroPage, cycles: 3 },
        0xC5 => Descriptor { instr: Instruction::CMP, mode: AddrMode::ZeroPage, cycles: 3 },
        0xC6 => Descriptor { instr: Instruction::DEC, mode: AddrMode::ZeroPage, cycles: 5 },
        0xC8 => Descriptor { instr: Instruction::INY, mode: AddrMode::Implicit, cycles: 2 },
        0xC9 => Descriptor { instr: Instruction::CMP, mode: AddrMode::Immediate, cycles: 2 },
        0xCA => Descriptor { instr: Instruction::DEX, mode: AddrMode::Implicit, cycles: 2 },
        0xCC => Descriptor { instr: Instruction::CPY, mode: AddrMode::Absolute, cycles: 4 },
        0xCD => Descriptor { instr: Instruction::CMP, mode: AddrMode::Absolute, cycles: 4 },
        0xCE => Descriptor { instr: Instruction::DEC, mode: AddrMode::Absolute, cycles: 6 },
        0xD0 => Descriptor { instr: Instruction::BNE, mode: AddrMode::Relative, cycles: 2 },
        0xD1 => Descriptor { instr: Instruction::CMP, mode: AddrMode::IndirectIndexed, cycles: 5 },
        0xD5 => Descriptor { instr: Instruction::CMP, mode: AddrMode::ZeroPageX, cycles: 4 },
        0xD6 => Descriptor { instr: Instruction::DEC, mode: AddrMode::ZeroPageX, cycles: 6 },
        0xD8 => Descriptor { instr: Instruction::CLD, mode: AddrMode::Implicit, cycles: 2 },
        0xD9 => Descriptor { instr: Instruction::CMP, mode: AddrMode::AbsoluteY, cycles: 4 },
        0xDD => Descriptor { instr: Instruction::CMP, mode: AddrMode::AbsoluteX, cycles: 4 },
        0xDE => Descriptor { instr: Instruction::DEC, mode: AddrMode::AbsoluteX, cycles: 7 },
        0xE0 => Descriptor { instr: Instruction::CPX, mode: AddrMode::Immediate, cycles: 2 },
        0xE1 => Descriptor { instr: Instruction::SBC, mode: AddrMode::IndexedIndirect, cycles: 6 },
        0xE4 => Descriptor { instr: Instruction::CPX, mode: AddrMode::ZeroPage, cycles: 3 },
        0xE5 => Descriptor { instr: Instruction::SBC, mode: AddrMode::ZeroPage, cycles: 3 },
        0xE6 => Descriptor { instr: Instruction::INC, mode: AddrMode::ZeroPage, cycles: 5 },
        0xE8 => Descriptor { instr: Instruction::INX, mode: AddrMode::Implicit, cycles: 2 },
        0xE9 => Descriptor { instr: Instruction::SBC, mode: AddrMode::Immediate, cycles: 2 },
        0xEA => Descriptor { instr: Instruction::NOP, mode: AddrMode::Implicit, cycles: 2 },
        0xEC => Descriptor { instr: Instruction::CPX, mode: AddrMode::Absolute, cycles: 4 },
        0xED => Descriptor { instr: Instruction::SBC, mode: AddrMode::Absolute, cycles: 4 },
        0xEE => Descriptor { instr: Instruction::INC, mode: AddrMode::Absolute, cycles: 6 },
        0xF0 => Descriptor { instr: Instruction::BEQ, mode: AddrMode::Relative, cycles: 2 },
        0xF1 => Descriptor { instr: Instruction::SBC, mode: AddrMode::IndirectIndexed, cycles: 5 },
        0xF5 => Descriptor { instr: Instruction::SBC, mode: AddrMode::ZeroPageX, cycles: 4 },
        0xF6 => Descriptor { instr: Instruction::INC, mode: AddrMode::ZeroPageX, cycles: 6 },
        0xF8 => Descriptor { instr: Instruction::SED, mode: AddrMode::Implicit, cycles: 2 },
        0xF9 => Descriptor { instr: Instruction::SBC, mode: AddrMode::AbsoluteY, cycles: 4 },
        0xFD => Descriptor { instr: Instruction::SBC, mode: AddrMode::AbsoluteX, cycles: 4 },
        0xFE => Descriptor { instr: Instruction::INC, mode: AddrMode::AbsoluteX, cycles: 7 },
        _ => Descriptor { instr: Instruction::XXX, mode: AddrMode::Implicit, cycles: 2 },
    }
}

/// The instructions that take one more cycle when indexing carries into the next page.
/// Stores and read-modify-write instructions never do: their base count already pays it.
pub open spec fn pays_page_penalty(i: Instruction) -> bool {
    match i {
        Instruction::LDA | Instruction::LDX | Instruction::LDY | Instruction::EOR | Instruction::AND | Instruction::ORA | Instruction::ADC | Instruction::SBC | Instruction::CMP => true,
        _ => false,
    }
}

pub fn page_penalty(i: Instruction) -> (r: bool)
    ensures
        r == pays_page_penalty(i),
{
    match i {
        Instruction::LDA | Instruction::LDX | Instruction::LDY | Instruction::EOR | Instruction::AND | Instruction::ORA | Instruction::ADC | Instruction::SBC | Instruction::CMP => true,
        _ => false,
    }
}

} // verus!
