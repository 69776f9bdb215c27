//! The processor as mathematics: what one instruction, one interrupt and one
//! clock pulse do to the visible state.
use vstd::prelude::*;
use crate::flags::{flag, with_flag, with_zn, StatusFlag};
use crate::opcodes::{descriptor, pays_page_penalty, AddrMode, Instruction};

verus! {

/// The visible state: registers and the whole of memory.
pub struct CpuState {
    pub a: u8,
    pub x: u8,
    pub y: u8,
    pub stkp: u8,
    pub pc: u16,
    pub status: u8,
    pub mem: Seq<u8>,
}

/// Where an instruction's operand lies, as the addressing unit resolves it.
#[derive(Clone, Copy, PartialEq, Eq, Structural, Debug)]
pub struct Operand {
    /// The effective address (for a branch, its target).
    pub addr: u16,
    /// The operand is the accumulator itself.
    pub accumulator: bool,
    /// Indexing, or a taken branch, lands on another page than the base.
    pub crossed: bool,
    /// The program counter after the operand bytes.
    pub next_pc: u16,
}

pub open spec fn wrap8(v: int) -> u8 {
    (v % 0x100) as u8
}

pub open spec fn wrap16(v: int) -> u16 {
    (v % 0x10000) as u16
}

/// The 16-bit value of two little-endian bytes.
pub open spec fn word(lo: u8, hi: u8) -> u16 {
    (hi * 0x100 + lo) as u16
}

/// The value of a branch offset as a two's-complement byte.
pub open spec fn signed(b: u8) -> int {
    if b < 0x80 {
        b as int
    } else {
        b - 0x100
    }
}

pub open spec fn page(addr: u16) -> int {
    addr as int / 0x100
}

pub open spec fn read(s: CpuState, addr: u16) -> u8 {
    s.mem[addr as int]
}

/// The address just after `p` within the same page: where the indirect jump
/// takes its high byte from.
pub open spec fn same_page_next(p: u16) -> u16 {
    (page(p) * 0x100 + (p + 1) % 0x100) as u16
}

/// An address offset by an index register, with the page-crossing report.
pub open spec fn indexed(base: u16, index: u8, next_pc: u16) -> Operand {
    let t = wrap16(base + index);
    Operand { addr: t, accumulator: false, crossed: page(t) != page(base), next_pc }
}

/// Resolves the operand of an instruction whose opcode lies just before `s.pc`.
pub open spec fn resolve(s: CpuState, mode: AddrMode) -> Operand {
    let pc = s.pc;
    let pc1 = wrap16(pc + 1);
    let pc2 = wrap16(pc + 2);
    let b1 = read(s, pc);
    let b2 = read(s, pc1);
    let at = |addr: u16, next_pc: u16|
        Operand { addr, accumulator: false, crossed: false, next_pc };
    match mode {
        AddrMode::Implicit => at(0, pc),
        AddrMode::Accumulator => Operand { addr: 0, accumulator: true, crossed: false, next_pc: pc },
        AddrMode::Immediate => at(pc, pc1),
        AddrMode::ZeroPage => at(b1 as u16, pc1),
        AddrMode::ZeroPageX => at(wrap8(b1 + s.x) as u16, pc1),
        AddrMode::ZeroPageY => at(wrap8(b1 + s.y) as u16, pc1),
        AddrMode::Relative => {
            let t = wrap16(pc1 + signed(b1));
            Operand { addr: t, accumulator: false, crossed: page(t) != page(pc1), next_pc: pc1 }
        },
        AddrMode::Absolute => at(word(b1, b2), pc2),
        AddrMode::AbsoluteX => indexed(word(b1, b2), s.x, pc2),
        AddrMode::AbsoluteY => indexed(word(b1, b2), s.y, pc2),
        AddrMode::Indirect => {
            let p = word(b1, b2);
            at(word(read(s, p), read(s, same_page_next(p))), pc2)
        },
        AddrMode::IndexedIndirect => {
            let p = wrap8(b1 + s.x);
            at(word(read(s, p as u16), read(s, wrap8(p + 1) as u16)), pc1)
        },
        AddrMode::IndirectIndexed => {
            let base = word(read(s, b1 as u16), read(s, wrap8(b1 + 1) as u16));
            indexed(base, s.y, pc1)
        },
    }
}

pub open spec fn with_status(s: CpuState, status: u8) -> CpuState {
    CpuState { status, ..s }
}

pub open spec fn carry(s: CpuState) -> int {
    if flag(s.status, StatusFlag::C) {
        1
    } else {
        0
    }
}

/// Writes `v` at the top of the stack and moves the stack pointer down.
pub open spec fn push(s: CpuState, v: u8) -> CpuState {
    CpuState { mem: s.mem.update(0x100 + s.stkp, v), stkp: wrap8(s.stkp - 1), ..s }
}

/// The stack pointer after one pull.
pub open spec fn popped(s: CpuState) -> CpuState {
    CpuState { stkp: wrap8(s.stkp + 1), ..s }
}

/// The byte that one pull reads.
pub open spec fn top(s: CpuState) -> u8 {
    s.mem[0x100 + wrap8(s.stkp + 1)]
}

/// Addition of `m` and the Carry flag to the accumulator, in binary: the
/// Decimal flag is kept as a flag but does not change the arithmetic.
pub open spec fn add_with_carry(s: CpuState, m: u8) -> CpuState {
    let sum = s.a + m + carry(s);
    let r = wrap8(sum);
    let overflow = (s.a >= 0x80) == (m >= 0x80) && (r >= 0x80) != (s.a >= 0x80);
    let st = with_flag(with_flag(s.status, StatusFlag::C, sum > 0xFF), StatusFlag::V, overflow);
    CpuState { a: r, status: with_zn(st, r), ..s }
}

/// Flags of `reg - m`, the result discarded.
pub open spec fn compare(s: CpuState, reg: u8, m: u8) -> CpuState {
    let st = with_flag(s.status, StatusFlag::C, reg >= m);
    let st = with_flag(st, StatusFlag::Z, reg == m);
    with_status(s, with_flag(st, StatusFlag::N, wrap8(reg - m) >= 0x80))
}

/// Stores the result of a shift or rotate, with Carry from the bit shifted out.
pub open spec fn shifted(s: CpuState, o: Operand, r: u8, c: bool) -> CpuState {
    let st = with_zn(with_flag(s.status, StatusFlag::C, c), r);
    if o.accumulator {
        CpuState { a: r, status: st, ..s }
    } else {
        CpuState { mem: s.mem.update(o.addr as int, r), status: st, ..s }
    }
}

/// Writes `r` at the operand address and sets Zero and Negative from it.
pub open spec fn stored_zn(s: CpuState, addr: u16, r: u8) -> CpuState {
    CpuState { mem: s.mem.update(addr as int, r), status: with_zn(s.status, r), ..s }
}

/// A branch taken when `cond` holds, with its extra cycles.
pub open spec fn branch(s: CpuState, o: Operand, cond: bool) -> (CpuState, int) {
    if cond {
        (CpuState { pc: o.addr, ..s }, if o.crossed { 2int } else { 1int })
    } else {
        (s, 0int)
    }
}

pub open spec fn set_flag_to(s: CpuState, f: StatusFlag, v: bool) -> CpuState {
    with_status(s, with_flag(s.status, f, v))
}

/// The status byte that PHP and BRK push: Break and Unused forced set.
pub open spec fn pushed_status(status: u8) -> u8 {
    with_flag(with_flag(status, StatusFlag::B, true), StatusFlag::U, true)
}

/// Executes `i` on its resolved operand, with `s.pc` already past the operand.
/// Gives the new state and the cycles earned by a taken branch.
pub open spec fn execute(s: CpuState, i: Instruction, o: Operand) -> (CpuState, int) {
    let m = if o.accumulator { s.a } else { read(s, o.addr) };
    let st = s.status;
    match i {
        Instruction::ADC => (add_with_carry(s, m), 0),
        Instruction::SBC => (add_with_carry(s, (0xFF - m) as u8), 0),
        Instruction::AND => (CpuState { a: s.a & m, status: with_zn(st, s.a & m), ..s }, 0),
        Instruction::ORA => (CpuState { a: s.a | m, status: with_zn(st, s.a | m), ..s }, 0),
        Instruction::EOR => (CpuState { a: s.a ^ m, status: with_zn(st, s.a ^ m), ..s }, 0),
        Instruction::ASL => (shifted(s, o, wrap8(m * 2), m >= 0x80), 0),
        Instruction::LSR => (shifted(s, o, m / 2, m % 2 == 1), 0),
        Instruction::ROL => (shifted(s, o, wrap8(m * 2 + carry(s)), m >= 0x80), 0),
        Instruction::ROR => (shifted(s, o, (m / 2 + carry(s) * 0x80) as u8, m % 2 == 1), 0),
        Instruction::BIT => {
            let st = with_flag(st, StatusFlag::Z, s.a & m == 0);
            let st = with_flag(st, StatusFlag::N, m >= 0x80);
            (with_status(s, with_flag(st, StatusFlag::V, m & 0x40 != 0)), 0)
        },
        Instruction::BCC => branch(s, o, !flag(st, StatusFlag::C)),
        Instruction::BCS => branch(s, o, flag(st, StatusFlag::C)),
        Instruction::BNE => branch(s, o, !flag(st, StatusFlag::Z)),
        Instruction::BEQ => branch(s, o, flag(st, StatusFlag::Z)),
        Instruction::BPL => branch(s, o, !flag(st, StatusFlag::N)),
        Instruction::BMI => branch(s, o, flag(st, StatusFlag::N)),
        Instruction::BVC => branch(s, o, !flag(st, StatusFlag::V)),
        Instruction::BVS => branch(s, o, flag(st, StatusFlag::V)),
        Instruction::BRK => {
            let ret = wrap16(s.pc + 1);
            let s1 = push(push(s, (ret / 0x100) as u8), (ret % 0x100) as u8);
            let s2 = push(s1, pushed_status(st));
            let s3 = set_flag_to(set_flag_to(s2, StatusFlag::I, true), StatusFlag::B, false);
            (CpuState { pc: word(read(s3, 0xFFFE), read(s3, 0xFFFF)), ..s3 }, 0)
        },
        Instruction::CLC => (set_flag_to(s, StatusFlag::C, false), 0),
        Instruction::CLD => (set_flag_to(s, StatusFlag::D, false), 0),
        Instruction::CLI => (set_flag_to(s, StatusFlag::I, false), 0),
        Instruction::CLV => (set_flag_to(s, StatusFlag::V, false), 0),
        Instruction::SEC => (set_flag_to(s, StatusFlag::C, true), 0),
        Instruction::SED => (set_flag_to(s, StatusFlag::D, true), 0),
        Instruction::SEI => (set_flag_to(s, StatusFlag::I, true), 0),
        Instruction::CMP => (compare(s, s.a, m), 0),
        Instruction::CPX => (compare(s, s.x, m), 0),
        Instruction::CPY => (compare(s, s.y, m), 0),
        Instruction::DEC => (stored_zn(s, o.addr, wrap8(m - 1)), 0),
        Instruction::INC => (stored_zn(s, o.addr, wrap8(m + 1)), 0),
        Instruction::DEX => (CpuState { x: wrap8(s.x - 1), status: with_zn(st, wrap8(s.x - 1)), ..s }, 0),
        Instruction::DEY => (CpuState { y: wrap8(s.y - 1), status: with_zn(st, wrap8(s.y - 1)), ..s }, 0),
        Instruction::INX => (CpuState { x: wrap8(s.x + 1), status: with_zn(st, wrap8(s.x + 1)), ..s }, 0),
        Instruction::INY => (CpuState { y: wrap8(s.y + 1), status: with_zn(st, wrap8(s.y + 1)), ..s }, 0),
        Instruction::JMP => (CpuState { pc: o.addr, ..s }, 0),
        Instruction::JSR => {
            let ret = wrap16(s.pc - 1);
            let s1 = push(push(s, (ret / 0x100) as u8), (ret % 0x100) as u8);
            (CpuState { pc: o.addr, ..s1 }, 0)
        },
        Instruction::RTS => {
            let s1 = popped(s);
            let s2 = popped(s1);
            (CpuState { pc: wrap16(word(top(s), top(s1)) + 1), ..s2 }, 0)
        },
        Instruction::RTI => {
            let s1 = popped(s);
            let s2 = popped(s1);
            let s3 = popped(s2);
            (CpuState { status: top(s), pc: word(top(s1), top(s2)), ..s3 }, 0)
        },
        Instruction::LDA => (CpuState { a: m, status: with_zn(st, m), ..s }, 0),
        Instruction::LDX => (CpuState { x: m, status: with_zn(st, m), ..s }, 0),
        Instruction::LDY => (CpuState { y: m, status: with_zn(st, m), ..s }, 0),
        Instruction::STA => (CpuState { mem: s.mem.update(o.addr as int, s.a), ..s }, 0),
        Instruction::STX => (CpuState { mem: s.mem.update(o.addr as int, s.x), ..s }, 0),
        Instruction::STY => (CpuState { mem: s.mem.update(o.addr as int, s.y), ..s }, 0),
        Instruction::PHA => (push(s, s.a), 0),
        Instruction::PHP => (push(s, pushed_status(st)), 0),
        Instruction::PLA => (CpuState { a: top(s), status: with_zn(st, top(s)), ..popped(s) }, 0),
        Instruction::PLP => (CpuState { status: top(s), ..popped(s) }, 0),
        Instruction::TAX => (CpuState { x: s.a, status: with_zn(st, s.a), ..s }, 0),
        Instruction::TAY => (CpuState { y: s.a, status: with_zn(st, s.a), ..s }, 0),
        Instruction::TXA => (CpuState { a: s.x, status: with_zn(st, s.x), ..s }, 0),
        Instruction::TYA => (CpuState { a: s.y, status: with_zn(st, s.y), ..s }, 0),
        Instruction::TSX => (CpuState { x: s.stkp, status: with_zn(st, s.stkp), ..s }, 0),
        Instruction::TXS => (CpuState { stkp: s.x, ..s }, 0),
        Instruction::NOP | Instruction::XXX => (s, 0),
    }
}

/// One whole instruction at `s.pc`: the state after it, with Unused set, and
/// the clock pulses it takes.
#[verifier::opaque]
pub open spec fn step(s: CpuState) -> (CpuState, int) {
    let d = descriptor(read(s, s.pc));
    let s1 = CpuState { pc: wrap16(s.pc + 1), ..s };
    let o = resolve(s1, d.mode);
    let r = execute(CpuState { pc: o.next_pc, ..s1 }, d.instr, o);
    let penalty = if pays_page_penalty(d.instr) && o.crossed { 1int } else { 0int };
    (set_flag_to(r.0, StatusFlag::U, true), d.cycles + penalty + r.1)
}

/// The processor as the clock sees it: the visible state, the pulses still
/// owed by the current instruction or sequence, and the interrupt requests
/// that arrived while pulses were owed.
pub struct Machine {
    pub cpu: CpuState,
    pub cycles: u8,
    pub irq: bool,
    pub nmi: bool,
}

/// One clock pulse. While pulses are owed, one passes and nothing else
/// changes. At an instruction boundary a deferred NMI is served first, then a
/// deferred IRQ if Interrupt-disable is still clear; otherwise the next
/// instruction runs whole. The pulse that starts a sequence counts as its
/// first.
pub open spec fn tick(m: Machine) -> Machine {
    if m.cycles != 0 {
        Machine { cycles: (m.cycles - 1) as u8, ..m }
    } else if m.nmi {
        Machine { cpu: interrupt(m.cpu, 0xFFFA), cycles: 7, nmi: false, ..m }
    } else if m.irq && !flag(m.cpu.status, StatusFlag::I) {
        Machine { cpu: interrupt(m.cpu, 0xFFFE), cycles: 6, irq: false, ..m }
    } else {
        let r = step(m.cpu);
        Machine { cpu: r.0, cycles: (r.1 - 1) as u8, irq: false, ..m }
    }
}

/// `n` clock pulses.
pub open spec fn ticks(m: Machine, n: nat) -> Machine
    decreases n,
{
    if n == 0 {
        m
    } else {
        ticks(tick(m), (n - 1) as nat)
    }
}

/// The state after the reset sequence.
pub open spec fn reset_state(s: CpuState) -> CpuState {
    CpuState {
        a: 0,
        x: 0,
        y: 0,
        stkp: 0xFD,
        status: StatusFlag::U.mask(),
        pc: word(read(s, 0xFFFC), read(s, 0xFFFD)),
        ..s
    }
}

/// Pushes the program counter and status, masks interrupts, and jumps
/// through the vector at `vector`.
pub open spec fn interrupt(s: CpuState, vector: u16) -> CpuState {
    let s1 = push(push(s, (s.pc / 0x100) as u8), (s.pc % 0x100) as u8);
    let st = with_flag(with_flag(with_flag(s.status, StatusFlag::B, false), StatusFlag::U, true), StatusFlag::I, true);
    let s2 = push(with_status(s1, st), st);
    CpuState { pc: word(read(s2, vector), read(s2, wrap16(vector + 1))), ..s2 }
}

/// Stepping a byte by one wraps at either end.
pub proof fn lemma_wrap8_step(v: u8)
    ensures
        wrap8(v + 1) == (if v == 0xFF { 0 } else { v + 1 }),
        wrap8(v - 1) == (if v == 0 { 0xFF } else { v - 1 }),
{
}

/// Stepping an address by one wraps at either end.
pub proof fn lemma_wrap16_step(v: u16)
    ensures
        wrap16(v + 1) == (if v == 0xFFFF { 0 } else { v + 1 }),
        wrap16(v - 1) == (if v == 0 { 0xFFFF } else { v - 1 }),
{
}

} // verus!
