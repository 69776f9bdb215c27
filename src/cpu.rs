//! The execution engine: fetch, decode, resolve, execute and count cycles.
use vstd::prelude::*;
use crate::flags::{flag, with_zn, StatusFlag};
use crate::machine::{
    add_with_carry, branch, compare, execute, indexed, interrupt, lemma_wrap16_step,
    lemma_wrap8_step, popped, push, read, reset_state, resolve, set_flag_to, shifted, step,
    stored_zn, tick, top, word, CpuState, Machine, Operand,
};
use crate::opcodes::{lookup, page_penalty, AddrMode, Instruction};
use crate::ram::RAM;

verus! {

/// The processor: its registers, the pulses still owed by the current
/// instruction, the interrupt requests waiting for it to retire, and the
/// memory on its bus.
pub struct CPU {
    a: u8,
    x: u8,
    y: u8,
    stkp: u8,
    pc: u16,
    status: u8,
    cycles: u8,
    clock_count: u32,
    irq_pending: bool,
    nmi_pending: bool,
    memory: RAM,
}

impl View for CPU {
    type V = CpuState;

    closed spec fn view(&self) -> CpuState {
        CpuState {
            a: self.a,
            x: self.x,
            y: self.y,
            stkp: self.stkp,
            pc: self.pc,
            status: self.status,
            mem: self.memory@,
        }
    }
}

/// `pc + 1`, wrapping at the end of the address space.
fn next_addr(pc: u16) -> (r: u16)
    ensures
        r == (pc + 1) % 0x10000,
{
    if pc == 0xFFFF {
        0
    } else {
        pc + 1
    }
}

fn index_by(base: u16, index: u8, next_pc: u16) -> (o: Operand)
    ensures
        o == indexed(base, index, next_pc),
{
    let t = ((base as u32 + index as u32) % 0x10000) as u16;
    Operand { addr: t, accumulator: false, crossed: t / 256 != base / 256, next_pc }
}

impl CPU {
    /// Memory spans the whole address space.
    pub open spec fn wf(&self) -> bool {
        self@.mem.len() == 0x10000
    }

    /// Pulses still owed by the current instruction or sequence.
    pub closed spec fn cycles_left(&self) -> u8 {
        self.cycles
    }

    /// Pulses counted since power-on, modulo 2^32.
    pub closed spec fn clocks(&self) -> u32 {
        self.clock_count
    }

    /// An IRQ arrived while pulses were owed and waits for the boundary.
    pub closed spec fn irq_latched(&self) -> bool {
        self.irq_pending
    }

    /// An NMI arrived while pulses were owed and waits for the boundary.
    pub closed spec fn nmi_latched(&self) -> bool {
        self.nmi_pending
    }

    /// The processor as the clock sees it.
    pub open spec fn machine(&self) -> Machine {
        Machine { cpu: self@, cycles: self.cycles_left(), irq: self.irq_latched(), nmi: self.nmi_latched() }
    }

    /// Neither counter nor request moved.
    pub open spec fn same_timing(&self, other: &CPU) -> bool {
        &&& self.cycles_left() == other.cycles_left()
        &&& self.clocks() == other.clocks()
        &&& self.irq_latched() == other.irq_latched()
        &&& self.nmi_latched() == other.nmi_latched()
    }

    /// Power-on: every register, counter and memory byte is zero.
    pub fn new() -> (r: CPU)
        ensures
            r.wf(),
            r@.a == 0 && r@.x == 0 && r@.y == 0 && r@.stkp == 0 && r@.pc == 0 && r@.status == 0,
            forall|i: int| 0 <= i < 0x10000 ==> #[trigger] r@.mem[i] == 0,
            r.cycles_left() == 0,
            r.clocks() == 0,
            !r.irq_latched() && !r.nmi_latched(),
    {
        CPU {
            a: 0,
            x: 0,
            y: 0,
            stkp: 0,
            pc: 0,
            status: 0,
            cycles: 0,
            clock_count: 0,
            irq_pending: false,
            nmi_pending: false,
            memory: RAM::new(),
        }
    }

    pub fn read(&self, addr: u16) -> (r: u8)
        requires
            self.wf(),
        ensures
            r == read(self@, addr),
    {
        self.memory.read(addr)
    }

    pub fn write(&mut self, addr: u16, data: u8)
        requires
            old(self).wf(),
        ensures
            final(self).wf(),
            final(self)@ == (CpuState { mem: old(self)@.mem.update(addr as int, data), ..old(self)@ }),
            final(self).same_timing(old(self)),
    {
        self.memory.write(addr, data)
    }

    /// Sets or clears exactly the bit of `flag`.
    pub fn set_flag(&mut self, flag: StatusFlag, val: bool)
        requires
            old(self).wf(),
        ensures
            final(self).wf(),
            final(self)@ == set_flag_to(old(self)@, flag, val),
            final(self).same_timing(old(self)),
    {
        if val {
            self.status = self.status | flag.as_u8();
        } else {
            self.status = self.status & !flag.as_u8();
        }
    }

    pub fn get_flag(&self, flag: StatusFlag) -> (r: bool)
        ensures
            r == crate::flags::flag(self@.status, flag),
    {
        self.status & flag.as_u8() != 0
    }

    fn set_zn(&mut self, v: u8)
        requires
            old(self).wf(),
        ensures
            final(self).wf(),
            final(self)@ == (CpuState { status: with_zn(old(self)@.status, v), ..old(self)@ }),
            final(self).same_timing(old(self)),
    {
        self.set_flag(StatusFlag::Z, v == 0);
        self.set_flag(StatusFlag::N, v >= 0x80);
    }

    /// The 16-bit little-endian value of the bytes at `lo` and `hi`.
    fn read_word(&self, lo: u16, hi: u16) -> (r: u16)
        requires
            self.wf(),
        ensures
            r == word(read(self@, lo), read(self@, hi)),
    {
        let l = self.read(lo) as u16;
        let h = self.read(hi) as u16;
        h * 256 + l
    }

    fn push(&mut self, v: u8)
        requires
            old(self).wf(),
        ensures
            final(self).wf(),
            final(self)@ == push(old(self)@, v),
            final(self).same_timing(old(self)),
    {
        self.write(0x100 + self.stkp as u16, v);
        self.stkp = if self.stkp == 0 {
            255
        } else {
            self.stkp - 1
        };
    }

    fn pull(&mut self) -> (r: u8)
        requires
            old(self).wf(),
        ensures
            final(self).wf(),
            r == top(old(self)@),
            final(self)@ == popped(old(self)@),
            final(self).same_timing(old(self)),
    {
        self.stkp = if self.stkp == 255 {
            0
        } else {
            self.stkp + 1
        };
        self.read(0x100 + self.stkp as u16)
    }

    /// Resolves the operand of the instruction whose opcode lies just before
    /// the program counter; reads memory but changes nothing.
    pub fn resolve(&self, mode: AddrMode) -> (o: Operand)
        requires
            self.wf(),
        ensures
            o == resolve(self@, mode),
    {
        let pc = self.pc;
        let pc1 = next_addr(pc);
        let pc2 = next_addr(pc1);
        match mode {
            AddrMode::Implicit => Operand { addr: 0, accumulator: false, crossed: false, next_pc: pc },
            AddrMode::Accumulator => Operand { addr: 0, accumulator: true, crossed: false, next_pc: pc },
            AddrMode::Immediate => Operand { addr: pc, accumulator: false, crossed: false, next_pc: pc1 },
            AddrMode::ZeroPage => {
                let b = self.read(pc);
                Operand { addr: b as u16, accumulator: false, crossed: false, next_pc: pc1 }
            },
            AddrMode::ZeroPageX => {
                let b = self.read(pc);
                let addr = (b as u16 + self.x as u16) % 256;
                Operand { addr, accumulator: false, crossed: false, next_pc: pc1 }
            },
            AddrMode::ZeroPageY => {
                let b = self.read(pc);
                let addr = (b as u16 + self.y as u16) % 256;
                Operand { addr, accumulator: false, crossed: false, next_pc: pc1 }
            },
            AddrMode::Relative => {
                let b = self.read(pc);
                let offset: u32 = if b < 0x80 {
                    b as u32
                } else {
                    b as u32 + 0xFF00
                };
                let t = ((pc1 as u32 + offset) % 0x10000) as u16;
                Operand { addr: t, accumulator: false, crossed: t / 256 != pc1 / 256, next_pc: pc1 }
            },
            AddrMode::Absolute => {
                let addr = self.read_word(pc, pc1);
                Operand { addr, accumulator: false, crossed: false, next_pc: pc2 }
            },
            AddrMode::AbsoluteX => index_by(self.read_word(pc, pc1), self.x, pc2),
            AddrMode::AbsoluteY => index_by(self.read_word(pc, pc1), self.y, pc2),
            AddrMode::Indirect => {
                let p = self.read_word(pc, pc1);
                let hi = ((p as u32 / 256) * 256 + (p as u32 + 1) % 256) as u16;
                let addr = self.read_word(p, hi);
                Operand { addr, accumulator: false, crossed: false, next_pc: pc2 }
            },
            AddrMode::IndexedIndirect => {
                let b = self.read(pc);
                let p = (b as u16 + self.x as u16) % 256;
                let addr = self.read_word(p, (p + 1) % 256);
                Operand { addr, accumulator: false, crossed: false, next_pc: pc1 }
            },
            AddrMode::IndirectIndexed => {
                let b = self.read(pc) as u16;
                let base = self.read_word(b, (b + 1) % 256);
                index_by(base, self.y, pc1)
            },
        }
    }

    fn add_with_carry(&mut self, m: u8)
        requires
            old(self).wf(),
        ensures
            final(self).wf(),
            final(self)@ == add_with_carry(old(self)@, m),
            final(self).same_timing(old(self)),
    {
        let c: u16 = if self.get_flag(StatusFlag::C) {
            1
        } else {
            0
        };
        let sum: u16 = self.a as u16 + m as u16 + c;
        let r = (sum % 256) as u8;
        let overflow = (self.a >= 0x80) == (m >= 0x80) && (r >= 0x80) != (self.a >= 0x80);
        self.set_flag(StatusFlag::C, sum > 0xFF);
        self.set_flag(StatusFlag::V, overflow);
        self.a = r;
        self.set_zn(r);
    }

    fn compare(&mut self, reg: u8, m: u8)
        requires
            old(self).wf(),
        ensures
            final(self).wf(),
            final(self)@ == compare(old(self)@, reg, m),
            final(self).same_timing(old(self)),
    {
        let d: u8 = if reg >= m {
            reg - m
        } else {
            (256 + reg as u16 - m as u16) as u8
        };
        self.set_flag(StatusFlag::C, reg >= m);
        self.set_flag(StatusFlag::Z, reg == m);
        self.set_flag(StatusFlag::N, d >= 0x80);
    }

    fn store_shifted(&mut self, o: Operand, r: u8, c: bool)
        requires
            old(self).wf(),
        ensures
            final(self).wf(),
            final(self)@ == shifted(old(self)@, o, r, c),
            final(self).same_timing(old(self)),
    {
        self.set_flag(StatusFlag::C, c);
        self.set_zn(r);
        if o.accumulator {
            self.a = r;
        } else {
            self.write(o.addr, r);
        }
    }

    fn store_zn(&mut self, addr: u16, r: u8)
        requires
            old(self).wf(),
        ensures
            final(self).wf(),
            final(self)@ == stored_zn(old(self)@, addr, r),
            final(self).same_timing(old(self)),
    {
        self.write(addr, r);
        self.set_zn(r);
    }

    fn branch(&mut self, o: Operand, cond: bool) -> (extra: u8)
        requires
            old(self).wf(),
        ensures
            final(self).wf(),
            (final(self)@, extra as int) == branch(old(self)@, o, cond),
            final(self).same_timing(old(self)),
    {
        if cond {
            self.pc = o.addr;
            if o.crossed {
                2
            } else {
                1
            }
        } else {
            0
        }
    }

    fn push_word(&mut self, v: u16)
        requires
            old(self).wf(),
        ensures
            final(self).wf(),
            final(self)@ == push(push(old(self)@, (v / 0x100) as u8), (v % 0x100) as u8),
            final(self).same_timing(old(self)),
    {
        self.push((v / 256) as u8);
        self.push((v % 256) as u8);
    }

    /// The byte a pull reads first, and the one after it, as a little-endian word.
    fn pull_word(&mut self) -> (r: u16)
        requires
            old(self).wf(),
        ensures
            final(self).wf(),
            r == word(top(old(self)@), top(popped(old(self)@))),
            final(self)@ == popped(popped(old(self)@)),
            final(self).same_timing(old(self)),
    {
        let lo = self.pull() as u16;
        let hi = self.pull() as u16;
        hi * 256 + lo
    }

    /// Arithmetic, logic, shifts and compares.
    fn execute_arith(&mut self, i: Instruction, o: Operand) -> (extra: u8)
        requires
            old(self).wf(),
            matches!(i, Instruction::ADC | Instruction::SBC | Instruction::AND | Instruction::ORA | Instruction::EOR | Instruction::ASL | Instruction::LSR | Instruction::ROL | Instruction::ROR | Instruction::BIT | Instruction::CMP | Instruction::CPX | Instruction::CPY),
        ensures
            final(self).wf(),
            (final(self)@, extra as int) == execute(old(self)@, i, o),
            extra <= 2,
            final(self).same_timing(old(self)),
    {
        let m = if o.accumulator {
            self.a
        } else {
            self.read(o.addr)
        };
        let c = self.get_flag(StatusFlag::C);
        match i {
            Instruction::ADC => self.add_with_carry(m),
            Instruction::SBC => self.add_with_carry(0xFF - m),
            Instruction::AND => {
                self.a = self.a & m;
                self.set_zn(self.a);
            },
            Instruction::ORA => {
                self.a = self.a | m;
                self.set_zn(self.a);
            },
            Instruction::EOR => {
                self.a = self.a ^ m;
                self.set_zn(self.a);
            },
            Instruction::ASL => self.store_shifted(o, ((m as u16 * 2) % 256) as u8, m >= 0x80),
            Instruction::LSR => self.store_shifted(o, m / 2, m % 2 == 1),
            Instruction::ROL => {
                let r = ((m as u16 * 2 + if c { 1 } else { 0 }) % 256) as u8;
                self.store_shifted(o, r, m >= 0x80);
            },
            Instruction::ROR => {
                let r = m / 2 + if c { 0x80 } else { 0 };
                self.store_shifted(o, r, m % 2 == 1);
            },
            Instruction::BIT => {
                self.set_flag(StatusFlag::Z, self.a & m == 0);
                self.set_flag(StatusFlag::N, m >= 0x80);
                self.set_flag(StatusFlag::V, m & 0x40 != 0);
            },
            Instruction::CMP => self.compare(self.a, m),
            Instruction::CPX => self.compare(self.x, m),
            Instruction::CPY => self.compare(self.y, m),
            _ => {},
        }
        0
    }

    /// Conditional branches.
    fn execute_flow(&mut self, i: Instruction, o: Operand) -> (extra: u8)
        requires
            old(self).wf(),
            matches!(i, Instruction::BCC | Instruction::BCS | Instruction::BNE | Instruction::BEQ | Instruction::BPL | Instruction::BMI | Instruction::BVC | Instruction::BVS),
        ensures
            final(self).wf(),
            (final(self)@, extra as int) == execute(old(self)@, i, o),
            extra <= 2,
            final(self).same_timing(old(self)),
    {
        let c = self.get_flag(StatusFlag::C);
        let z = self.get_flag(StatusFlag::Z);
        let n = self.get_flag(StatusFlag::N);
        let v = self.get_flag(StatusFlag::V);
        match i {
            Instruction::BCC => self.branch(o, !c),
            Instruction::BCS => self.branch(o, c),
            Instruction::BNE => self.branch(o, !z),
            Instruction::BEQ => self.branch(o, z),
            Instruction::BPL => self.branch(o, !n),
            Instruction::BMI => self.branch(o, n),
            Instruction::BVC => self.branch(o, !v),
            Instruction::BVS => self.branch(o, v),
            _ => {
                0
            },
        }
    }

    /// Jumps, calls, returns and BRK.
    fn execute_control(&mut self, i: Instruction, o: Operand) -> (extra: u8)
        requires
            old(self).wf(),
            matches!(i, Instruction::BRK | Instruction::JMP | Instruction::JSR | Instruction::RTS | Instruction::RTI),
        ensures
            final(self).wf(),
            (final(self)@, extra as int) == execute(old(self)@, i, o),
            extra <= 2,
            final(self).same_timing(old(self)),
    {
        proof {
            lemma_wrap16_step(self.pc);
            lemma_wrap16_step(word(top(self@), top(popped(self@))));
        }
        match i {
            Instruction::BRK => {
                let st = self.status;
                self.push_word(next_addr(self.pc));
                self.push(st | StatusFlag::B.as_u8() | StatusFlag::U.as_u8());
                self.set_flag(StatusFlag::I, true);
                self.set_flag(StatusFlag::B, false);
                self.pc = self.read_word(0xFFFE, 0xFFFF);
                0
            },
            Instruction::JMP => {
                self.pc = o.addr;
                0
            },
            Instruction::JSR => {
                self.push_word(if self.pc == 0 { 0xFFFF } else { self.pc - 1 });
                self.pc = o.addr;
                0
            },
            Instruction::RTS => {
                let ret = self.pull_word();
                self.pc = next_addr(ret);
                0
            },
            Instruction::RTI => {
                let st = self.pull();
                let ret = self.pull_word();
                self.status = st;
                self.pc = ret;
                0
            },
            _ => {
                0
            },
        }
    }

    /// Loads and stores.
    fn execute_memory(&mut self, i: Instruction, o: Operand) -> (extra: u8)
        requires
            old(self).wf(),
            matches!(i, Instruction::LDA | Instruction::LDX | Instruction::LDY | Instruction::STA | Instruction::STX | Instruction::STY),
        ensures
            final(self).wf(),
            (final(self)@, extra as int) == execute(old(self)@, i, o),
            extra <= 2,
            final(self).same_timing(old(self)),
    {
        let m = if o.accumulator {
            self.a
        } else {
            self.read(o.addr)
        };
        match i {
            Instruction::LDA => {
                self.a = m;
                self.set_zn(m);
            },
            Instruction::LDX => {
                self.x = m;
                self.set_zn(m);
            },
            Instruction::LDY => {
                self.y = m;
                self.set_zn(m);
            },
            Instruction::STA => self.write(o.addr, self.a),
            Instruction::STX => self.write(o.addr, self.x),
            Instruction::STY => self.write(o.addr, self.y),
            _ => {},
        }
        0
    }

    /// Increments and decrements.
    fn execute_counter(&mut self, i: Instruction, o: Operand) -> (extra: u8)
        requires
            old(self).wf(),
            matches!(i, Instruction::DEC | Instruction::INC | Instruction::DEX | Instruction::DEY | Instruction::INX | Instruction::INY),
        ensures
            final(self).wf(),
            (final(self)@, extra as int) == execute(old(self)@, i, o),
            extra <= 2,
            final(self).same_timing(old(self)),
    {
        let m = if o.accumulator {
            self.a
        } else {
            self.read(o.addr)
        };
        proof {
            lemma_wrap8_step(m);
            lemma_wrap8_step(self.x);
            lemma_wrap8_step(self.y);
        }
        match i {
            Instruction::DEC => self.store_zn(o.addr, if m == 0 { 255 } else { m - 1 }),
            Instruction::INC => self.store_zn(o.addr, if m == 255 { 0 } else { m + 1 }),
            Instruction::DEX => {
                self.x = if self.x == 0 { 255 } else { self.x - 1 };
                self.set_zn(self.x);
            },
            Instruction::DEY => {
                self.y = if self.y == 0 { 255 } else { self.y - 1 };
                self.set_zn(self.y);
            },
            Instruction::INX => {
                self.x = if self.x == 255 { 0 } else { self.x + 1 };
                self.set_zn(self.x);
            },
            Instruction::INY => {
                self.y = if self.y == 255 { 0 } else { self.y + 1 };
                self.set_zn(self.y);
            },
            _ => {},
        }
        0
    }

    /// Flag changes, stack, transfers and no-ops.
    fn execute_system(&mut self, i: Instruction, o: Operand) -> (extra: u8)
        requires
            old(self).wf(),
            matches!(i, Instruction::CLC | Instruction::CLD | Instruction::CLI | Instruction::CLV | Instruction::SEC | Instruction::SED | Instruction::SEI | Instruction::PHA | Instruction::PHP | Instruction::PLA | Instruction::PLP | Instruction::TAX | Instruction::TAY | Instruction::TXA | Instruction::TYA | Instruction::TSX | Instruction::TXS | Instruction::NOP | Instruction::XXX),
        ensures
            final(self).wf(),
            (final(self)@, extra as int) == execute(old(self)@, i, o),
            extra <= 2,
            final(self).same_timing(old(self)),
    {
        let m = if o.accumulator {
            self.a
        } else {
            self.read(o.addr)
        };
        match i {
            Instruction::CLC => self.set_flag(StatusFlag::C, false),
            Instruction::CLD => self.set_flag(StatusFlag::D, false),
            Instruction::CLI => self.set_flag(StatusFlag::I, false),
            Instruction::CLV => self.set_flag(StatusFlag::V, false),
            Instruction::SEC => self.set_flag(StatusFlag::C, true),
            Instruction::SED => self.set_flag(StatusFlag::D, true),
            Instruction::SEI => self.set_flag(StatusFlag::I, true),
            Instruction::PHA => self.push(self.a),
            Instruction::PHP => self.push(self.status | StatusFlag::B.as_u8() | StatusFlag::U.as_u8()),
            Instruction::PLA => {
                self.a = self.pull();
                self.set_zn(self.a);
            },
            Instruction::PLP => self.status = self.pull(),
            Instruction::TAX => {
                self.x = self.a;
                self.set_zn(self.x);
            },
            Instruction::TAY => {
                self.y = self.a;
                self.set_zn(self.y);
            },
            Instruction::TXA => {
                self.a = self.x;
                self.set_zn(self.a);
            },
            Instruction::TYA => {
                self.a = self.y;
                self.set_zn(self.a);
            },
            Instruction::TSX => {
                self.x = self.stkp;
                self.set_zn(self.x);
            },
            Instruction::TXS => self.stkp = self.x,
            Instruction::NOP | Instruction::XXX => {},
            _ => {},
        }
        0
    }

    /// Executes `i` on its resolved operand, the program counter already past
    /// the operand; returns the cycles earned by a taken branch.
    fn execute(&mut self, i: Instruction, o: Operand) -> (extra: u8)
        requires
            old(self).wf(),
        ensures
            final(self).wf(),
            (final(self)@, extra as int) == execute(old(self)@, i, o),
            extra <= 2,
            final(self).same_timing(old(self)),
    {
        match i {
            Instruction::ADC | Instruction::SBC | Instruction::AND | Instruction::ORA | Instruction::EOR | Instruction::ASL | Instruction::LSR | Instruction::ROL | Instruction::ROR | Instruction::BIT | Instruction::CMP | Instruction::CPX | Instruction::CPY => self.execute_arith(i, o),
            Instruction::BCC | Instruction::BCS | Instruction::BNE | Instruction::BEQ | Instruction::BPL | Instruction::BMI | Instruction::BVC | Instruction::BVS => self.execute_flow(i, o),
            Instruction::BRK | Instruction::JMP | Instruction::JSR | Instruction::RTS | Instruction::RTI => self.execute_control(i, o),
            Instruction::DEC | Instruction::INC | Instruction::DEX | Instruction::DEY | Instruction::INX | Instruction::INY => self.execute_counter(i, o),
            Instruction::LDA | Instruction::LDX | Instruction::LDY | Instruction::STA | Instruction::STX | Instruction::STY => self.execute_memory(i, o),
            Instruction::CLC | Instruction::CLD | Instruction::CLI | Instruction::CLV | Instruction::SEC | Instruction::SED | Instruction::SEI | Instruction::PHA | Instruction::PHP | Instruction::PLA | Instruction::PLP | Instruction::TAX | Instruction::TAY | Instruction::TXA | Instruction::TYA | Instruction::TSX | Instruction::TXS | Instruction::NOP | Instruction::XXX => self.execute_system(i, o),
        }
    }
    /// Fetches, decodes, resolves and executes the instruction at the program
    /// counter; returns the clock pulses it takes.
    fn step(&mut self) -> (n: u8)
        requires
            old(self).wf(),
        ensures
            final(self).wf(),
            (final(self)@, n as int) == step(old(self)@),
            2 <= n <= 10,
            final(self).same_timing(old(self)),
    {
        proof {
            lemma_wrap16_step(self.pc);
            reveal(step);
        }
        let d = lookup(self.read(self.pc));
        self.pc = next_addr(self.pc);
        let o = self.resolve(d.mode);
        self.pc = o.next_pc;
        let extra = self.execute(d.instr, o);
        let penalty: u8 = if page_penalty(d.instr) && o.crossed {
            1
        } else {
            0
        };
        self.set_flag(StatusFlag::U, true);
        d.cycles + penalty + extra
    }

    /// One clock pulse: see `tick`.
    pub fn clock(&mut self)
        requires
            old(self).wf(),
        ensures
            final(self).wf(),
            final(self).machine() == tick(old(self).machine()),
            final(self).clocks() == (old(self).clocks() + 1) % 0x1_0000_0000,
    {
        if self.cycles != 0 {
            self.cycles = self.cycles - 1;
        } else if self.nmi_pending {
            self.interrupt(0xFFFA);
            self.cycles = 7;
            self.nmi_pending = false;
        } else if self.irq_pending && !self.get_flag(StatusFlag::I) {
            self.interrupt(0xFFFE);
            self.cycles = 6;
            self.irq_pending = false;
        } else {
            let n = self.step();
            self.cycles = n - 1;
            self.irq_pending = false;
        }
        self.clock_count = if self.clock_count == 0xFFFF_FFFF {
            0
        } else {
            self.clock_count + 1
        };
    }

    /// Loads the program counter from the reset vector, clears A, X and Y,
    /// sets the stack pointer to `$FD` and the status to Unused alone; owes
    /// 8 pulses before the first fetch and drops waiting requests. The stack
    /// is not touched.
    pub fn reset(&mut self)
        requires
            old(self).wf(),
        ensures
            final(self).wf(),
            final(self).machine() == (Machine { cpu: reset_state(old(self)@), cycles: 8, irq: false, nmi: false }),
            final(self).clocks() == old(self).clocks(),
    {
        self.pc = self.read_word(0xFFFC, 0xFFFD);
        self.a = 0;
        self.x = 0;
        self.y = 0;
        self.stkp = 0xFD;
        self.status = StatusFlag::U.as_u8();
        self.cycles = 8;
        self.irq_pending = false;
        self.nmi_pending = false;
    }

    /// Pushes the program counter and status, masks interrupts, and jumps
    /// through `vector`.
    fn interrupt(&mut self, vector: u16)
        requires
            old(self).wf(),
            vector == 0xFFFE || vector == 0xFFFA,
        ensures
            final(self).wf(),
            final(self)@ == interrupt(old(self)@, vector),
            final(self).same_timing(old(self)),
    {
        proof {
            lemma_wrap16_step(vector);
        }
        self.push_word(self.pc);
        self.set_flag(StatusFlag::B, false);
        self.set_flag(StatusFlag::U, true);
        self.set_flag(StatusFlag::I, true);
        self.push(self.status);
        self.pc = self.read_word(vector, vector + 1);
    }

    /// A maskable interrupt request, ignored while Interrupt-disable is set.
    /// At an instruction boundary it is taken at once, through the vector at
    /// `$FFFE`, owing 7 pulses; while pulses are owed it waits for the
    /// boundary.
    pub fn irq(&mut self)
        requires
            old(self).wf(),
        ensures
            final(self).wf(),
            flag(old(self)@.status, StatusFlag::I) ==> final(self).machine() == old(self).machine(),
            !flag(old(self)@.status, StatusFlag::I) && old(self).cycles_left() == 0 ==> final(self).machine() == (Machine { cpu: interrupt(old(self)@, 0xFFFE), cycles: 7, ..old(self).machine() }),
            !flag(old(self)@.status, StatusFlag::I) && old(self).cycles_left() != 0 ==> final(self).machine() == (Machine { irq: true, ..old(self).machine() }),
            final(self).clocks() == old(self).clocks(),
    {
        if !self.get_flag(StatusFlag::I) {
            if self.cycles == 0 {
                self.interrupt(0xFFFE);
                self.cycles = 7;
            } else {
                self.irq_pending = true;
            }
        }
    }

    /// A non-maskable interrupt request. At an instruction boundary it is
    /// taken at once, through the vector at `$FFFA`, owing 8 pulses; while
    /// pulses are owed it waits for the boundary.
    pub fn nmi(&mut self)
        requires
            old(self).wf(),
        ensures
            final(self).wf(),
            old(self).cycles_left() == 0 ==> final(self).machine() == (Machine {
                cpu: interrupt(old(self)@, 0xFFFA),
                cycles: 8,
                ..old(self).machine()
            }),
            old(self).cycles_left() != 0 ==> final(self).machine() == (Machine {
                nmi: true,
                ..old(self).machine()
            }),
            final(self).clocks() == old(self).clocks(),
    {
        if self.cycles == 0 {
            self.interrupt(0xFFFA);
            self.cycles = 8;
        } else {
            self.nmi_pending = true;
        }
    }

    pub fn a(&self) -> (r: u8)
        ensures
            r == self@.a,
    {
        self.a
    }

    pub fn x(&self) -> (r: u8)
        ensures
            r == self@.x,
    {
        self.x
    }

    pub fn y(&self) -> (r: u8)
        ensures
            r == self@.y,
    {
        self.y
    }

    pub fn stkp(&self) -> (r: u8)
        ensures
            r == self@.stkp,
    {
        self.stkp
    }

    pub fn pc(&self) -> (r: u16)
        ensures
            r == self@.pc,
    {
        self.pc
    }

    pub fn status(&self) -> (r: u8)
        ensures
            r == self@.status,
    {
        self.status
    }

    /// Pulses still owed before the next fetch.
    pub fn cycles(&self) -> (r: u8)
        ensures
            r == self.cycles_left(),
    {
        self.cycles
    }

    /// An IRQ waits for the current instruction to retire.
    pub fn irq_pending(&self) -> (r: bool)
        ensures
            r == self.irq_latched(),
    {
        self.irq_pending
    }

    /// An NMI waits for the current instruction to retire.
    pub fn nmi_pending(&self) -> (r: bool)
        ensures
            r == self.nmi_latched(),
    {
        self.nmi_pending
    }

    pub fn clock_count(&self) -> (r: u32)
        ensures
            r == self.clocks(),
    {
        self.clock_count
    }

    /// Points the program counter at `pc`, as a test harness does before it
    /// starts the clock.
    pub fn set_pc(&mut self, pc: u16)
        requires
            old(self).wf(),
        ensures
            final(self).wf(),
            final(self)@ == (CpuState { pc, ..old(self)@ }),
            final(self).same_timing(old(self)),
    {
        self.pc = pc;
    }
}

} // verus!
