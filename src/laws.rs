//! Properties of the instruction set, proved of the model that the engine
//! is verified against.
use vstd::prelude::*;
use crate::flags::{flag, lemma_with_flag, with_flag, with_zn, StatusFlag};
use crate::machine::{
    page, read, reset_state, resolve, same_page_next, step, ticks, word, wrap16, CpuState, Machine,
};
use crate::opcodes::{descriptor, pays_page_penalty, AddrMode};

verus! {

/// Zero and Negative follow the byte; every other flag is kept.
pub proof fn lemma_zn_flags(st: u8, v: u8, g: StatusFlag)
    ensures
        flag(with_zn(st, v), StatusFlag::Z) == (v == 0),
        flag(with_zn(st, v), StatusFlag::N) == (v >= 0x80),
        g != StatusFlag::Z && g != StatusFlag::N ==> flag(with_zn(st, v), g) == flag(st, g),
{
    let s1 = with_flag(st, StatusFlag::Z, v == 0);
    lemma_with_flag(st, StatusFlag::Z, g, v == 0);
    lemma_with_flag(st, StatusFlag::Z, StatusFlag::Z, v == 0);
    lemma_with_flag(s1, StatusFlag::N, g, v >= 0x80);
    lemma_with_flag(s1, StatusFlag::N, StatusFlag::Z, v >= 0x80);
    lemma_with_flag(s1, StatusFlag::N, StatusFlag::N, v >= 0x80);
}

/// Every instruction leaves the Unused bit set.
pub proof fn step_sets_unused(s: CpuState)
    requires
        s.mem.len() == 0x10000,
    ensures
        flag(step(s).0.status, StatusFlag::U),
{
    reveal(step);
    let d = descriptor(read(s, s.pc));
    let s1 = CpuState { pc: wrap16(s.pc + 1), ..s };
    let o = resolve(s1, d.mode);
    let r = crate::machine::execute(CpuState { pc: o.next_pc, ..s1 }, d.instr, o);
    lemma_with_flag(r.0.status, StatusFlag::U, StatusFlag::U, true);
}

/// `LDA #v` sets the accumulator to `v`, Zero exactly when `v` is zero and
/// Negative exactly when bit 7 of `v` is set, and keeps Carry and Overflow.
pub proof fn lda_immediate(s: CpuState, v: u8)
    requires
        s.mem.len() == 0x10000,
        read(s, s.pc) == 0xA9,
        read(s, wrap16(s.pc + 1)) == v,
    ensures
        step(s).0.a == v,
        flag(step(s).0.status, StatusFlag::Z) == (v == 0),
        flag(step(s).0.status, StatusFlag::N) == (v & 0x80 == 0x80),
        flag(step(s).0.status, StatusFlag::C) == flag(s.status, StatusFlag::C),
        flag(step(s).0.status, StatusFlag::V) == flag(s.status, StatusFlag::V),
        step(s).1 == 2,
{
    reveal(step);
    let st = with_zn(s.status, v);
    assert(step(s).0.status == with_flag(st, StatusFlag::U, true));
    assert((v & 0x80 == 0x80) == (v >= 0x80)) by (bit_vector);
    lemma_zn_flags(s.status, v, StatusFlag::C);
    lemma_zn_flags(s.status, v, StatusFlag::V);
    lemma_with_flag(st, StatusFlag::U, StatusFlag::Z, true);
    lemma_with_flag(st, StatusFlag::U, StatusFlag::N, true);
    lemma_with_flag(st, StatusFlag::U, StatusFlag::C, true);
    lemma_with_flag(st, StatusFlag::U, StatusFlag::V, true);
}

/// `ADC #b` with accumulator `a` and incoming Carry `c` leaves
/// `(a + b + c) mod 256` in the accumulator, sets Carry exactly when
/// `a + b + c > 255`, and sets Overflow exactly when `a` and `b` have the same
/// sign and the result a different one.
pub proof fn adc_immediate(s: CpuState, b: u8)
    requires
        s.mem.len() == 0x10000,
        read(s, s.pc) == 0x69,
        read(s, wrap16(s.pc + 1)) == b,
    ensures
        ({
            let c: int = if flag(s.status, StatusFlag::C) { 1 } else { 0 };
            let t = step(s).0;
            &&& t.a == (s.a + b + c) % 256
            &&& flag(t.status, StatusFlag::C) == (s.a + b + c > 255)
            &&& flag(t.status, StatusFlag::V) == ((s.a >= 0x80) == (b >= 0x80) && (t.a >= 0x80)
                != (s.a >= 0x80))
        }),
{
    reveal(step);
    let c: int = if flag(s.status, StatusFlag::C) { 1 } else { 0 };
    let sum = s.a + b + c;
    let r = (sum % 256) as u8;
    let overflow = (s.a >= 0x80) == (b >= 0x80) && (r >= 0x80) != (s.a >= 0x80);
    let s1 = with_flag(s.status, StatusFlag::C, sum > 0xFF);
    let s2 = with_flag(s1, StatusFlag::V, overflow);
    let s3 = with_zn(s2, r);
    assert(step(s).0.a == r);
    assert(step(s).0.status == with_flag(s3, StatusFlag::U, true));
    lemma_with_flag(s.status, StatusFlag::C, StatusFlag::C, sum > 0xFF);
    lemma_with_flag(s1, StatusFlag::V, StatusFlag::C, overflow);
    lemma_with_flag(s1, StatusFlag::V, StatusFlag::V, overflow);
    lemma_zn_flags(s2, r, StatusFlag::C);
    lemma_zn_flags(s2, r, StatusFlag::V);
    lemma_with_flag(s3, StatusFlag::U, StatusFlag::C, true);
    lemma_with_flag(s3, StatusFlag::U, StatusFlag::V, true);
}

/// Zero-page indexing wraps within page zero: the address is the base plus
/// the index modulo 256, so `$80` indexed by `$FF` is `$7F`.
pub proof fn zero_page_index_wraps(s: CpuState, mode: AddrMode)
    requires
        mode == AddrMode::ZeroPageX || mode == AddrMode::ZeroPageY,
    ensures
        resolve(s, mode).addr == (read(s, s.pc) + (if mode == AddrMode::ZeroPageX {
            s.x
        } else {
            s.y
        })) % 0x100,
        resolve(s, mode).addr < 0x100,
        mode == AddrMode::ZeroPageX && read(s, s.pc) == 0x80 && s.x == 0xFF ==> resolve(
            s,
            mode,
        ).addr == 0x7F,
{
}

/// `JMP ($xxFF)` takes the low byte of its target from `$xxFF` and the high
/// byte from `$xx00` of the same page.
pub proof fn jmp_indirect_same_page(s: CpuState)
    requires
        s.mem.len() == 0x10000,
        read(s, s.pc) == 0x6C,
    ensures
        ({
            let pc1 = wrap16(s.pc + 1);
            let p = word(read(s, pc1), read(s, wrap16(pc1 + 1)));
            p % 0x100 == 0xFF ==> step(s).0.pc == word(read(s, p), read(s, (p - 0xFF) as u16))
        }),
{
    reveal(step);
    let pc1 = wrap16(s.pc + 1);
    let p = word(read(s, pc1), read(s, wrap16(pc1 + 1)));
    if p % 0x100 == 0xFF {
        assert(same_page_next(p) == (p - 0xFF) as u16);
    }
}

/// An absolute-indexed read that carries into the next page costs exactly
/// one cycle more than its descriptor gives; one that stays costs none more.
pub proof fn indexed_page_cross_cost(s: CpuState)
    requires
        s.mem.len() == 0x10000,
        ({
            let d = descriptor(read(s, s.pc));
            (d.mode == AddrMode::AbsoluteX || d.mode == AddrMode::AbsoluteY) && pays_page_penalty(
                d.instr,
            )
        }),
    ensures
        ({
            let d = descriptor(read(s, s.pc));
            let pc1 = wrap16(s.pc + 1);
            let base = word(read(s, pc1), read(s, wrap16(pc1 + 1)));
            let t = wrap16(base + if d.mode == AddrMode::AbsoluteX { s.x } else { s.y });
            step(s).1 == d.cycles + if page(t) != page(base) { 1int } else { 0int }
        }),
{
    reveal(step);
}

/// An indexed store or read-modify-write costs exactly its descriptor's count,
/// whether or not indexing crosses a page: that count already pays for it.
pub proof fn indexed_without_penalty_cost(s: CpuState)
    requires
        s.mem.len() == 0x10000,
        ({
            let d = descriptor(read(s, s.pc));
            (d.mode == AddrMode::AbsoluteX || d.mode == AddrMode::AbsoluteY || d.mode
                == AddrMode::IndirectIndexed) && !pays_page_penalty(d.instr)
        }),
    ensures
        step(s).1 == descriptor(read(s, s.pc)).cycles,
{
    reveal(step);
}

/// After reset the program counter holds the reset vector, the stack pointer
/// is `$FD` and A, X and Y are zero; eight clock pulses then pass without a
/// fetch, and the ninth runs the first instruction.
pub proof fn reset_then_first_fetch(s: CpuState)
    requires
        s.mem.len() == 0x10000,
    ensures
        ({
            let r = reset_state(s);
            let m = Machine { cpu: r, cycles: 8, irq: false, nmi: false };
            &&& r.pc == word(read(s, 0xFFFC), read(s, 0xFFFD))
            &&& r.stkp == 0xFD && r.a == 0 && r.x == 0 && r.y == 0
            &&& ticks(m, 8) == Machine { cycles: 0, ..m }
            &&& ticks(m, 9) == Machine { cpu: step(r).0, cycles: (step(r).1 - 1) as u8, ..m }
        }),
{
    reveal_with_fuel(ticks, 10);
}

} // verus!
