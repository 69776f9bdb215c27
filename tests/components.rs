use em_6502::cpu::CPU;
use em_6502::flags::StatusFlag;
use em_6502::opcodes::{lookup, page_penalty, AddrMode, Descriptor, Instruction};
use em_6502::ram::RAM;

#[test]
fn status_flag_masks() {
    let masks = [
        (StatusFlag::C, 0x01),
        (StatusFlag::Z, 0x02),
        (StatusFlag::I, 0x04),
        (StatusFlag::D, 0x08),
        (StatusFlag::B, 0x10),
        (StatusFlag::U, 0x20),
        (StatusFlag::V, 0x40),
        (StatusFlag::N, 0x80),
    ];
    for (f, m) in masks {
        assert_eq!(f.as_u8(), m);
    }
}

#[test]
fn set_flag_touches_one_bit() {
    let mut cpu = CPU::new();
    cpu.set_flag(StatusFlag::V, true);
    cpu.set_flag(StatusFlag::C, true);
    assert_eq!(cpu.status(), 0x41);
    cpu.set_flag(StatusFlag::V, false);
    assert_eq!(cpu.status(), 0x01);
    assert!(cpu.get_flag(StatusFlag::C));
    assert!(!cpu.get_flag(StatusFlag::V));
}

#[test]
fn lookup_decodes_documented_opcodes() {
    assert_eq!(
        lookup(0xA9),
        Descriptor { instr: Instruction::LDA, mode: AddrMode::Immediate, cycles: 2 }
    );
    assert_eq!(
        lookup(0x6C),
        Descriptor { instr: Instruction::JMP, mode: AddrMode::Indirect, cycles: 5 }
    );
    assert_eq!(
        lookup(0x91),
        Descriptor { instr: Instruction::STA, mode: AddrMode::IndirectIndexed, cycles: 6 }
    );
    assert_eq!(
        lookup(0xB6),
        Descriptor { instr: Instruction::LDX, mode: AddrMode::ZeroPageY, cycles: 4 }
    );
    assert_eq!(
        lookup(0x00),
        Descriptor { instr: Instruction::BRK, mode: AddrMode::Implicit, cycles: 7 }
    );
}

#[test]
fn lookup_is_total() {
    let mut documented = 0;
    for op in 0..=255u8 {
        let d = lookup(op);
        assert!((2..=7).contains(&d.cycles));
        if d.instr != Instruction::XXX {
            documented += 1;
        } else {
            assert_eq!(d.mode, AddrMode::Implicit);
            assert_eq!(d.cycles, 2);
        }
    }
    assert_eq!(documented, 151);
}

#[test]
fn page_penalty_is_for_reads_only() {
    assert!(page_penalty(Instruction::LDA));
    assert!(page_penalty(Instruction::CMP));
    assert!(!page_penalty(Instruction::STA));
    assert!(!page_penalty(Instruction::INC));
    assert!(!page_penalty(Instruction::ASL));
}

#[test]
fn ram_reads_back_writes() {
    let mut ram = RAM::new();
    assert_eq!(ram.read(0xFFFF), 0);
    ram.write(0xFFFF, 0xAB);
    ram.write(0x0000, 0xCD);
    assert_eq!(ram.read(0xFFFF), 0xAB);
    assert_eq!(ram.read(0x0000), 0xCD);
    assert_eq!(ram.read(0x1234), 0);
}

#[test]
fn new_cpu_is_zeroed() {
    let cpu = CPU::new();
    assert_eq!((cpu.a(), cpu.x(), cpu.y(), cpu.stkp(), cpu.pc(), cpu.status()), (0, 0, 0, 0, 0, 0));
    assert_eq!(cpu.cycles(), 0);
    assert_eq!(cpu.clock_count(), 0);
    assert_eq!(cpu.read(0xBEEF), 0);
}

fn after_reset() -> CPU {
    let mut cpu = CPU::new();
    cpu.write(0xFFFC, 0x34);
    cpu.write(0xFFFD, 0x12);
    cpu.write(0xFFFE, 0x00);
    cpu.write(0xFFFF, 0x90);
    cpu.write(0xFFFA, 0x00);
    cpu.write(0xFFFB, 0x80);
    cpu.reset();
    for _ in 0..8 {
        cpu.clock();
    }
    assert_eq!(cpu.cycles(), 0);
    cpu
}

#[test]
fn irq_is_taken_when_enabled() {
    let mut cpu = after_reset();
    cpu.set_flag(StatusFlag::B, true);
    cpu.irq();
    assert_eq!(cpu.pc(), 0x9000);
    assert_eq!(cpu.cycles(), 7);
    assert_eq!(cpu.stkp(), 0xFA);
    assert_eq!(cpu.read(0x01FD), 0x12);
    assert_eq!(cpu.read(0x01FC), 0x34);
    assert_eq!(cpu.read(0x01FB), 0x24);
    assert!(cpu.get_flag(StatusFlag::I));
}

#[test]
fn irq_is_ignored_when_masked() {
    let mut cpu = after_reset();
    cpu.set_flag(StatusFlag::I, true);
    cpu.irq();
    assert_eq!(cpu.pc(), 0x1234);
    assert_eq!(cpu.stkp(), 0xFD);
    assert_eq!(cpu.cycles(), 0);
    assert!(!cpu.irq_pending());
}

#[test]
fn nmi_ignores_the_mask() {
    let mut cpu = after_reset();
    cpu.set_flag(StatusFlag::I, true);
    cpu.nmi();
    assert_eq!(cpu.pc(), 0x8000);
    assert_eq!(cpu.cycles(), 8);
    assert_eq!(cpu.stkp(), 0xFA);
    assert_eq!(cpu.read(0x01FB), 0x24);
}

#[test]
fn stack_pointer_wraps() {
    let mut cpu = after_reset();
    // after reset the stack pointer is $FD; with it at $00 a push wraps to $FF
    cpu.write(0x1234, 0xA2); // LDX #$00
    cpu.write(0x1235, 0x00);
    cpu.write(0x1236, 0x9A); // TXS
    cpu.write(0x1237, 0x48); // PHA
    for _ in 0..(2 + 2 + 3) {
        cpu.clock();
    }
    assert_eq!(cpu.stkp(), 0xFF);
    assert_eq!(cpu.read(0x0100), 0x00);
}

#[test]
fn irq_waits_for_the_instruction_to_retire() {
    let mut cpu = after_reset();
    cpu.write(0x1234, 0xA9); // LDA #$01
    cpu.write(0x1235, 0x01);
    cpu.clock();
    assert_eq!(cpu.cycles(), 1);
    cpu.irq();
    assert!(cpu.irq_pending());
    assert_eq!(cpu.pc(), 0x1236);
    assert_eq!(cpu.stkp(), 0xFD);
    cpu.clock();
    assert_eq!(cpu.pc(), 0x1236);
    cpu.clock();
    assert!(!cpu.irq_pending());
    assert_eq!(cpu.pc(), 0x9000);
    assert_eq!(cpu.cycles(), 6);
    assert_eq!(cpu.read(0x01FD), 0x12);
    assert_eq!(cpu.read(0x01FC), 0x36);
    assert_eq!(cpu.a(), 0x01);
}

#[test]
fn deferred_irq_is_dropped_if_masked_by_then() {
    let mut cpu = after_reset();
    cpu.write(0x1234, 0xEA); // NOP
    cpu.write(0x1235, 0xEA); // NOP
    cpu.clock();
    cpu.irq();
    assert!(cpu.irq_pending());
    cpu.set_flag(StatusFlag::I, true);
    cpu.clock();
    cpu.clock();
    assert_eq!(cpu.pc(), 0x1236);
    assert!(!cpu.irq_pending());
}

#[test]
fn nmi_waits_for_the_instruction_to_retire() {
    let mut cpu = after_reset();
    cpu.write(0x1234, 0xEA); // NOP
    cpu.clock();
    cpu.nmi();
    assert!(cpu.nmi_pending());
    assert_eq!(cpu.pc(), 0x1235);
    cpu.clock();
    cpu.clock();
    assert!(!cpu.nmi_pending());
    assert_eq!(cpu.pc(), 0x8000);
    assert_eq!(cpu.cycles(), 7);
}
