use em_6502::cpu::CPU;
use em_6502::flags::StatusFlag;

/// A CPU with `program` at `$0400` and the program counter on it.
fn with_program(program: &[u8]) -> CPU {
    let mut cpu = CPU::new();
    for (i, b) in program.iter().enumerate() {
        cpu.write(0x0400 + i as u16, *b);
    }
    cpu.set_pc(0x0400);
    cpu
}

/// Runs one whole instruction and returns the pulses it took.
fn run_one(cpu: &mut CPU) -> u32 {
    assert_eq!(cpu.cycles(), 0);
    cpu.clock();
    let mut n = 1;
    while cpu.cycles() > 0 {
        cpu.clock();
        n += 1;
    }
    n
}

fn lda_immediate_case(v: u8, carry: bool, overflow: bool) {
    let mut cpu = with_program(&[0xA9, v]);
    cpu.set_flag(StatusFlag::C, carry);
    cpu.set_flag(StatusFlag::V, overflow);
    assert_eq!(run_one(&mut cpu), 2);
    assert_eq!(cpu.a(), v);
    assert_eq!(cpu.get_flag(StatusFlag::Z), v == 0);
    assert_eq!(cpu.get_flag(StatusFlag::N), v & 0x80 != 0);
    assert_eq!(cpu.get_flag(StatusFlag::C), carry);
    assert_eq!(cpu.get_flag(StatusFlag::V), overflow);
    assert_eq!(cpu.pc(), 0x0402);
}

#[test]
fn lda_immediate_sets_zero_and_negative() {
    lda_immediate_case(0x00, false, true);
    lda_immediate_case(0x42, true, false);
    lda_immediate_case(0x80, true, true);
    lda_immediate_case(0xFF, false, false);
}

/// ADC #b after loading `a`, with the given incoming carry.
fn adc_case(a: u8, b: u8, carry: bool) -> CPU {
    let mut cpu = with_program(&[0xA9, a, 0x69, b]);
    run_one(&mut cpu);
    cpu.set_flag(StatusFlag::C, carry);
    assert_eq!(run_one(&mut cpu), 2);
    cpu
}

#[test]
fn adc_signed_overflow() {
    let cpu = adc_case(0x50, 0x50, false);
    assert_eq!(cpu.a(), 0xA0);
    assert!(!cpu.get_flag(StatusFlag::C));
    assert!(cpu.get_flag(StatusFlag::V));
    assert!(cpu.get_flag(StatusFlag::N));
}

#[test]
fn adc_unsigned_carry_to_zero() {
    let cpu = adc_case(0xFF, 0x01, false);
    assert_eq!(cpu.a(), 0x00);
    assert!(cpu.get_flag(StatusFlag::C));
    assert!(cpu.get_flag(StatusFlag::Z));
    assert!(!cpu.get_flag(StatusFlag::V));
}

#[test]
fn adc_adds_incoming_carry() {
    let cpu = adc_case(0x01, 0x01, true);
    assert_eq!(cpu.a(), 0x03);
    assert!(!cpu.get_flag(StatusFlag::C));
    let cpu = adc_case(0x80, 0x80, true);
    assert_eq!(cpu.a(), 0x01);
    assert!(cpu.get_flag(StatusFlag::C));
    assert!(cpu.get_flag(StatusFlag::V));
}

#[test]
fn adc_law_holds_exhaustively_for_some_operands() {
    for a in [0x00u8, 0x01, 0x7F, 0x80, 0xC3, 0xFF] {
        for b in [0x00u8, 0x01, 0x7F, 0x80, 0x3C, 0xFF] {
            for c in [false, true] {
                let cpu = adc_case(a, b, c);
                let sum = a as u32 + b as u32 + c as u32;
                assert_eq!(cpu.a() as u32, sum % 256);
                assert_eq!(cpu.get_flag(StatusFlag::C), sum > 255);
                let r = cpu.a();
                let v = (a & 0x80) == (b & 0x80) && (r & 0x80) != (a & 0x80);
                assert_eq!(cpu.get_flag(StatusFlag::V), v);
            }
        }
    }
}

#[test]
fn sbc_subtracts_with_borrow() {
    // SEC; LDA #$50; SBC #$F0
    let mut cpu = with_program(&[0x38, 0xA9, 0x50, 0xE9, 0xF0, 0xE9, 0xB0]);
    run_one(&mut cpu);
    run_one(&mut cpu);
    run_one(&mut cpu);
    assert_eq!(cpu.a(), 0x60);
    assert!(!cpu.get_flag(StatusFlag::C));
    assert!(!cpu.get_flag(StatusFlag::V));
    // SBC #$B0 with the borrow from before: 0x60 - 0xB0 - 1
    run_one(&mut cpu);
    assert_eq!(cpu.a(), 0xAF);
    assert!(!cpu.get_flag(StatusFlag::C));
    assert!(cpu.get_flag(StatusFlag::V));
}

#[test]
fn zero_page_x_wraps_within_page_zero() {
    // LDX #$FF; LDA $80,X
    let mut cpu = with_program(&[0xA2, 0xFF, 0xB5, 0x80]);
    cpu.write(0x007F, 0x11);
    cpu.write(0x017F, 0x22);
    run_one(&mut cpu);
    assert_eq!(run_one(&mut cpu), 4);
    assert_eq!(cpu.a(), 0x11);
}

#[test]
fn jmp_indirect_reads_high_byte_from_same_page() {
    let mut cpu = with_program(&[0x6C, 0xFF, 0x02]);
    cpu.write(0x02FF, 0x34);
    cpu.write(0x0200, 0x12);
    cpu.write(0x0300, 0x56);
    assert_eq!(run_one(&mut cpu), 5);
    assert_eq!(cpu.pc(), 0x1234);
}

#[test]
fn absolute_x_page_cross_costs_one_cycle() {
    // LDX #$20; LDA $10F0,X  (crosses into $1110)
    let mut cpu = with_program(&[0xA2, 0x20, 0xBD, 0xF0, 0x10]);
    cpu.write(0x1110, 0x99);
    run_one(&mut cpu);
    assert_eq!(run_one(&mut cpu), 5);
    assert_eq!(cpu.a(), 0x99);
    // LDX #$01; LDA $10F0,X  (stays in page $10)
    let mut cpu = with_program(&[0xA2, 0x01, 0xBD, 0xF0, 0x10]);
    run_one(&mut cpu);
    assert_eq!(run_one(&mut cpu), 4);
}

#[test]
fn absolute_y_page_cross_costs_one_cycle() {
    // LDY #$FF; LDA $20FF,Y
    let mut cpu = with_program(&[0xA0, 0xFF, 0xB9, 0xFF, 0x20]);
    cpu.write(0x21FE, 0x5A);
    run_one(&mut cpu);
    assert_eq!(run_one(&mut cpu), 5);
    assert_eq!(cpu.a(), 0x5A);
}

#[test]
fn stores_never_pay_the_page_penalty() {
    // LDX #$20; STA $10F0,X ; LDX #$01; STA $10F0,X
    let mut cpu = with_program(&[0xA2, 0x20, 0x9D, 0xF0, 0x10, 0xA2, 0x01, 0x9D, 0xF0, 0x10]);
    run_one(&mut cpu);
    assert_eq!(run_one(&mut cpu), 5);
    run_one(&mut cpu);
    assert_eq!(run_one(&mut cpu), 5);
}

#[test]
fn indirect_indexed_crossing_pays() {
    // LDY #$10; LDA ($40),Y with ($40) = $30F8
    let mut cpu = with_program(&[0xA0, 0x10, 0xB1, 0x40]);
    cpu.write(0x0040, 0xF8);
    cpu.write(0x0041, 0x30);
    cpu.write(0x3108, 0x77);
    run_one(&mut cpu);
    assert_eq!(run_one(&mut cpu), 6);
    assert_eq!(cpu.a(), 0x77);
}

#[test]
fn indexed_indirect_pointer_wraps_in_page_zero() {
    // LDX #$01; LDA ($FE,X): pointer at $FF/$00
    let mut cpu = with_program(&[0xA2, 0x01, 0xA1, 0xFE]);
    cpu.write(0x00FF, 0x00);
    cpu.write(0x0000, 0x30);
    cpu.write(0x3000, 0xAB);
    run_one(&mut cpu);
    assert_eq!(run_one(&mut cpu), 6);
    assert_eq!(cpu.a(), 0xAB);
}

#[test]
fn reset_loads_vector_and_waits_eight_pulses() {
    let mut cpu = CPU::new();
    cpu.write(0xFFFC, 0x00);
    cpu.write(0xFFFD, 0x06);
    cpu.write(0x0600, 0xE8); // INX
    cpu.reset();
    assert_eq!(cpu.pc(), 0x0600);
    assert_eq!(cpu.stkp(), 0xFD);
    assert_eq!((cpu.a(), cpu.x(), cpu.y()), (0, 0, 0));
    assert_eq!(cpu.status(), 0x20);
    for _ in 0..8 {
        cpu.clock();
        assert_eq!(cpu.pc(), 0x0600);
    }
    assert_eq!(cpu.cycles(), 0);
    cpu.clock();
    assert_eq!(cpu.pc(), 0x0601);
    assert_eq!(cpu.x(), 1);
    assert_eq!(cpu.clock_count(), 9);
}

#[test]
fn branch_cycles() {
    // BNE +2, not taken after LDA #0
    let mut cpu = with_program(&[0xA9, 0x00, 0xD0, 0x02]);
    run_one(&mut cpu);
    assert_eq!(run_one(&mut cpu), 2);
    assert_eq!(cpu.pc(), 0x0404);
    // BEQ +2, taken within the page
    let mut cpu = with_program(&[0xA9, 0x00, 0xF0, 0x02]);
    run_one(&mut cpu);
    assert_eq!(run_one(&mut cpu), 3);
    assert_eq!(cpu.pc(), 0x0406);
    // BEQ -6, taken back into page $03
    let mut cpu = with_program(&[0xA9, 0x00, 0xF0, 0xFA]);
    run_one(&mut cpu);
    assert_eq!(run_one(&mut cpu), 4);
    assert_eq!(cpu.pc(), 0x03FE);
}

#[test]
fn jsr_and_rts_round_trip() {
    // JSR $0500; at $0500: RTS
    let mut cpu = with_program(&[0x20, 0x00, 0x05, 0xEA]);
    cpu.write(0x0500, 0x60);
    assert_eq!(run_one(&mut cpu), 6);
    assert_eq!(cpu.pc(), 0x0500);
    assert_eq!(cpu.stkp(), 0xFE);
    assert_eq!(cpu.read(0x0100), 0x04);
    assert_eq!(cpu.read(0x01FF), 0x02);
    assert_eq!(run_one(&mut cpu), 6);
    assert_eq!(cpu.pc(), 0x0403);
    assert_eq!(cpu.stkp(), 0x00);
}

#[test]
fn stack_push_and_pull() {
    // LDX #$FF; TXS; LDA #$80; PHA; LDA #$00; PLA; PHP; PLP
    let mut cpu = with_program(&[0xA2, 0xFF, 0x9A, 0xA9, 0x80, 0x48, 0xA9, 0x00, 0x68, 0x08, 0x28]);
    for _ in 0..4 {
        run_one(&mut cpu);
    }
    assert_eq!(cpu.stkp(), 0xFE);
    assert_eq!(cpu.read(0x01FF), 0x80);
    run_one(&mut cpu);
    assert_eq!(run_one(&mut cpu), 4);
    assert_eq!(cpu.a(), 0x80);
    assert!(cpu.get_flag(StatusFlag::N));
    assert_eq!(cpu.stkp(), 0xFF);
    assert_eq!(run_one(&mut cpu), 3);
    assert_eq!(cpu.read(0x01FF), cpu.status() | 0x30);
    run_one(&mut cpu);
    assert_eq!(cpu.stkp(), 0xFF);
    assert!(cpu.get_flag(StatusFlag::B));
    assert!(cpu.get_flag(StatusFlag::U));
}

#[test]
fn compare_sets_carry_zero_negative() {
    // LDA #$40; CMP #$40; CMP #$41; CMP #$10
    let mut cpu = with_program(&[0xA9, 0x40, 0xC9, 0x40, 0xC9, 0x41, 0xC9, 0x10]);
    run_one(&mut cpu);
    run_one(&mut cpu);
    assert!(cpu.get_flag(StatusFlag::C) && cpu.get_flag(StatusFlag::Z) && !cpu.get_flag(StatusFlag::N));
    run_one(&mut cpu);
    assert!(!cpu.get_flag(StatusFlag::C) && !cpu.get_flag(StatusFlag::Z) && cpu.get_flag(StatusFlag::N));
    run_one(&mut cpu);
    assert!(cpu.get_flag(StatusFlag::C) && !cpu.get_flag(StatusFlag::Z) && !cpu.get_flag(StatusFlag::N));
    assert_eq!(cpu.a(), 0x40);
}

#[test]
fn shifts_and_rotates() {
    // LDA #$81; ASL A; ROR A; LSR A; ROL A
    let mut cpu = with_program(&[0xA9, 0x81, 0x0A, 0x6A, 0x4A, 0x2A]);
    run_one(&mut cpu);
    run_one(&mut cpu);
    assert_eq!(cpu.a(), 0x02);
    assert!(cpu.get_flag(StatusFlag::C));
    run_one(&mut cpu);
    assert_eq!(cpu.a(), 0x81);
    assert!(!cpu.get_flag(StatusFlag::C));
    run_one(&mut cpu);
    assert_eq!(cpu.a(), 0x40);
    assert!(cpu.get_flag(StatusFlag::C));
    run_one(&mut cpu);
    assert_eq!(cpu.a(), 0x81);
    assert!(!cpu.get_flag(StatusFlag::C));
}

#[test]
fn memory_shift_and_increment_wrap() {
    // ASL $10; INC $11; DEC $12
    let mut cpu = with_program(&[0x06, 0x10, 0xE6, 0x11, 0xC6, 0x12]);
    cpu.write(0x0010, 0xC0);
    cpu.write(0x0011, 0xFF);
    cpu.write(0x0012, 0x00);
    assert_eq!(run_one(&mut cpu), 5);
    assert_eq!(cpu.read(0x0010), 0x80);
    assert!(cpu.get_flag(StatusFlag::C));
    run_one(&mut cpu);
    assert_eq!(cpu.read(0x0011), 0x00);
    assert!(cpu.get_flag(StatusFlag::Z));
    run_one(&mut cpu);
    assert_eq!(cpu.read(0x0012), 0xFF);
    assert!(cpu.get_flag(StatusFlag::N));
}

#[test]
fn register_counters_wrap() {
    // DEX; INY; DEY; DEY
    let mut cpu = with_program(&[0xCA, 0xC8, 0x88, 0x88]);
    run_one(&mut cpu);
    assert_eq!(cpu.x(), 0xFF);
    run_one(&mut cpu);
    assert_eq!(cpu.y(), 0x01);
    run_one(&mut cpu);
    assert!(cpu.get_flag(StatusFlag::Z));
    run_one(&mut cpu);
    assert_eq!(cpu.y(), 0xFF);
}

#[test]
fn logic_and_bit() {
    // LDA #$F0; AND #$3C; ORA #$01; EOR #$FF; BIT $20
    let mut cpu = with_program(&[0xA9, 0xF0, 0x29, 0x3C, 0x09, 0x01, 0x49, 0xFF, 0x24, 0x20]);
    cpu.write(0x0020, 0xC0);
    run_one(&mut cpu);
    run_one(&mut cpu);
    assert_eq!(cpu.a(), 0x30);
    run_one(&mut cpu);
    assert_eq!(cpu.a(), 0x31);
    run_one(&mut cpu);
    assert_eq!(cpu.a(), 0xCE);
    run_one(&mut cpu);
    assert_eq!(cpu.a(), 0xCE);
    assert!(!cpu.get_flag(StatusFlag::Z));
    assert!(cpu.get_flag(StatusFlag::N));
    assert!(cpu.get_flag(StatusFlag::V));
}

#[test]
fn transfers() {
    // LDA #$80; TAX; TAY; LDA #0; TXA; TSX
    let mut cpu = with_program(&[0xA9, 0x80, 0xAA, 0xA8, 0xA9, 0x00, 0x8A, 0xBA]);
    for _ in 0..5 {
        run_one(&mut cpu);
    }
    assert_eq!((cpu.a(), cpu.x(), cpu.y()), (0x80, 0x80, 0x80));
    run_one(&mut cpu);
    assert_eq!(cpu.x(), cpu.stkp());
    assert!(cpu.get_flag(StatusFlag::Z));
}

#[test]
fn flag_instructions() {
    // SEC; SED; SEI; CLC; CLD; CLI
    let mut cpu = with_program(&[0x38, 0xF8, 0x78, 0x18, 0xD8, 0x58]);
    for _ in 0..3 {
        run_one(&mut cpu);
    }
    assert_eq!(cpu.status(), 0x2D);
    for _ in 0..3 {
        run_one(&mut cpu);
    }
    assert_eq!(cpu.status(), 0x20);
}

#[test]
fn brk_and_rti() {
    let mut cpu = with_program(&[0x00, 0xEA, 0xEA]);
    cpu.write(0xFFFE, 0x00);
    cpu.write(0xFFFF, 0x07);
    cpu.write(0x0700, 0x40); // RTI
    cpu.set_flag(StatusFlag::C, true);
    assert_eq!(run_one(&mut cpu), 7);
    assert_eq!(cpu.pc(), 0x0700);
    assert!(cpu.get_flag(StatusFlag::I));
    assert_eq!(cpu.read(0x0100), 0x04);
    assert_eq!(cpu.read(0x01FF), 0x02);
    assert_eq!(cpu.read(0x01FE), 0x31);
    assert_eq!(run_one(&mut cpu), 6);
    assert_eq!(cpu.pc(), 0x0402);
    assert!(cpu.get_flag(StatusFlag::C));
}

#[test]
fn undocumented_opcode_is_a_two_cycle_no_op() {
    let mut cpu = with_program(&[0x02, 0xA9, 0x07]);
    assert_eq!(run_one(&mut cpu), 2);
    assert_eq!(cpu.pc(), 0x0401);
    run_one(&mut cpu);
    assert_eq!(cpu.a(), 0x07);
}

#[test]
fn every_instruction_leaves_unused_set() {
    // LDA #$00; PHA; PLP
    let mut cpu = with_program(&[0xA9, 0x00, 0x48, 0x28]);
    for _ in 0..3 {
        run_one(&mut cpu);
        assert!(cpu.get_flag(StatusFlag::U));
    }
}
