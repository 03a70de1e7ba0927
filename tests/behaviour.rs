use cpu6502::cpu::{MAX_PROGRAM_LEN, STACK_RESET, STATUS_RESET};
use cpu6502::opcodes::{lookup, Mnemonic};
use cpu6502::{AddressingMode, CpuError, CpuFlags, CPU};

fn run_program(program: Vec<u8>) -> CPU {
    let mut cpu = CPU::new();
    assert_eq!(cpu.load_and_run(program), Ok(()));
    cpu
}

#[test]
fn new_cpu_has_reset_values() {
    let cpu = CPU::new();
    assert_eq!(cpu.register_a, 0);
    assert_eq!(cpu.register_x, 0);
    assert_eq!(cpu.register_y, 0);
    assert_eq!(cpu.program_counter, 0);
    assert_eq!(cpu.stack_pointer, STACK_RESET);
    assert_eq!(cpu.status.bits(), 0b0010_0100);
    assert_eq!(cpu.status.bits(), STATUS_RESET);
    assert_eq!(cpu.mem_read(0xffff), 0);
}

#[test]
fn zero_and_negative_follow_loaded_value() {
    let cpu = run_program(vec![0xa9, 0x00, 0x00]);
    assert!(cpu.status.contains(CpuFlags::ZERO));
    assert!(!cpu.status.contains(CpuFlags::NEGATIVE));
    let cpu = run_program(vec![0xa2, 0x80, 0x00]);
    assert_eq!(cpu.register_x, 0x80);
    assert!(!cpu.status.contains(CpuFlags::ZERO));
    assert!(cpu.status.contains(CpuFlags::NEGATIVE));
    let cpu = run_program(vec![0xa0, 0x42, 0x00]);
    assert_eq!(cpu.register_y, 0x42);
    assert!(!cpu.status.contains(CpuFlags::ZERO));
    assert!(!cpu.status.contains(CpuFlags::NEGATIVE));
}

#[test]
fn end_to_end_add_wraps_to_zero() {
    let mut cpu = CPU::new();
    let r = cpu.load_and_run(vec![0xa9, 0x80, 0x69, 0x80, 0x00]);
    assert_eq!(r, Ok(()));
    assert_eq!(cpu.register_a, 0x00);
    assert!(cpu.status.contains(CpuFlags::CARRY));
    assert!(cpu.status.contains(CpuFlags::ZERO));
    assert!(cpu.status.contains(CpuFlags::OVERFLOW));
    assert!(!cpu.status.contains(CpuFlags::NEGATIVE));
    assert_eq!(cpu.program_counter, 0x8005);
}

#[test]
fn adc_adds_incoming_carry() {
    // 0xff + 0x01 sets Carry; 0x00 + 0x00 + carry gives 1
    let cpu = run_program(vec![0xa9, 0xff, 0x69, 0x01, 0xa9, 0x00, 0x69, 0x00, 0x00]);
    assert_eq!(cpu.register_a, 0x01);
    assert!(!cpu.status.contains(CpuFlags::CARRY));
}

#[test]
fn sbc_adds_the_negated_operand() {
    let cpu = run_program(vec![0xa9, 0x05, 0xe9, 0x03, 0x00]);
    assert_eq!(cpu.register_a, 0x02);
    assert!(cpu.status.contains(CpuFlags::CARRY));
    assert!(!cpu.status.contains(CpuFlags::OVERFLOW));
    let cpu = run_program(vec![0xa9, 0x03, 0xe9, 0x05, 0x00]);
    assert_eq!(cpu.register_a, 0xfe);
    assert!(!cpu.status.contains(CpuFlags::CARRY));
    assert!(cpu.status.contains(CpuFlags::NEGATIVE));
}

#[test]
fn sbc_of_zero_negates_to_zero() {
    let cpu = run_program(vec![0xa9, 0x07, 0xe9, 0x00, 0x00]);
    assert_eq!(cpu.register_a, 0x07);
}

#[test]
fn bit_keeps_accumulator() {
    let mut cpu = CPU::new();
    cpu.mem_write(0x10, 0x40);
    assert_eq!(cpu.load_and_run(vec![0xa9, 0x0f, 0x24, 0x10, 0x00]), Ok(()));
    assert_eq!(cpu.register_a, 0x0f);
    assert_eq!(cpu.mem_read(0x10), 0x40);
    assert!(cpu.status.contains(CpuFlags::ZERO));
    assert!(cpu.status.contains(CpuFlags::OVERFLOW));
    assert!(!cpu.status.contains(CpuFlags::NEGATIVE));
}

#[test]
fn zero_page_x_wraps_within_page_zero() {
    let mut cpu = CPU::new();
    cpu.mem_write(0x01, 0x11);
    cpu.mem_write(0x101, 0x22);
    assert_eq!(cpu.load_and_run(vec![0xa2, 0x02, 0xb5, 0xff, 0x00]), Ok(()));
    assert_eq!(cpu.register_a, 0x11);
}

#[test]
fn zero_page_y_wraps_within_page_zero() {
    let mut cpu = CPU::new();
    cpu.mem_write(0x00, 0x33);
    cpu.mem_write(0x100, 0x44);
    assert_eq!(cpu.load_and_run(vec![0xa0, 0x01, 0xb6, 0xff, 0x00]), Ok(()));
    assert_eq!(cpu.register_x, 0x33);
}

#[test]
fn absolute_x_crosses_pages() {
    let mut cpu = CPU::new();
    cpu.mem_write(0x1100, 0x66);
    assert_eq!(cpu.load_and_run(vec![0xa2, 0x01, 0xbd, 0xff, 0x10, 0x00]), Ok(()));
    assert_eq!(cpu.register_a, 0x66);
}

#[test]
fn indirect_x_pointer_high_byte_wraps() {
    let mut cpu = CPU::new();
    cpu.mem_write(0xff, 0x34);
    cpu.mem_write(0x00, 0x12);
    cpu.mem_write(0x100, 0x56);
    cpu.mem_write(0x1234, 0x77);
    assert_eq!(cpu.load_and_run(vec![0xa2, 0x00, 0xa1, 0xff, 0x00]), Ok(()));
    assert_eq!(cpu.register_a, 0x77);
}

#[test]
fn indirect_y_pointer_high_byte_wraps_then_adds_y() {
    let mut cpu = CPU::new();
    cpu.mem_write(0xff, 0x34);
    cpu.mem_write(0x00, 0x12);
    cpu.mem_write(0x1236, 0x99);
    assert_eq!(cpu.load_and_run(vec![0xa0, 0x02, 0xb1, 0xff, 0x00]), Ok(()));
    assert_eq!(cpu.register_a, 0x99);
}

#[test]
fn indirect_y_adds_y_after_the_lookup() {
    let mut cpu = CPU::new();
    // the pointer at 0x20 is 0x3000; the one at 0x21 would be 0x4030
    cpu.mem_write_u16(0x20, 0x3000);
    cpu.mem_write(0x22, 0x40);
    cpu.mem_write(0x3001, 0xab);
    cpu.mem_write(0x4031, 0xcd);
    assert_eq!(cpu.load_and_run(vec![0xa0, 0x01, 0xb1, 0x20, 0x00]), Ok(()));
    assert_eq!(cpu.register_a, 0xab);
}

#[test]
fn halts_at_first_break() {
    let cpu = run_program(vec![0xe8, 0x00, 0xe8, 0x00]);
    assert_eq!(cpu.register_x, 1);
    assert_eq!(cpu.program_counter, 0x8002);
}

#[test]
fn inx_and_iny_commit_the_increment() {
    let cpu = run_program(vec![0xa2, 0xff, 0xe8, 0xc8, 0xc8, 0x00]);
    assert_eq!(cpu.register_x, 0x00);
    assert_eq!(cpu.register_y, 0x02);
    assert!(!cpu.status.contains(CpuFlags::ZERO));
    let cpu = run_program(vec![0xa2, 0xff, 0xe8, 0x00]);
    assert!(cpu.status.contains(CpuFlags::ZERO));
}

#[test]
fn transfers_copy_registers() {
    let cpu = run_program(vec![0xa9, 0x90, 0xaa, 0xa8, 0xa9, 0x00, 0x8a, 0x00]);
    assert_eq!(cpu.register_x, 0x90);
    assert_eq!(cpu.register_y, 0x90);
    assert_eq!(cpu.register_a, 0x90);
    assert!(cpu.status.contains(CpuFlags::NEGATIVE));
    let cpu = run_program(vec![0xa0, 0x00, 0xa9, 0x05, 0x98, 0x00]);
    assert_eq!(cpu.register_a, 0x00);
    assert!(cpu.status.contains(CpuFlags::ZERO));
}

#[test]
fn stores_write_registers_to_memory() {
    let cpu = run_program(vec![
        0xa9, 0x11, 0xa2, 0x22, 0xa0, 0x33, 0x85, 0x10, 0x8e, 0x00, 0x20, 0x94, 0x10, 0x00,
    ]);
    assert_eq!(cpu.mem_read(0x10), 0x11);
    assert_eq!(cpu.mem_read(0x2000), 0x22);
    assert_eq!(cpu.mem_read(0x32), 0x33);
}

#[test]
fn logic_ops_combine_with_accumulator() {
    let cpu = run_program(vec![0xa9, 0b1100_1100, 0x29, 0b1010_1010, 0x00]);
    assert_eq!(cpu.register_a, 0b1000_1000);
    let cpu = run_program(vec![0xa9, 0b1100_1100, 0x09, 0b1010_1010, 0x00]);
    assert_eq!(cpu.register_a, 0b1110_1110);
    let cpu = run_program(vec![0xa9, 0b1100_1100, 0x49, 0b1100_1100, 0x00]);
    assert_eq!(cpu.register_a, 0);
    assert!(cpu.status.contains(CpuFlags::ZERO));
}

#[test]
fn inc_wraps_memory_byte() {
    let mut cpu = CPU::new();
    cpu.mem_write(0x10, 0xff);
    assert_eq!(cpu.load_and_run(vec![0xe6, 0x10, 0x00]), Ok(()));
    assert_eq!(cpu.mem_read(0x10), 0x00);
    assert!(cpu.status.contains(CpuFlags::ZERO));
}

#[test]
fn memory_shifts_act_on_memory() {
    let mut cpu = CPU::new();
    cpu.mem_write(0x10, 0x81);
    assert_eq!(cpu.load_and_run(vec![0xa9, 0x00, 0x26, 0x10, 0x00]), Ok(()));
    assert_eq!(cpu.mem_read(0x10), 0x02);
    assert_eq!(cpu.register_a, 0x00);
    assert!(cpu.status.contains(CpuFlags::CARRY));
    cpu.mem_write(0x10, 0x02);
    // ASL #0xff sets Carry, then ROR rotates it into bit 7 of memory
    assert_eq!(cpu.load_and_run(vec![0xa9, 0xff, 0x0a, 0x66, 0x10, 0x00]), Ok(()));
    assert_eq!(cpu.mem_read(0x10), 0x81);
    assert_eq!(cpu.register_a, 0xfe);
    assert!(!cpu.status.contains(CpuFlags::CARRY));
    assert!(cpu.status.contains(CpuFlags::NEGATIVE));
    cpu.mem_write(0x10, 0x03);
    assert_eq!(cpu.load_and_run(vec![0x46, 0x10, 0x06, 0x10, 0x00]), Ok(()));
    assert_eq!(cpu.mem_read(0x10), 0x02);
    assert!(!cpu.status.contains(CpuFlags::CARRY));
}

#[test]
fn branch_forward_skips_instruction() {
    // LDA #0; BEQ +2; LDA #1; BRK
    let cpu = run_program(vec![0xa9, 0x00, 0xf0, 0x02, 0xa9, 0x01, 0x00]);
    assert_eq!(cpu.register_a, 0x00);
    assert_eq!(cpu.program_counter, 0x8007);
}

#[test]
fn branch_not_taken_skips_offset() {
    // LDA #1; BEQ +2; LDA #5; BRK
    let cpu = run_program(vec![0xa9, 0x01, 0xf0, 0x02, 0xa9, 0x05, 0x00]);
    assert_eq!(cpu.register_a, 0x05);
}

#[test]
fn branch_backward_uses_signed_offset() {
    // LDX #0xfe; INX; BNE -3; BRK
    let cpu = run_program(vec![0xa2, 0xfe, 0xe8, 0xd0, 0xfd, 0x00]);
    assert_eq!(cpu.register_x, 0x00);
    assert_eq!(cpu.program_counter, 0x8006);
}

#[test]
fn other_branches_test_their_flags() {
    // LDA #0x80 (N set); BMI +2; LDX #1; BPL +2; LDY #1; BRK
    let cpu = run_program(vec![0xa9, 0x80, 0x30, 0x02, 0xa2, 0x01, 0x10, 0x02, 0xa0, 0x01, 0x00]);
    assert_eq!(cpu.register_x, 0x00);
    assert_eq!(cpu.register_y, 0x01);
    // LDA #0xff; ADC #1 (C set, V clear); BCS +2; LDX #1; BVC +2; LDY #1; BRK
    let cpu = run_program(vec![
        0xa9, 0xff, 0x69, 0x01, 0xb0, 0x02, 0xa2, 0x01, 0x50, 0x02, 0xa0, 0x01, 0x00,
    ]);
    assert_eq!(cpu.register_x, 0x00);
    assert_eq!(cpu.register_y, 0x00);
}

#[test]
fn nop_changes_nothing_but_pc() {
    let cpu = run_program(vec![0xea, 0xea, 0x00]);
    assert_eq!(cpu.register_a, 0);
    assert_eq!(cpu.status.bits(), STATUS_RESET);
    assert_eq!(cpu.program_counter, 0x8003);
}

#[test]
fn unrecognized_opcode_is_reported() {
    let mut cpu = CPU::new();
    let r = cpu.load_and_run(vec![0xea, 0x02, 0x00]);
    assert_eq!(r, Err(CpuError::UnrecognizedOpcode { pc: 0x8001, code: 0x02 }));
    assert_eq!(cpu.program_counter, 0x8001);
}

#[test]
fn unimplemented_opcode_is_reported() {
    let mut cpu = CPU::new();
    let r = cpu.load_and_run(vec![0x18, 0x00]);
    assert_eq!(r, Err(CpuError::UnimplementedOpcode { pc: 0x8000, code: 0x18 }));
}

#[test]
fn program_too_large_is_refused() {
    let mut cpu = CPU::new();
    let r = cpu.load(vec![0xea; MAX_PROGRAM_LEN + 1]);
    assert_eq!(r, Err(CpuError::ProgramTooLarge { len: MAX_PROGRAM_LEN + 1 }));
    assert_eq!(cpu.mem_read(0x8000), 0);
    assert_eq!(cpu.mem_read_u16(0xfffc), 0);
    let r = cpu.load_and_run(vec![0xea; MAX_PROGRAM_LEN + 1]);
    assert_eq!(r, Err(CpuError::ProgramTooLarge { len: MAX_PROGRAM_LEN + 1 }));
}

#[test]
fn largest_program_loads() {
    let mut cpu = CPU::new();
    let mut program = vec![0xea; MAX_PROGRAM_LEN];
    program[MAX_PROGRAM_LEN - 1] = 0x00;
    assert_eq!(cpu.load(program), Ok(()));
    assert_eq!(cpu.mem_read(0xfffb), 0x00);
    assert_eq!(cpu.mem_read_u16(0xfffc), 0x8000);
    cpu.reset();
    assert_eq!(cpu.run(), Ok(()));
    assert_eq!(cpu.program_counter, 0xfffc);
}

#[test]
fn load_places_program_and_vector() {
    let mut cpu = CPU::new();
    assert_eq!(cpu.load(vec![0xa9, 0x05]), Ok(()));
    assert_eq!(cpu.mem_read(0x8000), 0xa9);
    assert_eq!(cpu.mem_read(0x8001), 0x05);
    assert_eq!(cpu.mem_read(0xfffc), 0x00);
    assert_eq!(cpu.mem_read(0xfffd), 0x80);
}

#[test]
fn reset_restores_registers_from_vector() {
    let mut cpu = CPU::new();
    cpu.register_a = 9;
    cpu.register_x = 8;
    cpu.register_y = 7;
    cpu.status = CpuFlags::from_bits_truncate(0xff);
    cpu.mem_write(0x4000, 0x42);
    cpu.mem_write_u16(0xfffc, 0x1234);
    cpu.reset();
    assert_eq!(cpu.register_a, 0);
    assert_eq!(cpu.register_x, 0);
    assert_eq!(cpu.register_y, 0);
    assert_eq!(cpu.status.bits(), STATUS_RESET);
    assert_eq!(cpu.program_counter, 0x1234);
    assert_eq!(cpu.mem_read(0x4000), 0x42);
}

#[test]
fn run_for_stops_an_endless_loop() {
    let mut cpu = CPU::new();
    // LDA #1; BNE -2
    assert_eq!(cpu.load(vec![0xa9, 0x01, 0xd0, 0xfe]), Ok(()));
    cpu.reset();
    assert_eq!(cpu.run_for(10), Err(CpuError::StepLimitReached));
    assert_eq!(cpu.program_counter, 0x8002);
    assert_eq!(cpu.run_for(0), Err(CpuError::StepLimitReached));
}

#[test]
fn step_executes_one_instruction() {
    let mut cpu = CPU::new();
    assert_eq!(cpu.load(vec![0xa9, 0x07, 0xaa, 0x00]), Ok(()));
    cpu.reset();
    assert_eq!(cpu.step(), Ok(false));
    assert_eq!(cpu.register_a, 0x07);
    assert_eq!(cpu.register_x, 0x00);
    assert_eq!(cpu.program_counter, 0x8002);
    assert_eq!(cpu.step(), Ok(false));
    assert_eq!(cpu.register_x, 0x07);
    assert_eq!(cpu.step(), Ok(true));
    assert_eq!(cpu.program_counter, 0x8004);
}

#[test]
fn words_are_little_endian_and_wrap() {
    let mut cpu = CPU::new();
    cpu.mem_write_u16(0xffff, 0xabcd);
    assert_eq!(cpu.mem_read(0xffff), 0xcd);
    assert_eq!(cpu.mem_read(0x0000), 0xab);
    assert_eq!(cpu.mem_read_u16(0xffff), 0xabcd);
}

#[test]
fn flags_set_and_clear_single_bits() {
    let mut flags = CpuFlags::from_bits_truncate(0);
    flags.set(CpuFlags::OVERFLOW, true);
    flags.set(CpuFlags::CARRY, true);
    assert_eq!(flags.bits(), 0b0100_0001);
    flags.set(CpuFlags::OVERFLOW, false);
    assert_eq!(flags.bits(), 0b0000_0001);
    assert!(flags.contains(CpuFlags::CARRY));
    assert!(flags.is_set(CpuFlags::CARRY));
    assert!(!flags.contains(CpuFlags::DECIMAL_MODE));
}

#[test]
fn table_describes_opcodes() {
    let op = lookup(0xa9).unwrap();
    assert_eq!(op.mnemonic, Mnemonic::Lda);
    assert_eq!(op.mode, AddressingMode::Immediate);
    assert_eq!(op.len, 2);
    assert_eq!(op.cycles, 2);
    let op = lookup(0x0a).unwrap();
    assert_eq!(op.mnemonic, Mnemonic::Asl);
    assert_eq!(op.mode, AddressingMode::NoneAddressing);
    assert_eq!(op.len, 1);
    assert!(lookup(0x02).is_none());
}
