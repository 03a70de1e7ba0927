use cpu6502::{CpuFlags, CPU};

#[test]
fn test_lda_from_memory_zeropage() {
    let mut cpu = CPU::new();
    cpu.mem_write(0x10, 0x55);
    cpu.load_and_run(vec![0xa5, 0x10, 0x00]);
    assert_eq!(cpu.register_a, 0x55);
}

#[test]
fn test_lda_from_memory_zeropage_x() {
    let mut cpu = CPU::new();
    cpu.mem_write(0x15, 0x55);
    cpu.load_and_run(vec![0xa2, 0x05, 0xb5, 0x10, 0x00]);
    assert_eq!(cpu.register_a, 0x55);
}

#[test]
fn test_lda_from_memory_absolute() {
    let mut cpu = CPU::new();
    cpu.mem_write(0x1000, 0x55);
    cpu.load_and_run(vec![0xad, 0x00, 0x10, 0x00]);
    assert_eq!(cpu.register_a, 0x55);
}

#[test]
fn test_lda_from_memory_indirect_x() {
    let mut cpu = CPU::new();
    cpu.mem_write(0x1000, 0x55);
    cpu.mem_write_u16(0x15, 0x1000);
    cpu.load_and_run(vec![0xa2, 0x05, 0xa1, 0x10, 0x00]);
    assert_eq!(cpu.register_a, 0x55);
}

#[test]
fn test_adc_zeropage() {
    let mut cpu = CPU::new();
    cpu.mem_write(0x10, 0x01);
    cpu.load_and_run(vec![0xa9, 0x01, 0x65, 0x10, 0x00]);
    assert_eq!(cpu.register_a, 0x02);
}

#[test]
fn test_adc_overflow() {
    let mut cpu = CPU::new();
    cpu.load_and_run(vec![0xa9, 0x80, 0x69, 0x80, 0x00]);
    assert_eq!(cpu.register_a, 0x00);
    assert!(cpu.status.contains(CpuFlags::CARRY));
    assert!(cpu.status.contains(CpuFlags::ZERO));
    assert!(cpu.status.contains(CpuFlags::OVERFLOW));
    assert!(!cpu.status.contains(CpuFlags::NEGATIVE));
    cpu.load_and_run(vec![0xa9, 0x7f, 0x69, 0x7f, 0x00]);
    assert_eq!(cpu.register_a, 0xfe);
    assert!(!cpu.status.contains(CpuFlags::CARRY));
    assert!(!cpu.status.contains(CpuFlags::ZERO));
    assert!(cpu.status.contains(CpuFlags::OVERFLOW));
    assert!(cpu.status.contains(CpuFlags::NEGATIVE));
}

#[test]
fn test_asl() {
    let mut cpu = CPU::new();
    cpu.load_and_run(vec![0xa9, 0xff, 0x0a, 0x00]);
    assert_eq!(cpu.register_a, 0xfe);
    assert!(cpu.status.contains(CpuFlags::CARRY));
}

#[test]
fn test_lsr() {
    let mut cpu = CPU::new();
    cpu.load_and_run(vec![0xa9, 0xff, 0x4a, 0x00]);
    assert_eq!(cpu.register_a, 0x7f);
    assert!(cpu.status.contains(CpuFlags::CARRY));
}

#[test]
fn test_rol() {
    let mut cpu = CPU::new();
    cpu.load_and_run(vec![0xa9, 0xff, 0x0a, 0x2a, 0x00]);
    assert_eq!(cpu.register_a, 0b1111_1101);
    assert!(cpu.status.contains(CpuFlags::CARRY));
}

#[test]
fn test_ror() {
    let mut cpu = CPU::new();
    cpu.load_and_run(vec![0xa9, 0xff, 0x4a, 0x6a, 0x00]);
    assert_eq!(cpu.register_a, 0b1011_1111);
    assert!(cpu.status.contains(CpuFlags::CARRY));
}

#[test]
fn test_bit() {
    let mut cpu = CPU::new();
    cpu.mem_write(0x10, 0xff);
    cpu.load_and_run(vec![0xa9, 0xff, 0x24, 0x10, 0x00]);
    assert!(!cpu.status.contains(CpuFlags::ZERO));
    assert!(cpu.status.contains(CpuFlags::OVERFLOW));
    assert!(cpu.status.contains(CpuFlags::NEGATIVE));
    cpu.mem_write(0x10, 0x00);
    cpu.load_and_run(vec![0xa9, 0xff, 0x24, 0x10, 0x00]);
    assert!(cpu.status.contains(CpuFlags::ZERO));
    assert!(!cpu.status.contains(CpuFlags::OVERFLOW));
    assert!(!cpu.status.contains(CpuFlags::NEGATIVE));
}
