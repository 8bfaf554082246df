use mos6502::cpu::{CPU, LoadError, IRQ_VECTOR, LOAD_OFFSET, NMI_VECTOR, RESET_VECTOR};
use mos6502::flags::Status;

#[test]
fn interrupt_vectors_sit_at_the_top_of_memory() {
    assert_eq!(NMI_VECTOR, 0xFFFA);
    assert_eq!(RESET_VECTOR, 0xFFFC);
    assert_eq!(IRQ_VECTOR, 0xFFFE);
}

#[test]
fn power_up_state() {
    let cpu = CPU::new();
    assert_eq!(cpu.pc, 0);
    assert_eq!(cpu.sp, 0);
    assert_eq!(cpu.register_a, 0);
    assert_eq!(cpu.register_x, 0);
    assert_eq!(cpu.register_y, 0);
    assert!(cpu.status.carry());
    assert!(cpu.status.interrupt_disable());
    assert!(!cpu.status.zero());
    assert!(!cpu.status.decimal());
    assert!(!cpu.status.break_1());
    assert!(!cpu.status.break_2());
    assert!(!cpu.status.overflow());
    assert!(!cpu.status.negative());
    assert_eq!(cpu.ram.len(), 0x10000);
    assert!(cpu.ram.iter().all(|&b| b == 0));
}

#[test]
fn reset_reads_the_reset_vector() {
    let mut cpu = CPU::new();
    cpu.ram[RESET_VECTOR as usize] = 0x00;
    cpu.ram[RESET_VECTOR as usize + 1] = 0x06;
    cpu.register_a = 0x11;
    cpu.register_x = 0x22;
    cpu.register_y = 0x33;
    cpu.ram[0x0042] = 0x55;
    cpu.reset();
    assert_eq!(cpu.pc, 0x0600);
    assert_eq!(cpu.sp, 0xFD);
    assert_eq!(cpu.register_a, 0);
    assert_eq!(cpu.register_x, 0);
    assert_eq!(cpu.register_y, 0);
    // memory is not cleared by reset
    assert_eq!(cpu.ram[0x0042], 0x55);
}

#[test]
fn load_copies_image_at_documented_offset() {
    let mut cpu = CPU::new();
    let image: Vec<u8> = vec![0x01, 0x02, 0x03, 0x04];
    assert_eq!(cpu.load(&image), Ok(()));
    assert_eq!(cpu.ram[LOAD_OFFSET], 0x01);
    assert_eq!(cpu.ram[LOAD_OFFSET + 1], 0x02);
    assert_eq!(cpu.ram[LOAD_OFFSET + 2], 0x03);
    assert_eq!(cpu.ram[LOAD_OFFSET + 3], 0x04);
}

#[test]
fn load_large_image_leaves_outside_bytes_unchanged() {
    let mut cpu = CPU::new();
    // sentinels on both sides of the footprint
    cpu.ram[LOAD_OFFSET - 1] = 0xAA;
    cpu.ram[LOAD_OFFSET + 32768] = 0xBB;
    cpu.ram[0x0000] = 0xCC;
    cpu.ram[0xFFFF] = 0xDD;

    let image: Vec<u8> = (0..32768u32).map(|i| (i % 251) as u8).collect();
    assert_eq!(cpu.load(&image), Ok(()));

    for i in 0..32768usize {
        assert_eq!(cpu.ram[LOAD_OFFSET + i], (i % 251) as u8);
    }
    assert_eq!(cpu.ram[LOAD_OFFSET - 1], 0xAA);
    assert_eq!(cpu.ram[LOAD_OFFSET + 32768], 0xBB);
    assert_eq!(cpu.ram[0x0000], 0xCC);
    assert_eq!(cpu.ram[0xFFFF], 0xDD);
    for i in 0..LOAD_OFFSET - 1 {
        if i != 0 {
            assert_eq!(cpu.ram[i], 0);
        }
    }
    for i in LOAD_OFFSET + 32769..0xFFFF {
        assert_eq!(cpu.ram[i], 0);
    }
}

#[test]
fn load_rejects_image_that_overruns_memory() {
    let mut cpu = CPU::new();
    cpu.ram[0x7000] = 0x42;
    let too_large: Vec<u8> = vec![0xFF; 0x10000 - LOAD_OFFSET + 1];
    assert_eq!(cpu.load(&too_large), Err(LoadError::ImageTooLarge));
    // nothing was written
    assert_eq!(cpu.ram[0x7000], 0x42);
    assert_eq!(cpu.ram[LOAD_OFFSET], 0);
}

#[test]
fn load_accepts_image_that_exactly_fills_memory() {
    let mut cpu = CPU::new();
    let exact: Vec<u8> = vec![0x7E; 0x10000 - LOAD_OFFSET];
    assert_eq!(cpu.load(&exact), Ok(()));
    assert_eq!(cpu.ram[0xFFFF], 0x7E);
    assert_eq!(cpu.ram[LOAD_OFFSET - 1], 0);
}

#[test]
fn read_byte_and_read_word_little_endian() {
    let mut cpu = CPU::new();
    cpu.ram[0x1000] = 0xCD;
    cpu.ram[0x1001] = 0xAB;
    assert_eq!(cpu.read_byte(0x1000), 0xCD);
    assert_eq!(cpu.read_word(0x1000), 0xABCD);
}

#[test]
fn read_word_wraps_at_top_of_memory() {
    let mut cpu = CPU::new();
    cpu.ram[0xFFFF] = 0x34;
    cpu.ram[0x0000] = 0x12;
    assert_eq!(cpu.read_word(0xFFFF), 0x1234);
}

#[test]
fn status_setters_touch_only_their_flag() {
    let mut s = Status::default();
    s.set_zero(true);
    assert!(s.zero());
    assert!(!s.carry());
    assert!(!s.negative());
    s.set_negative(true);
    assert!(s.zero());
    assert!(s.negative());
    s.set_zero(false);
    assert!(!s.zero());
    assert!(s.negative());
    s.set_carry(true);
    s.set_decimal(true);
    s.set_break_1(true);
    s.set_break_2(true);
    s.set_overflow(true);
    s.set_interrupt_disable(true);
    assert!(s.carry() && s.decimal() && s.break_1() && s.break_2());
    assert!(s.overflow() && s.interrupt_disable() && s.negative());
    assert!(!s.zero());
}

#[test]
fn status_with_builders_and_layout() {
    let s = Status::default().with_interrupt_disable(true).with_carry(true);
    assert!(s.carry());
    assert!(s.interrupt_disable());
    assert_eq!(s.bits, 0x05); // DIZC layout: bits 2 and 0
    let mut n = Status::default();
    n.set_negative(true);
    assert_eq!(n.bits, 0x80);
}
