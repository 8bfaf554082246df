use mos6502::cpu::CPU;

#[test]
fn push_pop_word_round_trip() {
    for &v in &[0x0000u16, 0xFFFF, 0x1234] {
        let mut cpu = CPU::new();
        cpu.sp = 0xFD;
        cpu.push_word(v);
        assert_eq!(cpu.pop_word(), v);
        assert_eq!(cpu.sp, 0xFD);
    }
}

#[test]
fn push_pop_word_round_trip_across_page_wrap() {
    for &v in &[0x0000u16, 0xFFFF, 0x1234] {
        for &sp in &[0x00u8, 0x01, 0xFF] {
            let mut cpu = CPU::new();
            cpu.sp = sp;
            cpu.push_word(v);
            assert_eq!(cpu.pop_word(), v);
            assert_eq!(cpu.sp, sp);
        }
    }
}

#[test]
fn push_byte_writes_stack_page_and_moves_down() {
    let mut cpu = CPU::new();
    cpu.sp = 0xFD;
    cpu.push_byte(0xAB);
    assert_eq!(cpu.ram[0x01FD], 0xAB);
    assert_eq!(cpu.sp, 0xFC);
}

#[test]
fn pop_byte_moves_up_then_reads() {
    let mut cpu = CPU::new();
    cpu.sp = 0xFC;
    cpu.ram[0x01FD] = 0x5A;
    assert_eq!(cpu.pop_byte(), 0x5A);
    assert_eq!(cpu.sp, 0xFD);
}

#[test]
fn push_byte_wraps_within_stack_page() {
    let mut cpu = CPU::new();
    cpu.sp = 0x00;
    cpu.push_byte(0x77);
    assert_eq!(cpu.ram[0x0100], 0x77);
    assert_eq!(cpu.sp, 0xFF);
}

#[test]
fn pop_byte_wraps_within_stack_page() {
    let mut cpu = CPU::new();
    cpu.sp = 0xFF;
    cpu.ram[0x0100] = 0x66;
    assert_eq!(cpu.pop_byte(), 0x66);
    assert_eq!(cpu.sp, 0x00);
}

#[test]
fn push_word_layout_is_high_byte_first() {
    let mut cpu = CPU::new();
    cpu.sp = 0xFD;
    cpu.push_word(0x1234);
    assert_eq!(cpu.ram[0x01FD], 0x12);
    assert_eq!(cpu.ram[0x01FC], 0x34);
    assert_eq!(cpu.sp, 0xFB);
}
