use mos6502::addressing_mode::AddressingMode;
use mos6502::cpu::CPU;

fn cpu_at(pc: u16) -> CPU {
    let mut cpu = CPU::new();
    cpu.pc = pc;
    cpu
}

#[test]
fn zero_page_x_wraps_within_zero_page() {
    let mut cpu = cpu_at(0x0600);
    cpu.register_x = 0x20;
    cpu.ram[0x0601] = 0xF0;
    let ea = AddressingMode::ZeroPageX.fetch_argument_address(&mut cpu);
    assert_eq!(ea, 0x10);
    assert_ne!(ea, 0x110);
}

#[test]
fn zero_page_y_wraps_within_zero_page() {
    let mut cpu = cpu_at(0x0600);
    cpu.register_y = 0x05;
    cpu.ram[0x0601] = 0xFE;
    let ea = AddressingMode::ZeroPageY.fetch_argument_address(&mut cpu);
    assert_eq!(ea, 0x03);
}

#[test]
fn zero_page_zero_extends_operand() {
    let mut cpu = cpu_at(0x0600);
    cpu.ram[0x0601] = 0x7F;
    let ea = AddressingMode::ZeroPage.fetch_argument_address(&mut cpu);
    assert_eq!(ea, 0x007F);
}

#[test]
fn immediate_resolves_to_byte_after_opcode() {
    let mut cpu = cpu_at(0x0600);
    let ea = AddressingMode::Immediate.fetch_argument_address(&mut cpu);
    assert_eq!(ea, 0x0601);
}

#[test]
fn absolute_reads_little_endian_word() {
    let mut cpu = cpu_at(0x0600);
    cpu.ram[0x0601] = 0x34;
    cpu.ram[0x0602] = 0x12;
    let ea = AddressingMode::Absolute.fetch_argument_address(&mut cpu);
    assert_eq!(ea, 0x1234);
}

#[test]
fn absolute_x_wraps_modulo_65536() {
    let mut cpu = cpu_at(0x0600);
    cpu.register_x = 0x02;
    cpu.ram[0x0601] = 0xFF;
    cpu.ram[0x0602] = 0xFF;
    let ea = AddressingMode::AbsoluteX.fetch_argument_address(&mut cpu);
    assert_eq!(ea, 0x0001);
}

#[test]
fn absolute_y_adds_register_y() {
    let mut cpu = cpu_at(0x0600);
    cpu.register_y = 0x10;
    cpu.ram[0x0601] = 0x00;
    cpu.ram[0x0602] = 0x20;
    let ea = AddressingMode::AbsoluteY.fetch_argument_address(&mut cpu);
    assert_eq!(ea, 0x2010);
}

#[test]
fn relative_adds_positive_offset_after_instruction() {
    let mut cpu = cpu_at(0x0600);
    cpu.ram[0x0601] = 0x05;
    let ea = AddressingMode::Relative.fetch_argument_address(&mut cpu);
    assert_eq!(ea, 0x0607);
}

#[test]
fn relative_negative_offset_reaches_backwards() {
    let mut cpu = cpu_at(0x0600);
    cpu.ram[0x0601] = 0xFB; // -5
    let ea = AddressingMode::Relative.fetch_argument_address(&mut cpu);
    assert_eq!(ea, 0x05FD);
}

#[test]
fn indirect_follows_pointer() {
    let mut cpu = cpu_at(0x0600);
    cpu.ram[0x0601] = 0x10;
    cpu.ram[0x0602] = 0x02;
    cpu.ram[0x0210] = 0x78;
    cpu.ram[0x0211] = 0x56;
    let ea = AddressingMode::Indirect.fetch_argument_address(&mut cpu);
    assert_eq!(ea, 0x5678);
}

#[test]
fn indirect_page_boundary_reads_high_byte_from_page_start() {
    let mut cpu = cpu_at(0x0600);
    cpu.ram[0x0601] = 0xFF;
    cpu.ram[0x0602] = 0x02;
    cpu.ram[0x02FF] = 0x78;
    cpu.ram[0x0300] = 0x11; // would be used without the hardware bug
    cpu.ram[0x0200] = 0x56; // start of the same page: actually used
    let ea = AddressingMode::Indirect.fetch_argument_address(&mut cpu);
    assert_eq!(ea, 0x5678);
}

#[test]
fn indirect_x_wraps_pointer_within_zero_page() {
    let mut cpu = cpu_at(0x0600);
    cpu.register_x = 0x03;
    cpu.ram[0x0601] = 0xFE; // 0xFE + 0x03 wraps to 0x01
    cpu.ram[0x0001] = 0xCD;
    cpu.ram[0x0002] = 0xAB;
    let ea = AddressingMode::IndirectX.fetch_argument_address(&mut cpu);
    assert_eq!(ea, 0xABCD);
}

#[test]
fn indirect_x_pointer_word_wraps_within_zero_page() {
    let mut cpu = cpu_at(0x0600);
    cpu.register_x = 0x00;
    cpu.ram[0x0601] = 0xFF;
    cpu.ram[0x00FF] = 0x22;
    cpu.ram[0x0000] = 0x11; // high byte comes from 0x00, not 0x100
    let ea = AddressingMode::IndirectX.fetch_argument_address(&mut cpu);
    assert_eq!(ea, 0x1122);
}

#[test]
fn indirect_y_adds_register_y_to_stored_word() {
    let mut cpu = cpu_at(0x0600);
    cpu.register_y = 0x10;
    cpu.ram[0x0601] = 0x40;
    cpu.ram[0x0040] = 0x00;
    cpu.ram[0x0041] = 0x30;
    let ea = AddressingMode::IndirectY.fetch_argument_address(&mut cpu);
    assert_eq!(ea, 0x3010);
}

#[test]
fn implied_and_accumulator_have_no_operand() {
    let mut cpu = cpu_at(0x0600);
    assert_eq!(AddressingMode::Implied.fetch_argument_address(&mut cpu), 0);
    assert_eq!(AddressingMode::Accumulator.fetch_argument_address(&mut cpu), 0);
}

#[test]
fn fetch_argument_reads_byte_at_effective_address() {
    let mut cpu = cpu_at(0x0600);
    cpu.ram[0x0601] = 0x34;
    cpu.ram[0x0602] = 0x12;
    cpu.ram[0x1234] = 0x99;
    let value = AddressingMode::Absolute.fetch_argument(&mut cpu);
    assert_eq!(value, 0x99);
}

#[test]
fn lengths_are_fixed_per_mode() {
    assert_eq!(AddressingMode::Implied.len(), 1);
    assert_eq!(AddressingMode::Accumulator.len(), 1);
    assert_eq!(AddressingMode::Immediate.len(), 2);
    assert_eq!(AddressingMode::Relative.len(), 2);
    assert_eq!(AddressingMode::IndirectX.len(), 2);
    assert_eq!(AddressingMode::IndirectY.len(), 2);
    assert_eq!(AddressingMode::ZeroPage.len(), 2);
    assert_eq!(AddressingMode::ZeroPageX.len(), 2);
    assert_eq!(AddressingMode::ZeroPageY.len(), 2);
    assert_eq!(AddressingMode::Indirect.len(), 3);
    assert_eq!(AddressingMode::Absolute.len(), 3);
    assert_eq!(AddressingMode::AbsoluteX.len(), 3);
    assert_eq!(AddressingMode::AbsoluteY.len(), 3);
}

#[test]
fn resolver_does_not_change_state() {
    let mut cpu = cpu_at(0x0600);
    cpu.register_x = 0x07;
    cpu.ram[0x0601] = 0x20;
    let _ = AddressingMode::ZeroPageX.fetch_argument_address(&mut cpu);
    assert_eq!(cpu.pc, 0x0600);
    assert_eq!(cpu.register_x, 0x07);
    assert_eq!(cpu.ram[0x0601], 0x20);
}
