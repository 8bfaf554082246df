//! The addressing-mode resolver: for each of the thirteen addressing modes,
//! the effective address an instruction reads or writes, computed from the
//! current registers and memory, and the fixed byte length of an instruction
//! using that mode.

use vstd::prelude::*;

use crate::arith::{word_from_bytes, wrap16, wrap8};
use crate::cpu::CPU;

verus! {

/// The closed set of thirteen addressing modes.
#[derive(Clone, Copy, Debug, PartialEq, Eq, Structural)]
pub enum AddressingMode {
    Implied,
    Accumulator,
    Immediate,
    Relative,
    IndirectX,
    IndirectY,
    Absolute,
    ZeroPage,
    ZeroPageX,
    ZeroPageY,
    Indirect,
    AbsoluteX,
    AbsoluteY,
}

impl AddressingMode {
    /// The byte length of an instruction using this mode, opcode included;
    /// fixed per mode, never data-dependent.
    pub open spec fn spec_len(&self) -> u16 {
        match self {
            AddressingMode::Implied | AddressingMode::Accumulator => 1,
            AddressingMode::Immediate
            | AddressingMode::Relative
            | AddressingMode::IndirectX
            | AddressingMode::IndirectY
            | AddressingMode::ZeroPage
            | AddressingMode::ZeroPageX
            | AddressingMode::ZeroPageY => 2,
            AddressingMode::Indirect
            | AddressingMode::Absolute
            | AddressingMode::AbsoluteX
            | AddressingMode::AbsoluteY => 3,
        }
    }

    /// The effective address this mode resolves to in state `cpu`.  Modes
    /// without an operand (Implied, Accumulator) resolve to address 0, which
    /// their handlers never use.  All arithmetic wraps modulo 65536, or
    /// modulo 256 where the mode is page-local.
    pub open spec fn spec_effective_address(&self, cpu: CPU) -> u16
        recommends
            cpu.wf(),
    {
        let after_opcode = wrap16(cpu.pc + 1);
        match self {
            AddressingMode::Implied | AddressingMode::Accumulator => 0,
            AddressingMode::Immediate => after_opcode,
            AddressingMode::Relative => wrap16(
                wrap16(cpu.pc + 2) + signed_offset(cpu.spec_read_byte(after_opcode)),
            ),
            AddressingMode::ZeroPage => cpu.spec_read_byte(after_opcode) as u16,
            AddressingMode::ZeroPageX => wrap8(
                cpu.spec_read_byte(after_opcode) + cpu.register_x,
            ) as u16,
            AddressingMode::ZeroPageY => wrap8(
                cpu.spec_read_byte(after_opcode) + cpu.register_y,
            ) as u16,
            AddressingMode::Absolute => cpu.spec_read_word(after_opcode),
            AddressingMode::AbsoluteX => wrap16(
                cpu.spec_read_word(after_opcode) + cpu.register_x,
            ),
            AddressingMode::AbsoluteY => wrap16(
                cpu.spec_read_word(after_opcode) + cpu.register_y,
            ),
            AddressingMode::Indirect => {
                let ptr = cpu.spec_read_word(after_opcode);
                if ptr % 0x100 == 0xFF {
                    // Documented hardware bug: when the pointer's low byte is
                    // the page boundary, the high byte is read from the start
                    // of the same page, not from the next page.
                    word_from_bytes(
                        cpu.spec_read_byte(ptr),
                        cpu.spec_read_byte((ptr - 0xFF) as u16),
                    )
                } else {
                    cpu.spec_read_word(ptr)
                }
            },
            AddressingMode::IndirectX => cpu.spec_read_zero_page_word(
                wrap8(cpu.spec_read_byte(after_opcode) + cpu.register_x),
            ),
            AddressingMode::IndirectY => wrap16(
                cpu.spec_read_zero_page_word(cpu.spec_read_byte(after_opcode)) + cpu.register_y,
            ),
        }
    }

    /// Computes the effective address for this mode.  The processor state is
    /// only read, never changed.
    pub fn fetch_argument_address(&self, cpu: &mut CPU) -> (r: u16)
        requires
            old(cpu).wf(),
        ensures
            *final(cpu) == *old(cpu),
            r == self.spec_effective_address(*old(cpu)),
    {
        let after_opcode = cpu.pc.wrapping_add(1);
        match self {
            AddressingMode::Implied | AddressingMode::Accumulator => 0,
            AddressingMode::Immediate => after_opcode,
            AddressingMode::Relative => {
                let after_param = cpu.pc.wrapping_add(2);
                let offset = cpu.read_byte(after_opcode);
                if offset < 0x80 {
                    after_param.wrapping_add(offset as u16)
                } else {
                    after_param.wrapping_add(offset as u16).wrapping_sub(0x100)
                }
            },
            AddressingMode::ZeroPage => cpu.read_byte(after_opcode) as u16,
            AddressingMode::ZeroPageX => {
                cpu.read_byte(after_opcode).wrapping_add(cpu.register_x) as u16
            },
            AddressingMode::ZeroPageY => {
                cpu.read_byte(after_opcode).wrapping_add(cpu.register_y) as u16
            },
            AddressingMode::Absolute => cpu.read_word(after_opcode),
            AddressingMode::AbsoluteX => {
                cpu.read_word(after_opcode).wrapping_add(cpu.register_x as u16)
            },
            AddressingMode::AbsoluteY => {
                cpu.read_word(after_opcode).wrapping_add(cpu.register_y as u16)
            },
            AddressingMode::Indirect => {
                let ptr = cpu.read_word(after_opcode);
                if ptr % 0x100 == 0xFF {
                    let lo = cpu.read_byte(ptr);
                    let hi = cpu.read_byte(ptr - 0xFF);
                    (hi as u16) * 0x100 + (lo as u16)
                } else {
                    cpu.read_word(ptr)
                }
            },
            AddressingMode::IndirectX => {
                let ptr = cpu.read_byte(after_opcode).wrapping_add(cpu.register_x);
                let lo = cpu.read_byte(ptr as u16);
                let hi = cpu.read_byte(ptr.wrapping_add(1) as u16);
                (hi as u16) * 0x100 + (lo as u16)
            },
            AddressingMode::IndirectY => {
                let ptr = cpu.read_byte(after_opcode);
                let lo = cpu.read_byte(ptr as u16);
                let hi = cpu.read_byte(ptr.wrapping_add(1) as u16);
                let base = (hi as u16) * 0x100 + (lo as u16);
                base.wrapping_add(cpu.register_y as u16)
            },
        }
    }

    /// Resolves the effective address and reads the byte stored there.  The
    /// processor state is only read, never changed.
    pub fn fetch_argument(&self, cpu: &mut CPU) -> (r: u8)
        requires
            old(cpu).wf(),
        ensures
            *final(cpu) == *old(cpu),
            r == old(cpu).spec_read_byte(self.spec_effective_address(*old(cpu))),
    {
        let addr = self.fetch_argument_address(cpu);
        cpu.read_byte(addr)
    }

    /// The length of an instruction, counting the opcode and arguments.
    #[verifier::when_used_as_spec(spec_len)]
    pub fn len(&self) -> (r: u16)
        ensures
            r == self.spec_len(),
    {
        match self {
            AddressingMode::Implied | AddressingMode::Accumulator => 1,
            AddressingMode::Immediate
            | AddressingMode::Relative
            | AddressingMode::IndirectX
            | AddressingMode::IndirectY
            | AddressingMode::ZeroPage
            | AddressingMode::ZeroPageX
            | AddressingMode::ZeroPageY => 2,
            AddressingMode::Indirect
            | AddressingMode::Absolute
            | AddressingMode::AbsoluteX
            | AddressingMode::AbsoluteY => 3,
        }
    }
}

/// A branch operand as a signed displacement: bytes 0x80 and above reach
/// backwards.
pub open spec fn signed_offset(b: u8) -> int {
    if b < 0x80 {
        b as int
    } else {
        b as int - 0x100
    }
}

} // verus!
