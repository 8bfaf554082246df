//! Instruction handlers, one per mnemonic, and the total decode table that
//! maps every opcode byte to an instruction descriptor.
//!
//! Each handler performs exactly its instruction's defined register, memory
//! and flag effect and touches nothing else.  Fall-through handlers leave the
//! program counter alone so the execution engine can advance it by the
//! instruction's byte length; control-flow handlers (jumps, calls, returns)
//! set it themselves.

use vstd::prelude::*;

use crate::addressing_mode::AddressingMode;
use crate::arith::{stack_addr, word_from_bytes, word_hi, word_lo, wrap16, wrap8};
use crate::cpu::CPU;
use crate::flags::Status;

verus! {

/// The status bit at position `n` in `value`.
pub open spec fn spec_nth_bit(value: u8, n: u8) -> bool {
    value & (1u8 << n) != 0
}

/// Get the status of bit N in the given value.
#[verifier::when_used_as_spec(spec_nth_bit)]
pub fn nth_bit(value: u8, n: u8) -> (r: bool)
    requires
        n < 8,
    ensures
        r == spec_nth_bit(value, n),
{
    value & (1u8 << n) != 0
}

/// The Zero and Negative flags are derived from `result` — Zero when it is
/// zero, Negative from its bit 7 — and the other six flags keep their old
/// values.
pub open spec fn flags_zn_set(pre: Status, post: Status, result: u8) -> bool {
    &&& post.spec_zero() == (result == 0)
    &&& post.spec_negative() == (result >= 0x80)
    &&& post.spec_carry() == pre.spec_carry()
    &&& post.spec_interrupt_disable() == pre.spec_interrupt_disable()
    &&& post.spec_decimal() == pre.spec_decimal()
    &&& post.spec_break_1() == pre.spec_break_1()
    &&& post.spec_break_2() == pre.spec_break_2()
    &&& post.spec_overflow() == pre.spec_overflow()
}

/// What TAY does, the program counter aside: Y takes the accumulator's value,
/// Zero and Negative follow that value, and nothing else changes.
pub open spec fn tay_updates(pre: CPU, post: CPU) -> bool {
    &&& post.register_y == pre.register_a
    &&& post.register_a == pre.register_a
    &&& post.register_x == pre.register_x
    &&& post.sp == pre.sp
    &&& post.ram@ == pre.ram@
    &&& flags_zn_set(pre.status, post.status, pre.register_a)
}

/// What LDA does, the program counter aside: the accumulator takes the byte
/// at the mode's effective address, Zero and Negative follow that very byte,
/// and nothing else changes.
pub open spec fn lda_updates(pre: CPU, post: CPU, mode: AddressingMode) -> bool {
    let value = pre.spec_read_byte(mode.spec_effective_address(pre));
    &&& post.register_a == value
    &&& post.register_x == pre.register_x
    &&& post.register_y == pre.register_y
    &&& post.sp == pre.sp
    &&& post.ram@ == pre.ram@
    &&& flags_zn_set(pre.status, post.status, value)
}

/// What LDX does, the program counter aside: X takes the byte at the mode's
/// effective address, Zero and Negative follow that very byte, and nothing
/// else changes.
pub open spec fn ldx_updates(pre: CPU, post: CPU, mode: AddressingMode) -> bool {
    let value = pre.spec_read_byte(mode.spec_effective_address(pre));
    &&& post.register_x == value
    &&& post.register_a == pre.register_a
    &&& post.register_y == pre.register_y
    &&& post.sp == pre.sp
    &&& post.ram@ == pre.ram@
    &&& flags_zn_set(pre.status, post.status, value)
}

/// What JMP does: the program counter takes exactly the mode's effective
/// address — no additional advance — and nothing else changes.
pub open spec fn jmp_effect(pre: CPU, post: CPU, mode: AddressingMode) -> bool {
    &&& post.pc == mode.spec_effective_address(pre)
    &&& post.sp == pre.sp
    &&& post.ram@ == pre.ram@
    &&& post.register_a == pre.register_a
    &&& post.register_x == pre.register_x
    &&& post.register_y == pre.register_y
    &&& post.status == pre.status
}

/// What JSR does: the address of the instruction's last byte is pushed high
/// byte first, the program counter takes the call target, and the registers
/// and flags stay put.
pub open spec fn jsr_effect(pre: CPU, post: CPU, mode: AddressingMode) -> bool {
    let ret = wrap16(pre.pc + mode.spec_len() - 1);
    &&& post.pc == mode.spec_effective_address(pre)
    &&& post.sp == wrap8(pre.sp - 2)
    &&& post.ram@ == pre.ram@.update(stack_addr(pre.sp), word_hi(ret)).update(
        stack_addr(wrap8(pre.sp - 1)),
        word_lo(ret),
    )
    &&& post.register_a == pre.register_a
    &&& post.register_x == pre.register_x
    &&& post.register_y == pre.register_y
    &&& post.status == pre.status
}

/// What RTS does: the return address is popped and the program counter set
/// one past it, and nothing else changes but the stack pointer.
pub open spec fn rts_effect(pre: CPU, post: CPU) -> bool {
    let ret = word_from_bytes(
        pre.ram@[stack_addr(wrap8(pre.sp + 1))],
        pre.ram@[stack_addr(wrap8(pre.sp + 2))],
    );
    &&& post.pc == wrap16(ret + 1)
    &&& post.sp == wrap8(pre.sp + 2)
    &&& post.ram@ == pre.ram@
    &&& post.register_a == pre.register_a
    &&& post.register_x == pre.register_x
    &&& post.register_y == pre.register_y
    &&& post.status == pre.status
}

impl CPU {
    /// TAY — transfer the accumulator to register Y and set the Zero and
    /// Negative flags from Y's new value.
    pub fn tay(&mut self, addr: &AddressingMode)
        requires
            old(self).wf(),
        ensures
            final(self).wf(),
            tay_updates(*old(self), *final(self)),
            final(self).pc == old(self).pc,
    {
        let _ = addr;
        self.register_y = self.register_a;
        let zero = self.register_y == 0;
        let negative = nth_bit(self.register_y, 7);
        proof {
            let v = self.register_y;
            assert((v & (1u8 << 7) != 0) == (v >= 0x80)) by (bit_vector);
        }
        self.status.set_zero(zero);
        self.status.set_negative(negative);
    }

    /// JMP — set the program counter to the effective address; control-flow
    /// class, so the engine must not advance the program counter afterwards.
    pub fn jmp(&mut self, addr: &AddressingMode)
        requires
            old(self).wf(),
        ensures
            final(self).wf(),
            jmp_effect(*old(self), *final(self), *addr),
    {
        self.pc = addr.fetch_argument_address(self);
    }

    /// JSR — push the address of this instruction's last byte, then jump to
    /// the effective address; control-flow class.
    pub fn jsr(&mut self, addr: &AddressingMode)
        requires
            old(self).wf(),
        ensures
            final(self).wf(),
            jsr_effect(*old(self), *final(self), *addr),
    {
        let target = addr.fetch_argument_address(self);
        let ret = self.pc.wrapping_add(addr.len()).wrapping_sub(1);
        self.push_word(ret);
        self.pc = target;
    }

    /// RTS — pop the return address and resume one byte past it;
    /// control-flow class.
    pub fn rts(&mut self, addr: &AddressingMode)
        requires
            old(self).wf(),
        ensures
            final(self).wf(),
            rts_effect(*old(self), *final(self)),
    {
        let _ = addr;
        let ret = self.pop_word();
        self.pc = ret.wrapping_add(1);
    }

    /// LDX — load register X from the effective address and set the Zero and
    /// Negative flags from X's new value.
    pub fn ldx(&mut self, addr: &AddressingMode)
        requires
            old(self).wf(),
        ensures
            final(self).wf(),
            ldx_updates(*old(self), *final(self), *addr),
            final(self).pc == old(self).pc,
    {
        self.register_x = addr.fetch_argument(self);
        let zero = self.register_x == 0;
        let negative = nth_bit(self.register_x, 7);
        proof {
            let v = self.register_x;
            assert((v & (1u8 << 7) != 0) == (v >= 0x80)) by (bit_vector);
        }
        self.status.set_zero(zero);
        self.status.set_negative(negative);
    }

    /// LDA — load the accumulator from the effective address and set the
    /// Zero and Negative flags from the accumulator's new value, never from
    /// another register.
    pub fn lda(&mut self, addr: &AddressingMode)
        requires
            old(self).wf(),
        ensures
            final(self).wf(),
            lda_updates(*old(self), *final(self), *addr),
            final(self).pc == old(self).pc,
    {
        self.register_a = addr.fetch_argument(self);
        let zero = self.register_a == 0;
        let negative = nth_bit(self.register_a, 7);
        proof {
            let v = self.register_a;
            assert((v & (1u8 << 7) != 0) == (v >= 0x80)) by (bit_vector);
        }
        self.status.set_zero(zero);
        self.status.set_negative(negative);
    }

    /// NOP — no operation.
    pub fn nop(&mut self, addr: &AddressingMode)
        ensures
            *final(self) == *old(self),
    {
        let _ = addr;
    }

    /// BRK — treated as a no-operation by this core.
    pub fn brk(&mut self, addr: &AddressingMode)
        ensures
            *final(self) == *old(self),
    {
        let _ = addr;
    }
}

/// The closed set of implemented mnemonics, plus the declared
/// `Unimplemented` marker every unmapped opcode is routed to.
#[derive(Clone, Copy, Debug, PartialEq, Eq, Structural)]
pub enum Mnemonic {
    Tay,
    Jmp,
    Jsr,
    Rts,
    Ldx,
    Lda,
    Nop,
    Brk,
    Unimplemented,
}

impl Mnemonic {
    /// The mnemonic's assembler name, for trace output.
    pub fn name(&self) -> &'static str {
        match self {
            Mnemonic::Tay => "TAY",
            Mnemonic::Jmp => "JMP",
            Mnemonic::Jsr => "JSR",
            Mnemonic::Rts => "RTS",
            Mnemonic::Ldx => "LDX",
            Mnemonic::Lda => "LDA",
            Mnemonic::Nop => "NOP",
            Mnemonic::Brk => "BRK",
            Mnemonic::Unimplemented => "???",
        }
    }
}

/// An instruction descriptor: which handler to run and under which
/// addressing mode.  The byte length is the mode's.
#[derive(Clone, Copy, Debug, PartialEq, Eq, Structural)]
pub struct Instruction {
    pub mnemonic: Mnemonic,
    pub mode: AddressingMode,
}

impl Instruction {
    pub fn new(mnemonic: Mnemonic, mode: AddressingMode) -> (r: Instruction)
        ensures
            r.mnemonic == mnemonic,
            r.mode == mode,
    {
        Instruction { mnemonic, mode }
    }

    /// The descriptor's assembler name, for trace output.
    pub fn name(&self) -> &'static str {
        self.mnemonic.name()
    }
}

/// The total opcode table: the descriptor each of the 256 opcode byte values
/// decodes to.  Unmapped values go to the `Unimplemented` descriptor.
pub open spec fn spec_decode(opcode: u8) -> Instruction {
    match opcode {
        0xEA => Instruction { mnemonic: Mnemonic::Nop, mode: AddressingMode::Implied },
        0x00 => Instruction { mnemonic: Mnemonic::Brk, mode: AddressingMode::Implied },
        0xA8 => Instruction { mnemonic: Mnemonic::Tay, mode: AddressingMode::Implied },
        0x4C => Instruction { mnemonic: Mnemonic::Jmp, mode: AddressingMode::Absolute },
        0x6C => Instruction { mnemonic: Mnemonic::Jmp, mode: AddressingMode::Indirect },
        0x20 => Instruction { mnemonic: Mnemonic::Jsr, mode: AddressingMode::Absolute },
        0x60 => Instruction { mnemonic: Mnemonic::Rts, mode: AddressingMode::Implied },
        0xA2 => Instruction { mnemonic: Mnemonic::Ldx, mode: AddressingMode::Immediate },
        0xA6 => Instruction { mnemonic: Mnemonic::Ldx, mode: AddressingMode::ZeroPage },
        0xB6 => Instruction { mnemonic: Mnemonic::Ldx, mode: AddressingMode::ZeroPageY },
        0xAE => Instruction { mnemonic: Mnemonic::Ldx, mode: AddressingMode::Absolute },
        0xBE => Instruction { mnemonic: Mnemonic::Ldx, mode: AddressingMode::AbsoluteY },
        0xA9 => Instruction { mnemonic: Mnemonic::Lda, mode: AddressingMode::Immediate },
        0xA5 => Instruction { mnemonic: Mnemonic::Lda, mode: AddressingMode::ZeroPage },
        0xB5 => Instruction { mnemonic: Mnemonic::Lda, mode: AddressingMode::ZeroPageX },
        0xAD => Instruction { mnemonic: Mnemonic::Lda, mode: AddressingMode::Absolute },
        0xBD => Instruction { mnemonic: Mnemonic::Lda, mode: AddressingMode::AbsoluteX },
        0xB9 => Instruction { mnemonic: Mnemonic::Lda, mode: AddressingMode::AbsoluteY },
        0xA1 => Instruction { mnemonic: Mnemonic::Lda, mode: AddressingMode::IndirectX },
        0xB1 => Instruction { mnemonic: Mnemonic::Lda, mode: AddressingMode::IndirectY },
        _ => Instruction { mnemonic: Mnemonic::Unimplemented, mode: AddressingMode::Implied },
    }
}

/// Decodes one opcode byte.  Total over all 256 values: an unmapped value
/// yields the `Unimplemented` descriptor rather than a failure.
pub fn decode(opcode: u8) -> (r: Instruction)
    ensures
        r == spec_decode(opcode),
{
    match opcode {
        0xEA => Instruction::new(Mnemonic::Nop, AddressingMode::Implied),
        0x00 => Instruction::new(Mnemonic::Brk, AddressingMode::Implied),
        0xA8 => Instruction::new(Mnemonic::Tay, AddressingMode::Implied),
        0x4C => Instruction::new(Mnemonic::Jmp, AddressingMode::Absolute),
        0x6C => Instruction::new(Mnemonic::Jmp, AddressingMode::Indirect),
        0x20 => Instruction::new(Mnemonic::Jsr, AddressingMode::Absolute),
        0x60 => Instruction::new(Mnemonic::Rts, AddressingMode::Implied),
        0xA2 => Instruction::new(Mnemonic::Ldx, AddressingMode::Immediate),
        0xA6 => Instruction::new(Mnemonic::Ldx, AddressingMode::ZeroPage),
        0xB6 => Instruction::new(Mnemonic::Ldx, AddressingMode::ZeroPageY),
        0xAE => Instruction::new(Mnemonic::Ldx, AddressingMode::Absolute),
        0xBE => Instruction::new(Mnemonic::Ldx, AddressingMode::AbsoluteY),
        0xA9 => Instruction::new(Mnemonic::Lda, AddressingMode::Immediate),
        0xA5 => Instruction::new(Mnemonic::Lda, AddressingMode::ZeroPage),
        0xB5 => Instruction::new(Mnemonic::Lda, AddressingMode::ZeroPageX),
        0xAD => Instruction::new(Mnemonic::Lda, AddressingMode::Absolute),
        0xBD => Instruction::new(Mnemonic::Lda, AddressingMode::AbsoluteX),
        0xB9 => Instruction::new(Mnemonic::Lda, AddressingMode::AbsoluteY),
        0xA1 => Instruction::new(Mnemonic::Lda, AddressingMode::IndirectX),
        0xB1 => Instruction::new(Mnemonic::Lda, AddressingMode::IndirectY),
        _ => Instruction::new(Mnemonic::Unimplemented, AddressingMode::Implied),
    }
}

} // verus!
