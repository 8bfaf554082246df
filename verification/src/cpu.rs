//! The processor state and the execution engine: registers, the 64KB memory,
//! the stack page, and the fetch/decode/execute/advance step.

use vstd::prelude::*;

use crate::arith::{stack_addr, word_from_bytes, word_hi, word_lo, wrap16, wrap8};
use crate::flags::Status;
use crate::instructions::{
    decode, jmp_effect, jsr_effect, lda_updates, ldx_updates, rts_effect, spec_decode,
    tay_updates, Instruction, Mnemonic,
};

verus! {

/// Number of addressable bytes: the full 64KB address space, fully populated.
pub const RAM_SIZE: usize = 0x10000;

/// First address of the fixed 256-byte stack page.
pub const STACK_PAGE: u16 = 0x0100;

/// Address at which `load` places a program image.
pub const LOAD_OFFSET: usize = 0x0600;

/// Address of the 2-byte little-endian non-maskable-interrupt vector.
pub const NMI_VECTOR: u16 = 0xFFFA;

/// Address of the 2-byte little-endian reset vector, read by `reset`.
pub const RESET_VECTOR: u16 = 0xFFFC;

/// Address of the 2-byte little-endian interrupt-request vector.
pub const IRQ_VECTOR: u16 = 0xFFFE;

/// Raised by `load` when the image would run past the end of memory.
#[derive(Clone, Copy, Debug, PartialEq, Eq, Structural)]
pub enum LoadError {
    /// The image does not fit between `LOAD_OFFSET` and the end of memory.
    ImageTooLarge,
}

/// The complete state of one emulated processor, exclusively owned.
#[derive(Debug)]
pub struct CPU {
    /// Program counter: address of the next opcode to fetch.
    pub pc: u16,
    /// Stack pointer: offset into the fixed 256-byte stack page.
    pub sp: u8,
    /// The 64KB memory, sole backing store for code, data and the stack page.
    pub ram: Vec<u8>,
    /// The packed condition flags.
    pub status: Status,
    /// Index register X.
    pub register_x: u8,
    /// Index register Y.
    pub register_y: u8,
    /// The accumulator.
    pub register_a: u8,
}

impl CPU {
    /// Well-formedness: the memory covers the whole address space, so every
    /// 16-bit address is in bounds by construction.
    pub open spec fn wf(&self) -> bool {
        self.ram@.len() == RAM_SIZE
    }

    /// The byte stored at `addr`.
    pub open spec fn spec_read_byte(&self, addr: u16) -> u8 {
        self.ram@[addr as int]
    }

    /// The little-endian 16-bit word stored at `addr`, whose high byte sits
    /// at `addr + 1` with 16-bit wraparound.
    pub open spec fn spec_read_word(&self, addr: u16) -> u16 {
        word_from_bytes(self.spec_read_byte(addr), self.spec_read_byte(wrap16(addr + 1)))
    }

    /// The little-endian 16-bit word stored at zero-page address `ptr`, whose
    /// high byte sits at `ptr + 1` wrapped within the zero page.
    pub open spec fn spec_read_zero_page_word(&self, ptr: u8) -> u16 {
        word_from_bytes(
            self.spec_read_byte(ptr as u16),
            self.spec_read_byte(wrap8(ptr + 1) as u16),
        )
    }

    /// Constructs the power-up state: cleared registers and memory, stack
    /// pointer at 0, and only the Carry and Interrupt-Disable flags set.
    pub fn new() -> (cpu: CPU)
        ensures
            cpu.wf(),
            cpu.pc == 0,
            cpu.sp == 0,
            cpu.register_a == 0,
            cpu.register_x == 0,
            cpu.register_y == 0,
            forall|i: int| 0 <= i < RAM_SIZE ==> cpu.ram@[i] == 0,
            cpu.status.spec_carry(),
            cpu.status.spec_interrupt_disable(),
            !cpu.status.spec_zero(),
            !cpu.status.spec_decimal(),
            !cpu.status.spec_break_1(),
            !cpu.status.spec_break_2(),
            !cpu.status.spec_overflow(),
            !cpu.status.spec_negative(),
    {
        let mut ram: Vec<u8> = Vec::new();
        let mut i: usize = 0;
        while i < RAM_SIZE
            invariant
                i <= RAM_SIZE,
                ram@.len() == i,
                forall|j: int| 0 <= j < i ==> ram@[j] == 0,
            decreases RAM_SIZE - i,
        {
            ram.push(0);
            i = i + 1;
        }
        CPU {
            pc: 0,
            sp: 0,
            ram,
            status: Status::default().with_interrupt_disable(true).with_carry(true),
            register_x: 0,
            register_y: 0,
            register_a: 0,
        }
    }

    /// Reinitializes the registers to their documented power-up values and
    /// fetches the program counter from the reset vector.  Memory and the
    /// status flags are left untouched.
    pub fn reset(&mut self)
        requires
            old(self).wf(),
        ensures
            final(self).wf(),
            final(self).pc == old(self).spec_read_word(RESET_VECTOR),
            final(self).sp == 0xFD,
            final(self).register_a == 0,
            final(self).register_x == 0,
            final(self).register_y == 0,
            final(self).ram@ == old(self).ram@,
            final(self).status == old(self).status,
    {
        self.pc = self.read_word(RESET_VECTOR);
        self.sp = 0xFD;
        self.register_x = 0;
        self.register_y = 0;
        self.register_a = 0;
    }

    /// Copies a program image into memory starting at `LOAD_OFFSET`.  An
    /// image that would run past the end of memory is rejected whole, and
    /// every byte outside the image's footprint is left unchanged.
    pub fn load(&mut self, rom: &[u8]) -> (r: Result<(), LoadError>)
        requires
            old(self).wf(),
        ensures
            final(self).wf(),
            LOAD_OFFSET + rom@.len() <= RAM_SIZE ==> {
                &&& r == Ok::<(), LoadError>(())
                &&& forall|i: int|
                    0 <= i < RAM_SIZE ==> final(self).ram@[i] == (if LOAD_OFFSET <= i
                        < LOAD_OFFSET + rom@.len() {
                        rom@[i - LOAD_OFFSET]
                    } else {
                        old(self).ram@[i]
                    })
            },
            LOAD_OFFSET + rom@.len() > RAM_SIZE ==> {
                &&& r == Err::<(), LoadError>(LoadError::ImageTooLarge)
                &&& final(self).ram@ == old(self).ram@
            },
            final(self).pc == old(self).pc,
            final(self).sp == old(self).sp,
            final(self).register_a == old(self).register_a,
            final(self).register_x == old(self).register_x,
            final(self).register_y == old(self).register_y,
            final(self).status == old(self).status,
    {
        if rom.len() > RAM_SIZE - LOAD_OFFSET {
            return Err(LoadError::ImageTooLarge);
        }
        let ghost pre: CPU = *self;
        let mut i: usize = 0;
        while i < rom.len()
            invariant
                i <= rom@.len(),
                LOAD_OFFSET + rom@.len() <= RAM_SIZE,
                self.ram@.len() == RAM_SIZE,
                pre.ram@.len() == RAM_SIZE,
                forall|j: int| 0 <= j < i ==> self.ram@[LOAD_OFFSET + j] == rom@[j],
                forall|j: int|
                    0 <= j < RAM_SIZE && !(LOAD_OFFSET <= j < LOAD_OFFSET + i) ==> self.ram@[j]
                        == pre.ram@[j],
                self.pc == pre.pc,
                self.sp == pre.sp,
                self.register_a == pre.register_a,
                self.register_x == pre.register_x,
                self.register_y == pre.register_y,
                self.status == pre.status,
            decreases rom@.len() - i,
        {
            self.ram[LOAD_OFFSET + i] = rom[i];
            i = i + 1;
        }
        Ok(())
    }

    /// Moves the stack pointer back toward the full end of the stack page,
    /// wrapping within the page, and reads the byte there.
    pub fn pop_byte(&mut self) -> (r: u8)
        requires
            old(self).wf(),
        ensures
            final(self).wf(),
            r == old(self).ram@[stack_addr(wrap8(old(self).sp + 1))],
            final(self).sp == wrap8(old(self).sp + 1),
            final(self).ram@ == old(self).ram@,
            final(self).pc == old(self).pc,
            final(self).register_a == old(self).register_a,
            final(self).register_x == old(self).register_x,
            final(self).register_y == old(self).register_y,
            final(self).status == old(self).status,
    {
        self.sp = self.sp.wrapping_add(1);
        self.ram[(STACK_PAGE + self.sp as u16) as usize]
    }

    /// Pops two bytes and joins them low-byte first, mirroring `push_word`.
    pub fn pop_word(&mut self) -> (r: u16)
        requires
            old(self).wf(),
        ensures
            final(self).wf(),
            pop_word_effect(*old(self), *final(self), r),
    {
        let lo = self.pop_byte();
        let hi = self.pop_byte();
        (hi as u16) * 0x100 + (lo as u16)
    }

    /// Writes a byte at the current stack slot, then moves the stack pointer
    /// toward the empty end of the stack page, wrapping within the page.
    pub fn push_byte(&mut self, val: u8)
        requires
            old(self).wf(),
        ensures
            final(self).wf(),
            final(self).ram@ == old(self).ram@.update(stack_addr(old(self).sp), val),
            final(self).sp == wrap8(old(self).sp - 1),
            final(self).pc == old(self).pc,
            final(self).register_a == old(self).register_a,
            final(self).register_x == old(self).register_x,
            final(self).register_y == old(self).register_y,
            final(self).status == old(self).status,
    {
        self.ram[(STACK_PAGE + self.sp as u16) as usize] = val;
        self.sp = self.sp.wrapping_sub(1);
    }

    /// Pushes the high byte of `val`, then its low byte, so that `pop_word`
    /// reassembles exactly `val`.
    pub fn push_word(&mut self, val: u16)
        requires
            old(self).wf(),
        ensures
            final(self).wf(),
            push_word_effect(*old(self), *final(self), val),
    {
        self.push_byte((val / 0x100) as u8);
        self.push_byte((val % 0x100) as u8);
    }

    /// Reads the byte at `addr`.
    pub fn read_byte(&self, addr: u16) -> (r: u8)
        requires
            self.wf(),
        ensures
            r == self.spec_read_byte(addr),
    {
        self.ram[addr as usize]
    }

    /// Reads the little-endian 16-bit word at `addr`; the high byte's address
    /// wraps around the top of memory.
    pub fn read_word(&self, addr: u16) -> (r: u16)
        requires
            self.wf(),
        ensures
            r == self.spec_read_word(addr),
    {
        let lo = self.read_byte(addr);
        let hi = self.read_byte(addr.wrapping_add(1));
        (hi as u16) * 0x100 + (lo as u16)
    }
}

/// Raised by `tick` when the fetched opcode has no implemented instruction.
#[derive(Clone, Copy, Debug, PartialEq, Eq, Structural)]
pub enum StepError {
    /// The opcode byte that was fetched and could not be decoded.
    UnimplementedOpcode(u8),
}

impl CPU {
    /// Executes exactly one instruction: fetch the opcode at the program
    /// counter, decode it, run the handler, then advance the program counter
    /// by the instruction's byte length — unless the handler is of the
    /// control-flow class and has set the program counter itself, in which
    /// case no advance happens.  An unimplemented opcode is reported and
    /// leaves the state untouched.
    pub fn tick(&mut self) -> (r: Result<Instruction, StepError>)
        requires
            old(self).wf(),
        ensures
            final(self).wf(),
            step_effect(*old(self), *final(self), r),
    {
        let opcode = self.read_byte(self.pc);
        let instr = decode(opcode);
        match instr.mnemonic {
            Mnemonic::Unimplemented => Err(StepError::UnimplementedOpcode(opcode)),
            Mnemonic::Jmp => {
                self.jmp(&instr.mode);
                Ok(instr)
            },
            Mnemonic::Jsr => {
                self.jsr(&instr.mode);
                Ok(instr)
            },
            Mnemonic::Rts => {
                self.rts(&instr.mode);
                Ok(instr)
            },
            Mnemonic::Tay => {
                self.tay(&instr.mode);
                self.pc = self.pc.wrapping_add(instr.mode.len());
                Ok(instr)
            },
            Mnemonic::Ldx => {
                self.ldx(&instr.mode);
                self.pc = self.pc.wrapping_add(instr.mode.len());
                Ok(instr)
            },
            Mnemonic::Lda => {
                self.lda(&instr.mode);
                self.pc = self.pc.wrapping_add(instr.mode.len());
                Ok(instr)
            },
            Mnemonic::Nop => {
                self.nop(&instr.mode);
                self.pc = self.pc.wrapping_add(instr.mode.len());
                Ok(instr)
            },
            Mnemonic::Brk => {
                self.brk(&instr.mode);
                self.pc = self.pc.wrapping_add(instr.mode.len());
                Ok(instr)
            },
        }
    }
}

/// What one execution step does, for every starting state: the opcode at the
/// program counter picks the descriptor, the handler's effect applies, and
/// the program counter advances by the byte length exactly when the mnemonic
/// is of the fall-through class — the two paths never both apply.
pub open spec fn step_effect(pre: CPU, post: CPU, r: Result<Instruction, StepError>) -> bool {
    let opcode = pre.spec_read_byte(pre.pc);
    let instr = spec_decode(opcode);
    match instr.mnemonic {
        Mnemonic::Unimplemented => {
            &&& r == Err::<Instruction, StepError>(StepError::UnimplementedOpcode(opcode))
            &&& post == pre
        },
        Mnemonic::Jmp => r == Ok::<Instruction, StepError>(instr) && jmp_effect(
            pre,
            post,
            instr.mode,
        ),
        Mnemonic::Jsr => r == Ok::<Instruction, StepError>(instr) && jsr_effect(
            pre,
            post,
            instr.mode,
        ),
        Mnemonic::Rts => r == Ok::<Instruction, StepError>(instr) && rts_effect(pre, post),
        Mnemonic::Tay => {
            &&& r == Ok::<Instruction, StepError>(instr)
            &&& tay_updates(pre, post)
            &&& post.pc == wrap16(pre.pc + instr.mode.spec_len())
        },
        Mnemonic::Ldx => {
            &&& r == Ok::<Instruction, StepError>(instr)
            &&& ldx_updates(pre, post, instr.mode)
            &&& post.pc == wrap16(pre.pc + instr.mode.spec_len())
        },
        Mnemonic::Lda => {
            &&& r == Ok::<Instruction, StepError>(instr)
            &&& lda_updates(pre, post, instr.mode)
            &&& post.pc == wrap16(pre.pc + instr.mode.spec_len())
        },
        Mnemonic::Nop | Mnemonic::Brk => {
            &&& r == Ok::<Instruction, StepError>(instr)
            &&& post.pc == wrap16(pre.pc + instr.mode.spec_len())
            &&& post.sp == pre.sp
            &&& post.ram@ == pre.ram@
            &&& post.register_a == pre.register_a
            &&& post.register_x == pre.register_x
            &&& post.register_y == pre.register_y
            &&& post.status == pre.status
        },
    }
}

/// What `push_word` does: the high byte lands at the current stack slot, the
/// low byte one slot below (wrapping within the page), the stack pointer
/// moves down by two, and nothing else changes.
pub open spec fn push_word_effect(pre: CPU, post: CPU, val: u16) -> bool {
    &&& post.ram@ == pre.ram@.update(stack_addr(pre.sp), word_hi(val)).update(
        stack_addr(wrap8(pre.sp - 1)),
        word_lo(val),
    )
    &&& post.sp == wrap8(pre.sp - 2)
    &&& post.pc == pre.pc
    &&& post.register_a == pre.register_a
    &&& post.register_x == pre.register_x
    &&& post.register_y == pre.register_y
    &&& post.status == pre.status
}

/// What `pop_word` does: the low byte is read one slot above the current
/// stack slot and the high byte two above (wrapping within the page), the
/// stack pointer moves up by two, and nothing else changes.
pub open spec fn pop_word_effect(pre: CPU, post: CPU, r: u16) -> bool {
    &&& r == word_from_bytes(
        pre.ram@[stack_addr(wrap8(pre.sp + 1))],
        pre.ram@[stack_addr(wrap8(pre.sp + 2))],
    )
    &&& post.sp == wrap8(pre.sp + 2)
    &&& post.ram@ == pre.ram@
    &&& post.pc == pre.pc
    &&& post.register_a == pre.register_a
    &&& post.register_x == pre.register_x
    &&& post.register_y == pre.register_y
    &&& post.status == pre.status
}

/// Law: pushing any 16-bit value and then popping returns exactly that value,
/// and brings the stack pointer back where it started, for every starting
/// stack pointer, including the ones where the stack page wraps around.
pub proof fn lemma_push_pop_word_round_trip(pre: CPU, mid: CPU, post: CPU, val: u16, r: u16)
    requires
        pre.wf(),
        push_word_effect(pre, mid, val),
        pop_word_effect(mid, post, r),
    ensures
        r == val,
        post.sp == pre.sp,
        post.ram@ == mid.ram@,
{
    crate::arith::lemma_word_bytes_round_trip(val);
    assert(wrap8(mid.sp + 1) == wrap8(pre.sp - 1));
    assert(wrap8(mid.sp + 2) == pre.sp);
    assert(stack_addr(wrap8(pre.sp - 1)) != stack_addr(pre.sp));
}

} // verus!
