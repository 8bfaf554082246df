//! A verified instruction-execution core for the MOS 6502 processor.
//!
//! The core interprets bytes in a flat 64KB memory as machine instructions
//! and updates processor state (registers, condition flags, memory, stack,
//! program counter) according to each instruction's defined semantics.
//! Every public operation carries a contract that pins down its exact effect,
//! including the documented hardware quirks: page-local wraparound of
//! zero-page indexing, the indirect-jump page-boundary bug, and silent
//! wraparound of the stack pointer within the stack page.

pub mod addressing_mode;
pub mod arith;
pub mod cpu;
pub mod flags;
pub mod instructions;
