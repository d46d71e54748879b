//! The tracee's register state as plain values.
//!
//! The trace-control boundary hands the full general-purpose register file of
//! the stopped tracee over as one snapshot; the engine reads and rewrites the
//! snapshot and hands it back to be installed atomically relative to the stop.
//! The layout mirrors the 64-bit register file of the reference architecture.

use vstd::prelude::*;

verus! {

/// A full snapshot of the tracee's general-purpose and control registers,
/// taken and installed at a single stop.
#[derive(Clone, Copy, Debug, PartialEq, Eq, Structural)]
pub struct RegisterSet {
    pub r15: u64,
    pub r14: u64,
    pub r13: u64,
    pub r12: u64,
    pub rbp: u64,
    pub rbx: u64,
    pub r11: u64,
    pub r10: u64,
    pub r9: u64,
    pub r8: u64,
    pub rax: u64,
    pub rcx: u64,
    pub rdx: u64,
    pub rsi: u64,
    pub rdi: u64,
    pub orig_rax: u64,
    pub rip: u64,
    pub cs: u64,
    pub eflags: u64,
    pub rsp: u64,
    pub ss: u64,
    pub fs_base: u64,
    pub gs_base: u64,
    pub ds: u64,
    pub es: u64,
    pub fs: u64,
    pub gs: u64,
}

/// A single register the engine asks the shell to read on its own.
#[derive(Clone, Copy, Debug, PartialEq, Eq, Structural)]
pub enum RegisterId {
    /// The designated "original syscall number" register of the architecture.
    OrigRax,
    /// The syscall return-value register.
    Rax,
}

/// The instruction pointer recorded in a snapshot.
pub fn instruction_pointer(registers: &RegisterSet) -> (pointer: u64)
    ensures
        pointer == registers.rip,
{
    registers.rip
}

/// The address whose trap instruction caused a breakpoint stop: the trap
/// opcode has already retired, so the observed instruction pointer is one
/// byte past it.  `None` when the pointer cannot be one byte past anything.
pub fn trapped_address(registers: &RegisterSet) -> (address: Option<u64>)
    ensures
        registers.rip == 0 ==> address is None,
        registers.rip >= 1 ==> address == Some((registers.rip - 1) as u64),
{
    if registers.rip == 0 {
        None
    } else {
        Some(registers.rip - 1)
    }
}

} // verus!
