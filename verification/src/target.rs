//! The traced process: one debuggee, its lifecycle, its breakpoints, and its
//! syscall-boundary tracker.
//!
//! The engine is synchronous and single-threaded: the shell performs one
//! blocking trace-control call at a time and feeds its raw result (a wait
//! status, a peeked word, a register snapshot, a register value) to the
//! methods here.  Every method decides from the recorded state alone whether
//! the operation is permitted, computes the values the shell must write back,
//! and moves the state machine; the shell performs the calls and nothing else.

use vstd::prelude::*;

use crate::breakpoint::{BreakpointData, BreakpointTable, lookup_spec, remove_spec};
use crate::errors::DbgError;
use crate::registers::{RegisterId, RegisterSet};
use crate::status::{WaitOutcome, decoded, is_termination};
use crate::word::{
    TRAP_OPCODE, aligned_address, aligned_address_spec, byte_of_word, byte_offset,
    byte_offset_spec, extract_byte, insert_byte, word_with_byte,
};

verus! {

/// Lifecycle state of a traced process.
#[derive(Clone, Copy, Debug, PartialEq, Eq, Structural)]
pub enum ProgramState {
    /// Constructed; no stop of the child observed yet.
    Fresh,
    /// The child runs until the next trap, signal, syscall boundary or exit.
    Running,
    /// The child is stopped and can be inspected, mutated and resumed.
    Stopped,
    /// An unrecoverable failure ended the session; no operation is valid.
    Failed,
    /// The child is gone; no operation is valid.
    Exited,
}

/// The syscall number of `exit` on the reference architecture.
pub const EXIT_SYSCALL: i64 = 60;

/// The syscall number of `exit_group` on the reference architecture.
pub const EXIT_GROUP_SYSCALL: i64 = 231;

/// A syscall number that ends the session: the process-termination syscalls,
/// and the all-ones sentinel the boundary register carries when no number
/// could be read.
pub open spec fn is_terminating_syscall(number: i64) -> bool {
    number == -1 || number == EXIT_SYSCALL || number == EXIT_GROUP_SYSCALL
}

/// What one syscall-boundary stop meant.
#[derive(Clone, Copy, Debug, PartialEq, Eq, Structural)]
pub enum SyscallEvent {
    /// The tracee is entering the syscall with this number.
    Entry { number: i64 },
    /// The tracee is leaving a syscall; this is its result register.
    Exit { result: i64 },
    /// The tracee is entering a process-termination syscall: the session is
    /// over even before a wait confirms the exit.
    Terminating { number: i64 },
}

/// What the shell must write back after a breakpoint hit was handled: the
/// restored word at the word boundary enclosing the trapped address, and the
/// register snapshot with the instruction pointer moved back onto it.
#[derive(Clone, Copy, Debug, PartialEq, Eq, Structural)]
pub struct BreakpointFixup {
    /// Word-aligned address whose word must be poked back.
    pub write_address: u64,
    /// The word with the original byte restored.
    pub word: u64,
    /// The snapshot to install: the instruction pointer now holds the
    /// trapped address, so resuming re-executes the restored instruction.
    pub registers: RegisterSet,
}

/// A stepping operation may start from a running or a stopped process and
/// from nothing else.
pub open spec fn resumable(state: ProgramState) -> bool {
    state == ProgramState::Running || state == ProgramState::Stopped
}

/// A wait may be issued for any process not yet known to be gone.
pub open spec fn waitable(state: ProgramState) -> bool {
    state == ProgramState::Fresh || state == ProgramState::Running || state
        == ProgramState::Stopped
}

/// The lifecycle state after a wait observed `outcome`.
pub open spec fn state_after_wait(outcome: WaitOutcome) -> ProgramState {
    match outcome {
        WaitOutcome::Exited { .. } => ProgramState::Exited,
        WaitOutcome::Signaled { .. } => ProgramState::Exited,
        WaitOutcome::Stopped { .. } => ProgramState::Stopped,
        WaitOutcome::Other => ProgramState::Failed,
    }
}

/// A stop observed while `in_syscall` is false is a syscall entry; while
/// true, an exit.
pub open spec fn is_entry_stop(in_syscall: bool) -> bool {
    !in_syscall
}

/// The syscall flag after a boundary stop was handled: it toggles, except
/// that a terminating entry ends the session with the flag untouched.
pub open spec fn syscall_flag_after(in_syscall: bool, number: i64) -> bool {
    if is_entry_stop(in_syscall) && is_terminating_syscall(number) {
        in_syscall
    } else {
        !in_syscall
    }
}

/// One traced process: the debuggee's identity, lifecycle state, syscall
/// flag, and breakpoint table.
pub struct TargetProgram {
    /// OS identifier of the child; fixed at construction.
    pub target_pid: i32,
    /// Path of the target binary; fixed at construction.
    pub target_executable: String,
    /// Lifecycle state.
    pub state: ProgramState,
    /// Whether the tracee is between a syscall entry stop and the matching
    /// exit stop.
    pub in_syscall: bool,
    /// The recorded breakpoints.
    pub breakpoints: BreakpointTable,
}

impl TargetProgram {
    /// The breakpoint table never records an address twice.
    pub open spec fn wf(&self) -> bool {
        self.breakpoints.wf()
    }

    /// Identity, lifecycle state and syscall flag are as in `other`: only the
    /// breakpoint table may differ.
    pub open spec fn same_but_breakpoints(&self, other: &TargetProgram) -> bool {
        self.target_pid == other.target_pid && self.target_executable == other.target_executable
            && self.state == other.state && self.in_syscall == other.in_syscall
    }

    /// Identity and breakpoint table are as in `other`: only lifecycle state
    /// and syscall flag may differ.
    pub open spec fn same_but_progress(&self, other: &TargetProgram) -> bool {
        self.target_pid == other.target_pid && self.target_executable == other.target_executable
            && self.breakpoints@ == other.breakpoints@
    }

    /// Bind a traced process to the child's process id, before any stop of
    /// the child has been observed.
    pub fn new(target_pid: i32, target_executable: String) -> (program: TargetProgram)
        ensures
            program.target_pid == target_pid,
            program.target_executable == target_executable,
            program.state == ProgramState::Fresh,
            !program.in_syscall,
            program.breakpoints@ =~= Seq::<BreakpointData>::empty(),
            program.wf(),
    {
        TargetProgram {
            target_pid,
            target_executable,
            state: ProgramState::Fresh,
            in_syscall: false,
            breakpoints: BreakpointTable::new(),
        }
    }

    /// Let the stopped tracee run until its next trap, signal or exit.  On
    /// success the shell must issue the resume call and then wait.
    pub fn resume(&mut self) -> (result: Result<(), DbgError>)
        ensures
            final(self).same_but_progress(old(self)),
            resumable(old(self).state) ==> result == Ok::<(), DbgError>(()) && final(self).state
                == ProgramState::Running && final(self).in_syscall == old(self).in_syscall,
            !resumable(old(self).state) ==> result == Err::<(), DbgError>(DbgError::InvalidState)
                && final(self).state == old(self).state && final(self).in_syscall == old(
                self,
            ).in_syscall,
    {
        self.step()
    }

    /// Let the tracee execute exactly one instruction, then re-stop.  On
    /// success the shell must issue the single-step call and then wait.
    pub fn single_step(&mut self) -> (result: Result<(), DbgError>)
        ensures
            final(self).same_but_progress(old(self)),
            resumable(old(self).state) ==> result == Ok::<(), DbgError>(()) && final(self).state
                == ProgramState::Running && final(self).in_syscall == old(self).in_syscall,
            !resumable(old(self).state) ==> result == Err::<(), DbgError>(DbgError::InvalidState)
                && final(self).state == old(self).state && final(self).in_syscall == old(
                self,
            ).in_syscall,
    {
        self.step()
    }

    /// Let the tracee run to its next syscall entry or exit boundary, then
    /// re-stop.  On success the shell must issue the syscall-step call and
    /// then wait.
    pub fn step_to_syscall(&mut self) -> (result: Result<(), DbgError>)
        ensures
            final(self).same_but_progress(old(self)),
            resumable(old(self).state) ==> result == Ok::<(), DbgError>(()) && final(self).state
                == ProgramState::Running && final(self).in_syscall == old(self).in_syscall,
            !resumable(old(self).state) ==> result == Err::<(), DbgError>(DbgError::InvalidState)
                && final(self).state == old(self).state && final(self).in_syscall == old(
                self,
            ).in_syscall,
    {
        self.step()
    }

    /// Shared transition of the three stepping operations.
    fn step(&mut self) -> (result: Result<(), DbgError>)
        ensures
            final(self).same_but_progress(old(self)),
            final(self).in_syscall == old(self).in_syscall,
            resumable(old(self).state) ==> result == Ok::<(), DbgError>(()) && final(self).state
                == ProgramState::Running,
            !resumable(old(self).state) ==> result == Err::<(), DbgError>(DbgError::InvalidState)
                && final(self).state == old(self).state,
    {
        if self.state == ProgramState::Running || self.state == ProgramState::Stopped {
            self.state = ProgramState::Running;
            Ok(())
        } else {
            Err(DbgError::InvalidState)
        }
    }

    /// Digest the raw status a wait on the tracee returned: a stop leaves the
    /// process stopped, a termination ends the lifecycle whatever the prior
    /// state, an uninterpreted status fails the session.  Waiting on a
    /// process already gone is invalid.
    pub fn handle_wait_status(&mut self, status: u32) -> (result: Result<WaitOutcome, DbgError>)
        ensures
            final(self).same_but_progress(old(self)),
            final(self).in_syscall == old(self).in_syscall,
            waitable(old(self).state) ==> result == Ok::<WaitOutcome, DbgError>(decoded(status))
                && final(self).state == state_after_wait(decoded(status)),
            !waitable(old(self).state) ==> result == Err::<WaitOutcome, DbgError>(
                DbgError::InvalidState,
            ) && final(self).state == old(self).state,
    {
        match self.state {
            ProgramState::Exited => Err(DbgError::InvalidState),
            ProgramState::Failed => Err(DbgError::InvalidState),
            _ => {
                let outcome = crate::status::decode_wait_status(status);
                self.state = match outcome {
                    WaitOutcome::Exited { .. } => ProgramState::Exited,
                    WaitOutcome::Signaled { .. } => ProgramState::Exited,
                    WaitOutcome::Stopped { .. } => ProgramState::Stopped,
                    WaitOutcome::Other => ProgramState::Failed,
                };
                Ok(outcome)
            },
        }
    }

    /// The register the shell must read at the pending syscall-boundary stop:
    /// the syscall-number register at an entry, the result register at an
    /// exit.
    pub fn syscall_register(&self) -> (register: RegisterId)
        ensures
            is_entry_stop(self.in_syscall) ==> register == RegisterId::OrigRax,
            !is_entry_stop(self.in_syscall) ==> register == RegisterId::Rax,
    {
        if self.in_syscall {
            RegisterId::Rax
        } else {
            RegisterId::OrigRax
        }
    }

    /// Digest a syscall-boundary stop.  `register_value` is the shell's read
    /// of the register named by `syscall_register`.  A stop with the flag
    /// clear is an entry and sets it; one with the flag set is an exit and
    /// clears it; an entry into a process-termination syscall ends the
    /// session at once.  A failed register read fails the session.
    pub fn handle_syscall_stop(&mut self, register_value: Result<i64, i32>) -> (result: Result<
        SyscallEvent,
        DbgError,
    >)
        ensures
            final(self).same_but_progress(old(self)),
            old(self).state != ProgramState::Stopped ==> result == Err::<SyscallEvent, DbgError>(
                DbgError::InvalidState,
            ) && final(self).state == old(self).state && final(self).in_syscall == old(
                self,
            ).in_syscall,
            old(self).state == ProgramState::Stopped ==> match register_value {
                Err(errno) => result == Err::<SyscallEvent, DbgError>(
                    DbgError::RegisterAccessFailure { errno },
                ) && final(self).state == ProgramState::Failed && final(self).in_syscall == old(
                    self,
                ).in_syscall,
                Ok(value) => {
                    &&& final(self).in_syscall == syscall_flag_after(old(self).in_syscall, value)
                    &&& (is_entry_stop(old(self).in_syscall) && is_terminating_syscall(value))
                        ==> result == Ok::<SyscallEvent, DbgError>(
                        SyscallEvent::Terminating { number: value },
                    ) && final(self).state == ProgramState::Exited
                    &&& (is_entry_stop(old(self).in_syscall) && !is_terminating_syscall(value))
                        ==> result == Ok::<SyscallEvent, DbgError>(
                        SyscallEvent::Entry { number: value },
                    ) && final(self).state == ProgramState::Stopped
                    &&& !is_entry_stop(old(self).in_syscall) ==> result == Ok::<
                        SyscallEvent,
                        DbgError,
                    >(SyscallEvent::Exit { result: value }) && final(self).state
                        == ProgramState::Stopped
                },
            },
    {
        if self.state != ProgramState::Stopped {
            return Err(DbgError::InvalidState);
        }
        match register_value {
            Err(errno) => {
                self.state = ProgramState::Failed;
                Err(DbgError::RegisterAccessFailure { errno })
            },
            Ok(value) => {
                if !self.in_syscall {
                    if value == -1 || value == EXIT_SYSCALL || value == EXIT_GROUP_SYSCALL {
                        self.state = ProgramState::Exited;
                        Ok(SyscallEvent::Terminating { number: value })
                    } else {
                        self.in_syscall = true;
                        Ok(SyscallEvent::Entry { number: value })
                    }
                } else {
                    self.in_syscall = false;
                    Ok(SyscallEvent::Exit { result: value })
                }
            },
        }
    }

    /// Plant a breakpoint at `address`.  `word_read` is the shell's peek of
    /// the word at `aligned_address(address)`.  The original byte at the
    /// address is recorded and the returned word — the same word with the
    /// trap opcode in that byte — must be poked back before the tracee
    /// resumes.  An address already trapped is rejected; a failed peek is a
    /// trace failure; both leave the table unchanged.
    pub fn set_breakpoint(&mut self, address: u64, word_read: Result<u64, i32>) -> (result: Result<
        u64,
        DbgError,
    >)
        requires
            old(self).wf(),
        ensures
            final(self).same_but_breakpoints(old(self)),
            final(self).wf(),
            old(self).breakpoints.contains_address(address) ==> result == Err::<u64, DbgError>(
                DbgError::InvalidState,
            ) && final(self).breakpoints@ == old(self).breakpoints@,
            !old(self).breakpoints.contains_address(address) ==> match word_read {
                Err(errno) => result == Err::<u64, DbgError>(DbgError::TraceFailure { errno })
                    && final(self).breakpoints@ == old(self).breakpoints@,
                Ok(word) => result == Ok::<u64, DbgError>(
                    word_with_byte(word, byte_offset_spec(address), TRAP_OPCODE),
                ) && final(self).breakpoints@ =~= old(self).breakpoints@.push(
                    BreakpointData {
                        address,
                        original_byte: byte_of_word(word, byte_offset_spec(address)),
                    },
                ),
            },
    {
        if self.breakpoints.lookup(address).is_some() {
            return Err(DbgError::InvalidState);
        }
        match word_read {
            Err(errno) => Err(DbgError::TraceFailure { errno }),
            Ok(word) => {
                let offset = byte_offset(address);
                let original_byte = extract_byte(word, offset);
                let armed = insert_byte(word, offset, TRAP_OPCODE);
                let fresh = self.breakpoints.insert(address, original_byte);
                assert(fresh);
                Ok(armed)
            },
        }
    }

    /// Handle a stop caused by a planted trap.  `registers` is the snapshot
    /// taken at the stop; the trap opcode has retired, so the trapped address
    /// is one byte before the observed instruction pointer.  `word_read` is
    /// the shell's peek of the word at `aligned_address` of that trapped
    /// address.  On success the entry is consumed and the fixup tells the
    /// shell what to poke and which snapshot to install; a stop whose trapped
    /// address no entry records is a fatal inconsistency.
    pub fn handle_breakpoint(&mut self, registers: &RegisterSet, word_read: Result<u64, i32>) -> (
        result: Result<BreakpointFixup, DbgError>)
        requires
            old(self).wf(),
        ensures
            final(self).same_but_breakpoints(old(self)),
            final(self).wf(),
            old(self).state != ProgramState::Stopped ==> result == Err::<BreakpointFixup, DbgError>(
                DbgError::InvalidState,
            ) && final(self).breakpoints@ == old(self).breakpoints@,
            old(self).state == ProgramState::Stopped && registers.rip == 0 ==> result == Err::<
                BreakpointFixup,
                DbgError,
            >(DbgError::UnknownBreakpoint) && final(self).breakpoints@ == old(self).breakpoints@,
            old(self).state == ProgramState::Stopped && registers.rip >= 1 ==> {
                let trapped = (registers.rip - 1) as u64;
                match lookup_spec(old(self).breakpoints@, trapped) {
                    None => result == Err::<BreakpointFixup, DbgError>(DbgError::UnknownBreakpoint)
                        && final(self).breakpoints@ == old(self).breakpoints@,
                    Some(original_byte) => match word_read {
                        Err(errno) => result == Err::<BreakpointFixup, DbgError>(
                            DbgError::TraceFailure { errno },
                        ) && final(self).breakpoints@ == old(self).breakpoints@,
                        Ok(word) => result == Ok::<BreakpointFixup, DbgError>(
                            BreakpointFixup {
                                write_address: aligned_address_spec(trapped),
                                word: word_with_byte(
                                    word,
                                    byte_offset_spec(trapped),
                                    original_byte,
                                ),
                                registers: (RegisterSet { rip: trapped, ..*registers }),
                            },
                        ) && final(self).breakpoints@ =~= remove_spec(
                            old(self).breakpoints@,
                            trapped,
                        ) && !final(self).breakpoints.contains_address(trapped),
                    },
                }
            },
    {
        if self.state != ProgramState::Stopped {
            return Err(DbgError::InvalidState);
        }
        if registers.rip == 0 {
            return Err(DbgError::UnknownBreakpoint);
        }
        let trapped = registers.rip - 1;
        match self.breakpoints.lookup(trapped) {
            None => Err(DbgError::UnknownBreakpoint),
            Some(original_byte) => match word_read {
                Err(errno) => Err(DbgError::TraceFailure { errno }),
                Ok(word) => {
                    let _ = self.breakpoints.remove(trapped);
                    let offset = byte_offset(trapped);
                    let restored = insert_byte(word, offset, original_byte);
                    Ok(
                        BreakpointFixup {
                            write_address: aligned_address(trapped),
                            word: restored,
                            registers: RegisterSet { rip: trapped, ..*registers },
                        },
                    )
                },
            },
        }
    }

    /// The recorded breakpoints as `(index, address)` pairs in insertion
    /// order; purely observational.
    pub fn list_breakpoints(&self) -> (listing: Vec<(usize, u64)>)
        ensures
            listing@.len() == self.breakpoints@.len(),
            forall|i: int|
                0 <= i < self.breakpoints@.len() ==> listing@[i] == (
                    i as usize,
                    self.breakpoints@[i].address,
                ),
    {
        self.breakpoints.enumerate()
    }

    /// End the session by force.  On success the shell must deliver the kill
    /// signal; the process counts as exited.  A process already gone cannot
    /// be killed again.
    pub fn kill(&mut self) -> (result: Result<(), DbgError>)
        ensures
            final(self).same_but_progress(old(self)),
            final(self).in_syscall == old(self).in_syscall,
            waitable(old(self).state) ==> result == Ok::<(), DbgError>(()) && final(self).state
                == ProgramState::Exited,
            !waitable(old(self).state) ==> result == Err::<(), DbgError>(DbgError::InvalidState)
                && final(self).state == old(self).state,
    {
        match self.state {
            ProgramState::Exited => Err(DbgError::InvalidState),
            ProgramState::Failed => Err(DbgError::InvalidState),
            _ => {
                self.state = ProgramState::Exited;
                Ok(())
            },
        }
    }

    /// Record that replacing the child's image failed: the session is failed
    /// and the typed error to surface is handed back.
    pub fn mark_spawn_failed(&mut self, errno: i32) -> (error: DbgError)
        ensures
            final(self).same_but_progress(old(self)),
            final(self).in_syscall == old(self).in_syscall,
            final(self).state == ProgramState::Failed,
            error == (DbgError::SpawnFailure { errno }),
    {
        self.state = ProgramState::Failed;
        DbgError::SpawnFailure { errno }
    }

    /// Record an unrecoverable trace-control failure: the session is failed.
    pub fn mark_failed(&mut self)
        ensures
            final(self).same_but_progress(old(self)),
            final(self).in_syscall == old(self).in_syscall,
            final(self).state == ProgramState::Failed,
    {
        self.state = ProgramState::Failed;
    }
}

/// Law: `in_syscall` strictly alternates across consecutive syscall-boundary
/// stops.  If a boundary stop did not end the session, the next boundary stop
/// is an entry exactly when that one was not: never two entries nor two exits
/// in a row.
pub proof fn lemma_syscall_alternation(in_syscall: bool, number: i64)
    requires
        !(is_entry_stop(in_syscall) && is_terminating_syscall(number)),
    ensures
        is_entry_stop(syscall_flag_after(in_syscall, number)) == !is_entry_stop(in_syscall),
{
}

/// Law: a breakpoint hit undoes its planting exactly.  `set_breakpoint` at
/// an address turns the word read there into the armed word and records the
/// original byte; `handle_breakpoint` of a trap stop at that address writes
/// the recorded byte back into the armed word — and what it writes back is
/// the original word, bit for bit: the exact original byte returns and no
/// residue of the trap byte survives.
pub proof fn lemma_breakpoint_round_trip(word: u64, address: u64)
    ensures
        ({
            let offset = byte_offset_spec(address);
            let armed = word_with_byte(word, offset, TRAP_OPCODE);
            let recorded = byte_of_word(word, offset);
            word_with_byte(armed, offset, recorded) == word
        }),
{
    crate::word::lemma_overwrite_then_restore(word, byte_offset_spec(address), TRAP_OPCODE);
}

/// Law: the lifecycle transition table of a wait.  A wait observing a stop
/// yields `Stopped`; one observing any termination yields `Exited`, whatever
/// the prior state was; an uninterpreted status fails the session.
pub proof fn lemma_wait_transition_table(outcome: WaitOutcome)
    ensures
        (outcome matches WaitOutcome::Stopped { .. }) ==> state_after_wait(outcome)
            == ProgramState::Stopped,
        is_termination(outcome) ==> state_after_wait(outcome) == ProgramState::Exited,
        (outcome matches WaitOutcome::Other) ==> state_after_wait(outcome) == ProgramState::Failed,
{
}

} // verus!
