//! Lifecycle of a traced process: the state transition table, and stepping
//! across straight-line code.

use talk_dbg::errors::DbgError;
use talk_dbg::registers::{instruction_pointer, RegisterSet};
use talk_dbg::status::{decode_wait_status, WaitOutcome};
use talk_dbg::target::{ProgramState, TargetProgram};

/// A stop status with the given stopping signal (low byte 0x7f).
fn stop_status(signal: u32) -> u32 {
    (signal << 8) | 0x7f
}

/// A normal-exit status with the given exit code (low seven bits zero).
fn exit_status(code: u32) -> u32 {
    code << 8
}

/// A snapshot whose registers are all zero but for the instruction pointer.
fn regs_at(rip: u64) -> RegisterSet {
    RegisterSet {
        r15: 0,
        r14: 0,
        r13: 0,
        r12: 0,
        rbp: 0,
        rbx: 0,
        r11: 0,
        r10: 0,
        r9: 0,
        r8: 0,
        rax: 0,
        rcx: 0,
        rdx: 0,
        rsi: 0,
        rdi: 0,
        orig_rax: 0,
        rip,
        cs: 0,
        eflags: 0,
        rsp: 0,
        ss: 0,
        fs_base: 0,
        gs_base: 0,
        ds: 0,
        es: 0,
        fs: 0,
        gs: 0,
    }
}

#[test]
fn decode_exit_statuses() {
    assert_eq!(decode_wait_status(0), WaitOutcome::Exited { code: 0 });
    assert_eq!(decode_wait_status(exit_status(3)), WaitOutcome::Exited { code: 3 });
    assert_eq!(decode_wait_status(exit_status(255)), WaitOutcome::Exited { code: 255 });
}

#[test]
fn decode_stop_statuses() {
    assert_eq!(decode_wait_status(stop_status(5)), WaitOutcome::Stopped { signal: 5 });
    assert_eq!(decode_wait_status(stop_status(19)), WaitOutcome::Stopped { signal: 19 });
}

#[test]
fn decode_signal_termination() {
    assert_eq!(decode_wait_status(9), WaitOutcome::Signaled { signal: 9 });
    assert_eq!(decode_wait_status(11), WaitOutcome::Signaled { signal: 11 });
}

#[test]
fn decode_continue_report_is_other() {
    assert_eq!(decode_wait_status(0xffff), WaitOutcome::Other);
}

#[test]
fn construction_yields_fresh() {
    let prg = TargetProgram::new(42, String::from("/bin/true"));
    assert_eq!(prg.state, ProgramState::Fresh);
    assert_eq!(prg.target_pid, 42);
    assert_eq!(prg.target_executable, "/bin/true");
    assert!(!prg.in_syscall);
    assert_eq!(prg.list_breakpoints().len(), 0);
}

#[test]
fn first_wait_stop_yields_stopped() {
    let mut prg = TargetProgram::new(42, String::from("/bin/true"));
    let outcome = prg.handle_wait_status(stop_status(5)).unwrap();
    assert_eq!(outcome, WaitOutcome::Stopped { signal: 5 });
    assert_eq!(prg.state, ProgramState::Stopped);
}

#[test]
fn resume_yields_running() {
    let mut prg = TargetProgram::new(42, String::from("/bin/true"));
    prg.handle_wait_status(stop_status(5)).unwrap();
    assert_eq!(prg.resume(), Ok(()));
    assert_eq!(prg.state, ProgramState::Running);
}

#[test]
fn wait_observing_termination_yields_exited_from_running() {
    let mut prg = TargetProgram::new(42, String::from("/bin/true"));
    prg.handle_wait_status(stop_status(5)).unwrap();
    prg.resume().unwrap();
    let outcome = prg.handle_wait_status(exit_status(0)).unwrap();
    assert_eq!(outcome, WaitOutcome::Exited { code: 0 });
    assert_eq!(prg.state, ProgramState::Exited);
}

#[test]
fn wait_observing_termination_yields_exited_from_stopped() {
    let mut prg = TargetProgram::new(42, String::from("/bin/true"));
    prg.handle_wait_status(stop_status(5)).unwrap();
    let outcome = prg.handle_wait_status(9).unwrap();
    assert_eq!(outcome, WaitOutcome::Signaled { signal: 9 });
    assert_eq!(prg.state, ProgramState::Exited);
}

#[test]
fn stepping_a_fresh_process_is_invalid() {
    let mut prg = TargetProgram::new(42, String::from("/bin/true"));
    assert_eq!(prg.resume(), Err(DbgError::InvalidState));
    assert_eq!(prg.single_step(), Err(DbgError::InvalidState));
    assert_eq!(prg.step_to_syscall(), Err(DbgError::InvalidState));
    assert_eq!(prg.state, ProgramState::Fresh);
}

#[test]
fn always_exiting_target_forbids_further_stepping() {
    // Launch a trivial always-exiting target: first stop at the exec trap,
    // continue at once; the next wait reports the exit, and every stepping
    // operation is invalid from then on.
    let mut prg = TargetProgram::new(42, String::from("/bin/true"));
    prg.handle_wait_status(stop_status(5)).unwrap();
    assert_eq!(prg.resume(), Ok(()));
    let outcome = prg.handle_wait_status(exit_status(0)).unwrap();
    assert_eq!(outcome, WaitOutcome::Exited { code: 0 });
    assert_eq!(prg.state, ProgramState::Exited);
    assert_eq!(prg.resume(), Err(DbgError::InvalidState));
    assert_eq!(prg.single_step(), Err(DbgError::InvalidState));
    assert_eq!(prg.step_to_syscall(), Err(DbgError::InvalidState));
    assert_eq!(prg.handle_wait_status(stop_status(5)), Err(DbgError::InvalidState));
    assert_eq!(prg.kill(), Err(DbgError::InvalidState));
}

#[test]
fn single_step_progression_over_straight_line_code() {
    // Single-step across a straight-line instruction sequence of known
    // lengths; after each step the reported instruction pointer matches the
    // expected per-instruction address progression.
    let base: u64 = 0x401000;
    let lengths: [u64; 6] = [1, 3, 2, 7, 4, 1];
    let mut expected = base;
    let mut prg = TargetProgram::new(42, String::from("/bin/true"));
    prg.handle_wait_status(stop_status(5)).unwrap();
    for len in lengths {
        assert_eq!(prg.single_step(), Ok(()));
        assert_eq!(prg.state, ProgramState::Running);
        prg.handle_wait_status(stop_status(5)).unwrap();
        assert_eq!(prg.state, ProgramState::Stopped);
        expected += len;
        // The shell reads the snapshot at the stop; here the simulated tracee
        // has retired exactly one instruction of the known length.
        let regs = regs_at(expected);
        assert_eq!(instruction_pointer(&regs), expected);
    }
    assert_eq!(expected, base + 18);
}

#[test]
fn kill_ends_the_session() {
    let mut prg = TargetProgram::new(42, String::from("/bin/true"));
    prg.handle_wait_status(stop_status(5)).unwrap();
    assert_eq!(prg.kill(), Ok(()));
    assert_eq!(prg.state, ProgramState::Exited);
    assert_eq!(prg.kill(), Err(DbgError::InvalidState));
}

#[test]
fn uninterpreted_status_fails_the_session() {
    let mut prg = TargetProgram::new(42, String::from("/bin/true"));
    let outcome = prg.handle_wait_status(0xffff).unwrap();
    assert_eq!(outcome, WaitOutcome::Other);
    assert_eq!(prg.state, ProgramState::Failed);
    assert_eq!(prg.resume(), Err(DbgError::InvalidState));
}

#[test]
fn spawn_failure_fails_the_session() {
    let mut prg = TargetProgram::new(42, String::from("/no/such/file"));
    let error = prg.mark_spawn_failed(2);
    assert_eq!(error, DbgError::SpawnFailure { errno: 2 });
    assert_eq!(prg.state, ProgramState::Failed);
    assert_eq!(prg.resume(), Err(DbgError::InvalidState));
    assert_eq!(error.describe(), "spawn failure");
}
