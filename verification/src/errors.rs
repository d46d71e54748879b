//! Typed failures of the debugging engine.
//!
//! Every fallible operation of the engine returns one of these values instead
//! of aborting; the driving shell decides whether to retry, report, or end the
//! session.

use vstd::prelude::*;

verus! {

/// A failure of the debugging engine.
#[derive(Clone, Copy, Debug, PartialEq, Eq, Structural)]
pub enum DbgError {
    /// Replacing the child's image with the target executable failed.
    SpawnFailure { errno: i32 },
    /// A trace-control call on the tracee reported an OS-level error.
    TraceFailure { errno: i32 },
    /// The operation is not permitted in the process's current state.
    InvalidState,
    /// A stop was attributed to a breakpoint trap, but no recorded breakpoint
    /// matches the trapped address: a broken invariant, fatal to the session.
    UnknownBreakpoint,
    /// Reading a single register of the tracee failed.
    RegisterAccessFailure { errno: i32 },
}

/// The auxiliary-error-indicator pattern of the raw trace calls: their return
/// value alone cannot signal failure, because a register or a memory word can
/// legitimately hold any bit pattern, the failure sentinel included.  A raw
/// result equal to the sentinel is an error exactly when the indicator —
/// cleared before the call — was set by it; everything else is the value.
pub fn classify_trace_value(raw: i64, errno: i32) -> (result: Result<i64, i32>)
    ensures
        (raw == -1 && errno != 0) ==> result == Err::<i64, i32>(errno),
        !(raw == -1 && errno != 0) ==> result == Ok::<i64, i32>(raw),
{
    if raw == -1 && errno != 0 {
        Err(errno)
    } else {
        Ok(raw)
    }
}

impl DbgError {
    /// A short name of the error kind, for display by the shell.
    pub fn describe(&self) -> (name: &'static str)
        ensures
            match self {
                DbgError::SpawnFailure { .. } => name@ == "spawn failure"@,
                DbgError::TraceFailure { .. } => name@ == "trace failure"@,
                DbgError::InvalidState => name@ == "invalid state"@,
                DbgError::UnknownBreakpoint => name@ == "unknown breakpoint"@,
                DbgError::RegisterAccessFailure { .. } => name@ == "register access failure"@,
            },
    {
        match self {
            DbgError::SpawnFailure { .. } => "spawn failure",
            DbgError::TraceFailure { .. } => "trace failure",
            DbgError::InvalidState => "invalid state",
            DbgError::UnknownBreakpoint => "unknown breakpoint",
            DbgError::RegisterAccessFailure { .. } => "register access failure",
        }
    }
}

} // verus!
