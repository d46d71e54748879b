//! Decoding of the raw status word returned by a wait on the tracee.
//!
//! The status follows the classic little-endian encoding: the low seven bits
//! are zero for a normal exit (exit code in bits 8..16), equal to 0x7f when
//! the tracee is stopped by a signal (signal number in bits 8..16), and equal
//! to the terminating signal number when the tracee was killed by a signal.

use vstd::prelude::*;

verus! {

/// What one wait on the tracee observed, decoded from the raw status word.
#[derive(Clone, Copy, Debug, PartialEq, Eq, Structural)]
pub enum WaitOutcome {
    /// The tracee terminated normally with the given exit code.
    Exited { code: u32 },
    /// The tracee was terminated by the given signal.
    Signaled { signal: u32 },
    /// The tracee is stopped by the given signal and awaits further control.
    Stopped { signal: u32 },
    /// An encoding this engine does not interpret (e.g. a continue report).
    Other,
}

/// The status word reports a normal exit.
pub open spec fn is_exit_status(status: u32) -> bool {
    status & 0x7f == 0
}

/// The exit code carried by a normal-exit status word.
pub open spec fn exit_code_of(status: u32) -> u32 {
    (status >> 8) & 0xff
}

/// The status word reports a stop by a signal.
pub open spec fn is_stop_status(status: u32) -> bool {
    status & 0xff == 0x7f
}

/// The stopping signal carried by a stop status word.
pub open spec fn stop_signal_of(status: u32) -> u32 {
    (status >> 8) & 0xff
}

/// The status word reports termination by a signal.
pub open spec fn is_signal_status(status: u32) -> bool {
    !is_exit_status(status) && !is_stop_status(status) && status & 0x7f != 0x7f
}

/// The terminating signal carried by a signal-termination status word.
pub open spec fn term_signal_of(status: u32) -> u32 {
    status & 0x7f
}

/// The decoded form of a raw status word.
pub open spec fn decoded(status: u32) -> WaitOutcome {
    if is_exit_status(status) {
        WaitOutcome::Exited { code: exit_code_of(status) }
    } else if is_stop_status(status) {
        WaitOutcome::Stopped { signal: stop_signal_of(status) }
    } else if is_signal_status(status) {
        WaitOutcome::Signaled { signal: term_signal_of(status) }
    } else {
        WaitOutcome::Other
    }
}

/// The decoded outcome reports that the tracee is gone (normal exit or
/// termination by a signal).
pub open spec fn is_termination(outcome: WaitOutcome) -> bool {
    outcome matches WaitOutcome::Exited { .. } || outcome matches WaitOutcome::Signaled { .. }
}

/// Decode a raw status word into the outcome it encodes.
pub fn decode_wait_status(status: u32) -> (outcome: WaitOutcome)
    ensures
        outcome == decoded(status),
{
    if status & 0x7f == 0 {
        WaitOutcome::Exited { code: (status >> 8) & 0xff }
    } else if status & 0xff == 0x7f {
        WaitOutcome::Stopped { signal: (status >> 8) & 0xff }
    } else if status & 0x7f != 0x7f {
        WaitOutcome::Signaled { signal: status & 0x7f }
    } else {
        WaitOutcome::Other
    }
}

} // verus!
