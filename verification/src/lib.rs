//! Core engine of a minimal native-process debugger.
//!
//! The library holds the verified logic of the debugger: decoding of raw wait
//! statuses, the byte-in-word arithmetic behind software breakpoints, the
//! breakpoint table, the traced-process state machine with its syscall-boundary
//! tracker, and the construction of the launched target's environment.
//!
//! The OS trace-control calls themselves (ptrace, fork, exec, wait) cannot be
//! verified; a thin unverified shell performs them and feeds their raw results
//! (wait statuses, peeked words, register snapshots) to the functions here,
//! which make every decision and compute every value that is written back.

pub mod breakpoint;
pub mod errors;
pub mod launch;
pub mod registers;
pub mod status;
pub mod target;
pub mod word;
