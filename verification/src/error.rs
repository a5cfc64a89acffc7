//! What can end a trace.

use crate::memory::ReadError;
use nix::errno::Errno;
use vstd::prelude::*;

verus! {

/// `nix::errno::Errno`, the error of every `nix` call: one of the kernel's
/// error numbers. Nothing is known of a value but through `errno_number`.
#[verifier::external_type_specification]
#[verifier::external_body]
pub struct ExErrno(Errno);

/// Casts a `nix::errno::Errno` to the kernel's number for it. The type is
/// opaque here, so nothing is claimed of the number.
#[verifier::external_body]
pub(crate) fn errno_number(errno: Errno) -> i32 {
    errno as i32
}

/// The kernel's error number for "no such process".
pub const ESRCH: i32 = 3;

/// The kernel's error number for "no child processes".
pub const ECHILD: i32 = 10;

/// A failure that ends the trace. `errno` is the kernel's error number.
#[derive(Debug, Clone, Copy, PartialEq, Eq, Structural)]
pub enum TraceError {
    /// Waiting for the next stop failed.
    Wait { errno: i32 },
    /// Process `pid` could not be resumed.
    Resume { pid: i32, errno: i32 },
    /// The registers of process `pid` could not be fetched.
    Registers { pid: i32, errno: i32 },
    /// The tracing options of process `pid` could not be set.
    Options { pid: i32, errno: i32 },
    /// The message of an event of process `pid` could not be fetched.
    EventMessage { pid: i32, errno: i32 },
    /// Process `pid` reported `child` as its new process, which is no
    /// process identifier.
    BadChild { pid: i32, child: i64 },
    /// Process `pid` stopped for an event that the tracer did not ask for.
    UnknownEvent { pid: i32, event: i32 },
    /// A string argument of a call made by process `pid` could not be read.
    Memory { pid: i32, cause: ReadError },
    /// Process `pid` made a system call whose number the table does not hold.
    UnknownSyscall { pid: i32, number: u64 },
}

} // verus!
