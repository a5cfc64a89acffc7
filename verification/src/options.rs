//! The tracing options that the tracer sets on the process it starts with.

use crate::error::{errno_number, TraceError};
use nix::errno::Errno;
use nix::sys::ptrace::{self, Options};
use nix::unistd::Pid;
use vstd::prelude::*;

verus! {

/// What the kernel is asked to do for a traced process and its descendants.
#[derive(Debug, Clone, Copy, PartialEq, Eq, Structural)]
pub struct TraceOptions {
    /// Mark system-call stops, so that they differ from signal stops.
    pub mark_syscalls: bool,
    /// Trace the processes that a traced process makes by `fork`.
    pub follow_fork: bool,
    /// Trace the processes that a traced process makes by `vfork`.
    pub follow_vfork: bool,
    /// Trace the processes that a traced process makes by `clone`.
    pub follow_clone: bool,
    /// Stop a traced process when it has replaced its image.
    pub stop_on_exec: bool,
    /// Stop a traced process when it is about to exit.
    pub stop_on_exit: bool,
}

/// The options that the tracer works with: all of them.
pub fn tracer_options() -> (options: TraceOptions)
    ensures
        options == (TraceOptions {
            mark_syscalls: true,
            follow_fork: true,
            follow_vfork: true,
            follow_clone: true,
            stop_on_exec: true,
            stop_on_exit: true,
        }),
{
    TraceOptions {
        mark_syscalls: true,
        follow_fork: true,
        follow_vfork: true,
        follow_clone: true,
        stop_on_exec: true,
        stop_on_exit: true,
    }
}

/// Calls `nix::sys::ptrace::setoptions` (`PTRACE_SETOPTIONS`) with the flag
/// of each option that is set. Whether the kernel accepts them depends on
/// the process, so nothing is claimed of the result.
#[verifier::external_body]
fn apply_options(pid: i32, options: TraceOptions) -> Result<(), Errno> {
    let mut flags = Options::empty();
    flags.set(Options::PTRACE_O_TRACESYSGOOD, options.mark_syscalls);
    flags.set(Options::PTRACE_O_TRACEFORK, options.follow_fork);
    flags.set(Options::PTRACE_O_TRACEVFORK, options.follow_vfork);
    flags.set(Options::PTRACE_O_TRACECLONE, options.follow_clone);
    flags.set(Options::PTRACE_O_TRACEEXEC, options.stop_on_exec);
    flags.set(Options::PTRACE_O_TRACEEXIT, options.stop_on_exit);
    ptrace::setoptions(Pid::from_raw(pid), flags)
}

/// Sets the tracer's options on process `pid`, which has to be stopped under
/// this tracer. A process that is not fails with `TraceError::Options`.
pub fn ptrace_set_options(pid: i32) -> (res: Result<(), TraceError>)
    ensures
        res matches Err(e) ==> (e matches TraceError::Options { pid: failed, .. } && failed == pid),
{
    let answer = match apply_options(pid, tracer_options()) {
        Ok(()) => Ok(()),
        Err(errno) => Err(errno_number(errno)),
    };
    applied(pid, answer)
}

/// What setting the options of process `pid` comes to, given the kernel's
/// answer: done, or the failure with the process and the kernel's error
/// number.
pub open spec fn apply_outcome(pid: i32, answer: Result<(), i32>) -> Result<(), TraceError> {
    match answer {
        Ok(_) => Ok(()),
        Err(errno) => Err(TraceError::Options { pid, errno }),
    }
}

/// Turns the kernel's answer to setting the options of process `pid` into
/// the result of setting them.
pub fn applied(pid: i32, answer: Result<(), i32>) -> (res: Result<(), TraceError>)
    ensures
        res == apply_outcome(pid, answer),
{
    match answer {
        Ok(()) => Ok(()),
        Err(errno) => Err(TraceError::Options { pid, errno }),
    }
}

} // verus!
