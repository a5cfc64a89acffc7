//! From what waiting returns to the events that the state machine takes.

use crate::error::{errno_number, TraceError, ECHILD, ESRCH};
use crate::registers::get_regs;
use nix::errno::Errno;
use crate::tracer::StopEvent;
use nix::sys::ptrace;
use nix::unistd::Pid;
use vstd::prelude::*;

verus! {

/// The event number of a stop after `fork`.
pub const EVENT_FORK: i32 = 1;

/// The event number of a stop after `vfork`.
pub const EVENT_VFORK: i32 = 2;

/// The event number of a stop after `clone`.
pub const EVENT_CLONE: i32 = 3;

/// The event number of a stop after the process replaced its image.
pub const EVENT_EXEC: i32 = 4;

/// The event number of a stop before the process exits.
pub const EVENT_EXIT: i32 = 6;

/// What waiting for a child returned.
#[derive(Debug, Clone, Copy, PartialEq, Eq, Structural)]
pub enum WaitReport {
    /// The process exited with `code`.
    Exited { pid: i32, code: i32 },
    /// The process was killed by `signal`.
    Killed { pid: i32, signal: i32 },
    /// The process was stopped by `signal`.
    Stopped { pid: i32, signal: i32 },
    /// The process stopped at a system call.
    SyscallStop { pid: i32 },
    /// The process stopped for the tracing event numbered `event`.
    EventStop { pid: i32, event: i32 },
}

/// Whether `event` tells of a new process.
pub open spec fn makes_process(event: i32) -> bool {
    event == EVENT_FORK || event == EVENT_VFORK || event == EVENT_CLONE
}

/// Calls `nix::sys::ptrace::getevent` (`PTRACE_GETEVENTMSG`), which returns
/// the message of the last event of process `pid`. The message depends on
/// the traced process, so nothing is claimed of it.
#[verifier::external_body]
fn event_message(pid: i32) -> Result<i64, Errno> {
    ptrace::getevent(Pid::from_raw(pid))
}

/// The event that the message of a fork, vfork or clone stop of `pid` stands
/// for. The message is the new process's identifier, and anything else is an
/// error.
pub fn child_event(pid: i32, message: i64) -> (res: Result<StopEvent, TraceError>)
    ensures
        res == if 0 < message <= i32::MAX {
            Ok::<StopEvent, TraceError>(StopEvent::NewProcess { pid, child: message as i32 })
        } else {
            Err::<StopEvent, TraceError>(TraceError::BadChild { pid, child: message })
        },
{
    if 0 < message && message <= i32::MAX as i64 {
        Ok(StopEvent::NewProcess { pid, child: message as i32 })
    } else {
        Err(TraceError::BadChild { pid, child: message })
    }
}

/// What `observe` may return for a report.
///
/// A process that exited or was killed is gone; a stop by a signal is a
/// signal stop. A system-call stop carries the registers, and a stop after
/// fork, vfork or clone the new process; both are fetched from the process
/// and can fail. The stops for exec and exit stand for themselves. Any other
/// event is an error.
pub open spec fn observation(report: WaitReport, res: Result<StopEvent, TraceError>) -> bool {
    match report {
        WaitReport::Exited { pid, code } => res == Ok::<StopEvent, TraceError>(
            StopEvent::Gone { pid },
        ),
        WaitReport::Killed { pid, signal } => res == Ok::<StopEvent, TraceError>(
            StopEvent::Gone { pid },
        ),
        WaitReport::Stopped { pid, signal } => res == Ok::<StopEvent, TraceError>(
            StopEvent::Signal { pid, signal },
        ),
        WaitReport::SyscallStop { pid } => match res {
            Ok(StopEvent::Syscall { pid: stopped, regs }) => stopped == pid,
            Err(TraceError::Registers { pid: failed, errno }) => failed == pid,
            _ => false,
        },
        WaitReport::EventStop { pid, event } => if makes_process(event) {
            match res {
                Ok(StopEvent::NewProcess { pid: parent, child }) => parent == pid && child > 0,
                Err(TraceError::EventMessage { pid: failed, errno }) => failed == pid,
                Err(TraceError::BadChild { pid: failed, child }) => failed == pid && !(0 < child
                    <= i32::MAX),
                _ => false,
            }
        } else if event == EVENT_EXEC {
            res == Ok::<StopEvent, TraceError>(StopEvent::Exec { pid })
        } else if event == EVENT_EXIT {
            res == Ok::<StopEvent, TraceError>(StopEvent::Exiting { pid })
        } else {
            res == Err::<StopEvent, TraceError>(TraceError::UnknownEvent { pid, event })
        },
    }
}

/// Turns what waiting returned into the event that it stands for, and
/// fetches from the stopped process what belongs to the event.
pub fn observe(report: WaitReport) -> (res: Result<StopEvent, TraceError>)
    ensures
        observation(report, res),
{
    match report {
        WaitReport::Exited { pid, code } => Ok(StopEvent::Gone { pid }),
        WaitReport::Killed { pid, signal } => Ok(StopEvent::Gone { pid }),
        WaitReport::Stopped { pid, signal } => Ok(StopEvent::Signal { pid, signal }),
        WaitReport::SyscallStop { pid } => match get_regs(pid) {
            Ok(regs) => Ok(StopEvent::Syscall { pid, regs }),
            Err(e) => Err(e),
        },
        WaitReport::EventStop { pid, event } => {
            if event == EVENT_FORK || event == EVENT_VFORK || event == EVENT_CLONE {
                match event_message(pid) {
                    Ok(message) => child_event(pid, message),
                    Err(errno) => Err(
                        TraceError::EventMessage { pid, errno: errno_number(errno) },
                    ),
                }
            } else if event == EVENT_EXEC {
                Ok(StopEvent::Exec { pid })
            } else if event == EVENT_EXIT {
                Ok(StopEvent::Exiting { pid })
            } else {
                Err(TraceError::UnknownEvent { pid, event })
            }
        },
    }
}

/// What it means that process `pid` could not be resumed: a process that
/// does not exist any more is gone, which is no error; any other failure
/// ends the trace.
pub fn resume_failure(pid: i32, errno: i32) -> (res: Result<StopEvent, TraceError>)
    ensures
        res == if errno == ESRCH {
            Ok::<StopEvent, TraceError>(StopEvent::Gone { pid })
        } else {
            Err::<StopEvent, TraceError>(TraceError::Resume { pid, errno })
        },
{
    if errno == ESRCH {
        Ok(StopEvent::Gone { pid })
    } else {
        Err(TraceError::Resume { pid, errno })
    }
}

/// What it means that waiting failed: with no child left the trace is over,
/// which is no error; any other failure ends it as one.
pub fn wait_failure(errno: i32) -> (res: Result<(), TraceError>)
    ensures
        res == if errno == ECHILD {
            Ok::<(), TraceError>(())
        } else {
            Err::<(), TraceError>(TraceError::Wait { errno })
        },
{
    if errno == ECHILD {
        Ok(())
    } else {
        Err(TraceError::Wait { errno })
    }
}

} // verus!
