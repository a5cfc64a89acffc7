//! The registers of a stopped process, as far as a trace reads them.

use crate::error::{errno_number, TraceError};
use crate::system_call_names::{name_for, syscall_name, SYSCALL_COUNT};
use nix::errno::Errno;
use nix::sys::ptrace;
use nix::unistd::Pid;
use vstd::prelude::*;

verus! {

/// A copy of the registers of a traced process, taken while it was stopped:
/// those that carry a system call's number, arguments and result on x86-64.
#[derive(Debug, Clone, Copy, PartialEq, Eq, Structural)]
pub struct RegisterSnapshot {
    /// The number of the system call.
    pub orig_rax: u64,
    /// The value that the system call returned; it means something only
    /// when the process is stopped on its way out of the call.
    pub rax: u64,
    /// The first argument.
    pub rdi: u64,
    /// The second argument.
    pub rsi: u64,
    /// The third argument.
    pub rdx: u64,
    /// The fourth argument.
    pub r10: u64,
    /// The fifth argument.
    pub r8: u64,
    /// The sixth argument.
    pub r9: u64,
}

/// The 64 bits of `value`, read as a signed number in two's complement.
pub open spec fn signed(value: u64) -> int {
    if value >= 0x8000_0000_0000_0000 {
        value - 0x1_0000_0000_0000_0000
    } else {
        value as int
    }
}

/// Calls `nix::sys::ptrace::getregs` (`PTRACE_GETREGS`) and copies eight of
/// the fields of the `user_regs_struct` that it returns. The values depend on
/// the traced process, so nothing is claimed of them.
#[verifier::external_body]
fn fetch_registers(pid: i32) -> Result<RegisterSnapshot, Errno> {
    let regs = ptrace::getregs(Pid::from_raw(pid))?;
    Ok(
        RegisterSnapshot {
            orig_rax: regs.orig_rax,
            rax: regs.rax,
            rdi: regs.rdi,
            rsi: regs.rsi,
            rdx: regs.rdx,
            r10: regs.r10,
            r8: regs.r8,
            r9: regs.r9,
        },
    )
}

/// Fetches the registers of process `pid`, which has to be stopped under
/// this tracer. A process that is not fails with `TraceError::Registers`.
pub fn get_regs(pid: i32) -> (res: Result<RegisterSnapshot, TraceError>)
    ensures
        res matches Err(e) ==> (e matches TraceError::Registers { pid: failed, .. } && failed
            == pid),
{
    let answer = match fetch_registers(pid) {
        Ok(regs) => Ok(regs),
        Err(errno) => Err(errno_number(errno)),
    };
    fetched(pid, answer)
}

/// What a fetch of the registers of process `pid` comes to, given the
/// kernel's answer: the registers as they came, or the failure with the
/// process and the kernel's error number.
pub open spec fn fetch_outcome(pid: i32, answer: Result<RegisterSnapshot, i32>) -> Result<
    RegisterSnapshot,
    TraceError,
> {
    match answer {
        Ok(regs) => Ok(regs),
        Err(errno) => Err(TraceError::Registers { pid, errno }),
    }
}

/// Turns the kernel's answer to a fetch of the registers of process `pid`
/// into the fetch's result.
pub fn fetched(pid: i32, answer: Result<RegisterSnapshot, i32>) -> (res: Result<
    RegisterSnapshot,
    TraceError,
>)
    ensures
        res == fetch_outcome(pid, answer),
{
    match answer {
        Ok(regs) => Ok(regs),
        Err(errno) => Err(TraceError::Registers { pid, errno }),
    }
}

/// The number of the system call that the process was stopped at.
pub fn extract_syscall_number(regs: RegisterSnapshot) -> (number: u64)
    ensures
        number == regs.orig_rax,
{
    regs.orig_rax
}

/// The value that the system call returned: the result register, read as a
/// signed number.
pub fn extract_return_value(regs: RegisterSnapshot) -> (value: i64)
    ensures
        value == signed(regs.rax),
        value == regs.rax as i64,
{
    let rax = regs.rax;
    assert(rax as i64 == if rax >= 0x8000_0000_0000_0000u64 {
        rax - 0x1_0000_0000_0000_0000
    } else {
        rax as int
    }) by (bit_vector);
    if rax >= 0x8000_0000_0000_0000 {
        (rax - 0x8000_0000_0000_0000) as i64 + i64::MIN
    } else {
        rax as i64
    }
}

/// The name of the system call that the process was stopped at.
pub fn extract_syscall_name(regs: RegisterSnapshot) -> (name: &'static str)
    requires
        regs.orig_rax < SYSCALL_COUNT,
    ensures
        name@ == syscall_name(regs.orig_rax as int),
        name@.len() > 0,
{
    name_for(regs.orig_rax)
}

} // verus!
