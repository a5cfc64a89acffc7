//! The tracer's state machine: what each stop of a traced process means and
//! what to do about it.
//!
//! The machine makes the decisions and nothing else. Its driver waits for the
//! next stop, hands it to [`Tracer::on_stop`] as a [`StopEvent`], and carries
//! out the [`Action`] that comes back.

use crate::error::TraceError;
use crate::filter::TraceFilter;
use crate::registers::RegisterSnapshot;
use crate::system_call_names::{name_for, syscall_name, table, SYSCALL_COUNT};
use std::collections::HashMap;
use vstd::prelude::*;

verus! {

broadcast use vstd::std_specs::hash::group_hash_axioms;

/// The signal that stops a process before it runs under trace: the launcher
/// raises it on itself, and the kernel sends it to every process that a
/// traced process makes.
pub const SIGSTOP: i32 = 19;

/// Where a traced process stands between two stops.
#[derive(Debug, Clone, Copy, PartialEq, Eq)]
pub enum Phase {
    /// The process is known, and its first stop has not been seen.
    Created,
    /// The process runs; its next system-call stop is an entry.
    AwaitingEntry,
    /// The process is inside the system call `name`; its next system-call
    /// stop is the exit from it. `reported` tells whether the entry was
    /// reported.
    AwaitingExit { name: &'static str, reported: bool },
}

/// What the kernel reported of a traced process.
#[derive(Debug, Clone, Copy, PartialEq, Eq, Structural)]
pub enum StopEvent {
    /// The process stopped on its way into or out of a system call; `regs`
    /// are its registers at the stop.
    Syscall { pid: i32, regs: RegisterSnapshot },
    /// The process stopped because `signal` is about to be delivered to it.
    Signal { pid: i32, signal: i32 },
    /// The process stopped after it made `child` by fork, vfork or clone.
    NewProcess { pid: i32, child: i32 },
    /// The process stopped after it replaced its image.
    Exec { pid: i32 },
    /// The process stopped on its way to exit.
    Exiting { pid: i32 },
    /// The process is gone: it exited or was killed.
    Gone { pid: i32 },
}

/// What the driver does after a stop.
#[derive(Debug, Clone, Copy, PartialEq, Eq)]
pub enum Action {
    /// Set the tracing options on the process, then resume it.
    SetOptions { pid: i32 },
    /// Resume the process, and deliver `signal` to it if there is one.
    Resume { pid: i32, signal: Option<i32> },
    /// Write the first half of the trace line for the call `name` that the
    /// process enters, then resume it.
    ReportEntry { pid: i32, name: &'static str, regs: RegisterSnapshot },
    /// Write the second half of the trace line for the call `name` that the
    /// process leaves, then resume it.
    ReportReturn { pid: i32, name: &'static str, regs: RegisterSnapshot },
    /// Nothing is to be resumed; wait for the processes that are left.
    Wait,
    /// No traced process is left: the trace is over.
    Finish,
}

/// The phase of `pid` in a registry; a process that it does not hold counts
/// as created.
pub open spec fn phase_of(processes: Map<i32, Phase>, pid: i32) -> Phase {
    if processes.contains_key(pid) {
        processes[pid]
    } else {
        Phase::Created
    }
}

/// The registry after a stop.
///
/// A system-call stop flips the process between entry and exit; an entry
/// whose number the table does not hold changes nothing. The stop of a
/// created process by `SIGSTOP` starts it; any other signal leaves it
/// created. A new process is entered as created unless it is known already.
/// A process that is gone leaves the registry.
/// Every other process that is heard of is in the registry afterwards.
pub open spec fn registry_after(
    processes: Map<i32, Phase>,
    filter: TraceFilter,
    event: StopEvent,
) -> Map<i32, Phase> {
    match event {
        StopEvent::Syscall { pid, regs } => match phase_of(processes, pid) {
            Phase::AwaitingExit { .. } => processes.insert(pid, Phase::AwaitingEntry),
            _ => if regs.orig_rax < SYSCALL_COUNT {
                processes.insert(
                    pid,
                    Phase::AwaitingExit {
                        name: table(regs.orig_rax),
                        reported: filter.reports(syscall_name(regs.orig_rax as int)),
                    },
                )
            } else {
                processes
            },
        },
        StopEvent::Signal { pid, signal } => match phase_of(processes, pid) {
            Phase::Created => if signal == SIGSTOP {
                processes.insert(pid, Phase::AwaitingEntry)
            } else {
                processes.insert(pid, Phase::Created)
            },
            _ => processes,
        },
        StopEvent::NewProcess { pid, child } => {
            let heard = processes.insert(pid, phase_of(processes, pid));
            heard.insert(child, phase_of(heard, child))
        },
        StopEvent::Exec { pid } => processes.insert(pid, phase_of(processes, pid)),
        StopEvent::Exiting { pid } => processes.insert(pid, phase_of(processes, pid)),
        StopEvent::Gone { pid } => processes.remove(pid),
    }
}

/// What a stop asks for.
///
/// An entry is reported if the filter lets its name through, and a return if
/// its entry was reported; an entry whose number the table does not hold is
/// an error. The `SIGSTOP` that stops a created process is not delivered,
/// and on the root it has the options set; every other signal goes on to the
/// process. When a process is gone the trace is over if none is left.
pub open spec fn reaction(
    processes: Map<i32, Phase>,
    root: i32,
    filter: TraceFilter,
    event: StopEvent,
) -> Result<Action, TraceError> {
    match event {
        StopEvent::Syscall { pid, regs } => match phase_of(processes, pid) {
            Phase::AwaitingExit { name, reported } => if reported {
                Ok(Action::ReportReturn { pid, name, regs })
            } else {
                Ok(Action::Resume { pid, signal: None })
            },
            _ => if regs.orig_rax >= SYSCALL_COUNT {
                Err(TraceError::UnknownSyscall { pid, number: regs.orig_rax })
            } else if filter.reports(syscall_name(regs.orig_rax as int)) {
                Ok(Action::ReportEntry { pid, name: table(regs.orig_rax), regs })
            } else {
                Ok(Action::Resume { pid, signal: None })
            },
        },
        StopEvent::Signal { pid, signal } => match phase_of(processes, pid) {
            Phase::Created => if signal != SIGSTOP {
                Ok(Action::Resume { pid, signal: Some(signal) })
            } else if pid == root {
                Ok(Action::SetOptions { pid })
            } else {
                Ok(Action::Resume { pid, signal: None })
            },
            _ => Ok(Action::Resume { pid, signal: Some(signal) }),
        },
        StopEvent::NewProcess { pid, child } => Ok(Action::Resume { pid, signal: None }),
        StopEvent::Exec { pid } => Ok(Action::Resume { pid, signal: None }),
        StopEvent::Exiting { pid } => Ok(Action::Resume { pid, signal: None }),
        StopEvent::Gone { pid } => if processes.remove(pid).is_empty() {
            Ok(Action::Finish)
        } else {
            Ok(Action::Wait)
        },
    }
}

/// The tracer: the filter it reports by and the processes it traces, each
/// with its phase.
pub struct Tracer {
    root: i32,
    filter: TraceFilter,
    processes: HashMap<i32, Phase>,
}

impl Tracer {
    /// The process that the tracer started with.
    pub closed spec fn root(&self) -> i32 {
        self.root
    }

    /// The filter that the tracer reports by.
    pub closed spec fn filter(&self) -> TraceFilter {
        self.filter
    }

    /// The processes under trace, each with its phase.
    pub closed spec fn processes(&self) -> Map<i32, Phase> {
        self.processes@
    }

    /// A tracer for the process `root`, which was just created.
    pub fn new(root: i32, filter: TraceFilter) -> (tracer: Tracer)
        ensures
            tracer.root() == root,
            tracer.filter() == filter,
            tracer.processes() == Map::<i32, Phase>::empty().insert(root, Phase::Created),
    {
        let mut processes: HashMap<i32, Phase> = HashMap::new();
        processes.insert(root, Phase::Created);
        Tracer { root, filter, processes }
    }

    /// The phase of process `pid`, if it is under trace.
    pub fn phase(&self, pid: i32) -> (phase: Option<Phase>)
        ensures
            phase == if self.processes().contains_key(pid) {
                Some(self.processes()[pid])
            } else {
                None
            },
    {
        match self.processes.get(&pid) {
            Some(phase) => Some(*phase),
            None => None,
        }
    }

    /// How many processes are under trace.
    pub fn live(&self) -> (count: usize)
        ensures
            count == self.processes().len(),
    {
        self.processes.len()
    }

    /// Takes note of a stop and says what to do about it.
    pub fn on_stop(&mut self, event: StopEvent) -> (res: Result<Action, TraceError>)
        ensures
            res == reaction(old(self).processes(), old(self).root(), old(self).filter(), event),
            final(self).processes() == registry_after(
                old(self).processes(),
                old(self).filter(),
                event,
            ),
            final(self).root() == old(self).root(),
            final(self).filter() == old(self).filter(),
    {
        match event {
            StopEvent::Syscall { pid, regs } => {
                match self.current(pid) {
                    Phase::AwaitingExit { name, reported } => {
                        self.processes.insert(pid, Phase::AwaitingEntry);
                        if reported {
                            Ok(Action::ReportReturn { pid, name, regs })
                        } else {
                            Ok(Action::Resume { pid, signal: None })
                        }
                    },
                    _ => {
                        if regs.orig_rax >= SYSCALL_COUNT {
                            return Err(TraceError::UnknownSyscall { pid, number: regs.orig_rax });
                        }
                        let name = name_for(regs.orig_rax);
                        let reported = self.filter.should_report(name);
                        self.processes.insert(
                            pid,
                            Phase::AwaitingExit { name, reported },
                        );
                        if reported {
                            Ok(Action::ReportEntry { pid, name, regs })
                        } else {
                            Ok(Action::Resume { pid, signal: None })
                        }
                    },
                }
            },
            StopEvent::Signal { pid, signal } => {
                match self.current(pid) {
                    Phase::Created => {
                        if signal != SIGSTOP {
                            self.hear_of(pid);
                            Ok(Action::Resume { pid, signal: Some(signal) })
                        } else {
                            self.processes.insert(pid, Phase::AwaitingEntry);
                            if pid == self.root {
                                Ok(Action::SetOptions { pid })
                            } else {
                                Ok(Action::Resume { pid, signal: None })
                            }
                        }
                    },
                    _ => Ok(Action::Resume { pid, signal: Some(signal) }),
                }
            },
            StopEvent::NewProcess { pid, child } => {
                self.hear_of(pid);
                self.hear_of(child);
                Ok(Action::Resume { pid, signal: None })
            },
            StopEvent::Exec { pid } => {
                self.hear_of(pid);
                Ok(Action::Resume { pid, signal: None })
            },
            StopEvent::Exiting { pid } => {
                self.hear_of(pid);
                Ok(Action::Resume { pid, signal: None })
            },
            StopEvent::Gone { pid } => {
                self.processes.remove(&pid);
                if self.processes.is_empty() {
                    Ok(Action::Finish)
                } else {
                    Ok(Action::Wait)
                }
            },
        }
    }

    /// The phase of `pid`, a process that is not under trace counting as
    /// created.
    fn current(&self, pid: i32) -> (phase: Phase)
        ensures
            phase == phase_of(self.processes(), pid),
    {
        match self.processes.get(&pid) {
            Some(phase) => *phase,
            None => Phase::Created,
        }
    }

    /// Enters `pid` as created unless it is under trace already.
    fn hear_of(&mut self, pid: i32)
        ensures
            final(self).processes() == old(self).processes().insert(
                pid,
                phase_of(old(self).processes(), pid),
            ),
            final(self).root() == old(self).root(),
            final(self).filter() == old(self).filter(),
    {
        if !self.processes.contains_key(&pid) {
            self.processes.insert(pid, Phase::Created);
        } else {
            assert(self.processes@ == self.processes@.insert(pid, self.processes@[pid]));
        }
    }
}

/// The process that an event is about.
pub open spec fn subject(event: StopEvent) -> i32 {
    match event {
        StopEvent::Syscall { pid, .. } => pid,
        StopEvent::Signal { pid, .. } => pid,
        StopEvent::NewProcess { pid, .. } => pid,
        StopEvent::Exec { pid } => pid,
        StopEvent::Exiting { pid } => pid,
        StopEvent::Gone { pid } => pid,
    }
}

/// A stop of one process leaves every other process as it was, but for the
/// child that a new-process stop enters.
pub proof fn stop_leaves_others_alone(
    processes: Map<i32, Phase>,
    filter: TraceFilter,
    event: StopEvent,
    other: i32,
)
    requires
        other != subject(event),
        event matches StopEvent::NewProcess { child, .. } ==> other != child,
    ensures
        registry_after(processes, filter, event).contains_key(other) == processes.contains_key(
            other,
        ),
        phase_of(registry_after(processes, filter, event), other) == phase_of(processes, other),
{
}

/// The two stops of one system call belong together: after an entry whose
/// number the table holds, the process's next system-call stop is taken as
/// the exit from that call, and the return is reported exactly if the entry
/// was. After it the process awaits an entry again.
pub proof fn return_follows_entry(
    processes: Map<i32, Phase>,
    root: i32,
    filter: TraceFilter,
    pid: i32,
    entry: RegisterSnapshot,
    exit: RegisterSnapshot,
)
    requires
        !(phase_of(processes, pid) is AwaitingExit),
        entry.orig_rax < SYSCALL_COUNT,
    ensures
        ({
            let name = table(entry.orig_rax);
            let inside = registry_after(processes, filter, StopEvent::Syscall { pid, regs: entry });
            let first = reaction(processes, root, filter, StopEvent::Syscall { pid, regs: entry });
            let second = reaction(inside, root, filter, StopEvent::Syscall { pid, regs: exit });
            let outside = registry_after(inside, filter, StopEvent::Syscall { pid, regs: exit });
            &&& first == Ok::<Action, TraceError>(Action::ReportEntry { pid, name, regs: entry })
                <==> filter.reports(name@)
            &&& second == Ok::<Action, TraceError>(Action::ReportReturn { pid, name, regs: exit })
                <==> filter.reports(name@)
            &&& !filter.reports(name@) ==> first == Ok::<Action, TraceError>(
                Action::Resume { pid, signal: None },
            ) && second == first
            &&& phase_of(outside, pid) == Phase::AwaitingEntry
        }),
{
}

/// A signal that stops a process is handed on to it, except the `SIGSTOP`
/// that stops a created process: that one starts the process and is not
/// delivered.
pub proof fn signals_are_passed_on(
    processes: Map<i32, Phase>,
    root: i32,
    filter: TraceFilter,
    pid: i32,
    signal: i32,
)
    ensures
        ({
            let stop = StopEvent::Signal { pid, signal };
            let first = phase_of(processes, pid) == Phase::Created && signal == SIGSTOP;
            &&& !first ==> reaction(processes, root, filter, stop) == Ok::<Action, TraceError>(
                Action::Resume { pid, signal: Some(signal) },
            )
            &&& !first ==> phase_of(registry_after(processes, filter, stop), pid) == phase_of(
                processes,
                pid,
            )
            &&& first ==> phase_of(registry_after(processes, filter, stop), pid)
                == Phase::AwaitingEntry
            &&& first ==> reaction(processes, root, filter, stop) == Ok::<Action, TraceError>(
                if pid == root {
                    Action::SetOptions { pid }
                } else {
                    Action::Resume { pid, signal: None }
                },
            )
        }),
{
}

/// The trace is over exactly when the last process under trace is gone.
pub proof fn trace_ends_with_last_process(
    processes: Map<i32, Phase>,
    root: i32,
    filter: TraceFilter,
    pid: i32,
)
    ensures
        reaction(processes, root, filter, StopEvent::Gone { pid }) == Ok::<Action, TraceError>(
            Action::Finish,
        ) <==> forall|other: i32| processes.contains_key(other) ==> other == pid,
{
    let left = processes.remove(pid);
    if forall|other: i32| processes.contains_key(other) ==> other == pid {
        assert(left.dom() =~= Set::<i32>::empty());
    } else {
        let other = choose|other: i32| processes.contains_key(other) && other != pid;
        assert(left.contains_key(other));
    }
}

/// The registry after a run of stops, taken in turn.
pub open spec fn registry_after_all(
    processes: Map<i32, Phase>,
    filter: TraceFilter,
    events: Seq<StopEvent>,
) -> Map<i32, Phase>
    decreases events.len(),
{
    if events.len() == 0 {
        processes
    } else {
        registry_after(
            registry_after_all(processes, filter, events.drop_last()),
            filter,
            events.last(),
        )
    }
}

/// What stop `k` of a run of stops asks for.
pub open spec fn reaction_at(
    processes: Map<i32, Phase>,
    root: i32,
    filter: TraceFilter,
    events: Seq<StopEvent>,
    k: int,
) -> Result<Action, TraceError> {
    reaction(registry_after_all(processes, filter, events.take(k)), root, filter, events[k])
}

/// The stops that process `pid` reports when it makes `calls` one after
/// another: for each call the stop on the way in and the stop on the way
/// out, each with the registers that the call has there.
pub open spec fn stops_of_calls(
    pid: i32,
    calls: Seq<(RegisterSnapshot, RegisterSnapshot)>,
) -> Seq<StopEvent> {
    Seq::new(
        2 * calls.len(),
        |k: int|
            StopEvent::Syscall {
                pid,
                regs: if k % 2 == 0 {
                    calls[k / 2].0
                } else {
                    calls[k / 2].1
                },
            },
    )
}

/// What stop `k` of the stops of `calls` is to ask for: the two halves of
/// the line of its call, if the filter reports the call, and nothing but to
/// go on otherwise.
pub open spec fn report_of_calls(
    pid: i32,
    filter: TraceFilter,
    calls: Seq<(RegisterSnapshot, RegisterSnapshot)>,
    k: int,
) -> Action {
    let call = calls[k / 2];
    let name = table(call.0.orig_rax);
    if !filter.reports(name@) {
        Action::Resume { pid, signal: None }
    } else if k % 2 == 0 {
        Action::ReportEntry { pid, name, regs: call.0 }
    } else {
        Action::ReportReturn { pid, name, regs: call.1 }
    }
}

/// Between two calls of a run the process is not inside a call.
proof fn lemma_between_calls(
    processes: Map<i32, Phase>,
    filter: TraceFilter,
    pid: i32,
    calls: Seq<(RegisterSnapshot, RegisterSnapshot)>,
    done: int,
)
    requires
        !(phase_of(processes, pid) is AwaitingExit),
        forall|i: int| 0 <= i < calls.len() ==> (#[trigger] calls[i]).0.orig_rax < SYSCALL_COUNT,
        0 <= done <= calls.len(),
    ensures
        !(phase_of(
            registry_after_all(processes, filter, stops_of_calls(pid, calls).take(2 * done)),
            pid,
        ) is AwaitingExit),
    decreases done,
{
    let stops = stops_of_calls(pid, calls);
    if done > 0 {
        lemma_between_calls(processes, filter, pid, calls, done - 1);
        let before = stops.take(2 * done - 2);
        let inside = stops.take(2 * done - 1);
        let after = stops.take(2 * done);
        let entry = calls[done - 1].0;
        let exit = calls[done - 1].1;
        assert(entry.orig_rax < SYSCALL_COUNT);
        assert(after.drop_last() == inside);
        assert(inside.drop_last() == before);
        assert(inside.last() == StopEvent::Syscall { pid, regs: entry });
        assert(after.last() == StopEvent::Syscall { pid, regs: exit });
        let outside = registry_after_all(processes, filter, before);
        let within = registry_after(outside, filter, StopEvent::Syscall { pid, regs: entry });
        assert(registry_after_all(processes, filter, inside) == within);
        assert(phase_of(within, pid) is AwaitingExit);
        assert(registry_after_all(processes, filter, after) == registry_after(
            within,
            filter,
            StopEvent::Syscall { pid, regs: exit },
        ));
    } else {
        assert(stops.take(0).len() == 0);
    }
}

/// A process that makes one call after another is reported call by call:
/// for each call that the filter reports, the first half of its line on the
/// way in and the second half on the way out, under the call's name and the
/// process's identifier; for each other call, nothing. So a process that
/// makes three calls that the filter reports, and any number that it does
/// not, gets three whole lines.
pub proof fn calls_are_reported_in_pairs(
    processes: Map<i32, Phase>,
    root: i32,
    filter: TraceFilter,
    pid: i32,
    calls: Seq<(RegisterSnapshot, RegisterSnapshot)>,
)
    requires
        !(phase_of(processes, pid) is AwaitingExit),
        forall|i: int| 0 <= i < calls.len() ==> (#[trigger] calls[i]).0.orig_rax < SYSCALL_COUNT,
    ensures
        forall|k: int|
            0 <= k < 2 * calls.len() ==> #[trigger] reaction_at(
                processes,
                root,
                filter,
                stops_of_calls(pid, calls),
                k,
            ) == Ok::<Action, TraceError>(report_of_calls(pid, filter, calls, k)),
        !(phase_of(registry_after_all(processes, filter, stops_of_calls(pid, calls)), pid)
            is AwaitingExit),
{
    let stops = stops_of_calls(pid, calls);
    assert forall|k: int| 0 <= k < 2 * calls.len() implies #[trigger] reaction_at(
        processes,
        root,
        filter,
        stops,
        k,
    ) == Ok::<Action, TraceError>(report_of_calls(pid, filter, calls, k)) by {
        let done = k / 2;
        lemma_between_calls(processes, filter, pid, calls, done);
        assert(calls[done].0.orig_rax < SYSCALL_COUNT);
        if k % 2 == 1 {
            let before = stops.take(2 * done);
            let inside = stops.take(k);
            let entry = calls[done].0;
            assert(inside.drop_last() == before);
            assert(inside.last() == StopEvent::Syscall { pid, regs: entry });
            assert(registry_after_all(processes, filter, inside) == registry_after(
                registry_after_all(processes, filter, before),
                filter,
                StopEvent::Syscall { pid, regs: entry },
            ));
        } else {
            assert(stops.take(k) == stops.take(2 * done));
        }
    }
    lemma_between_calls(processes, filter, pid, calls, calls.len() as int);
    assert(stops.take(2 * (calls.len() as int)) == stops);
}

} // verus!
