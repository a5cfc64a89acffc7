//! Which system calls a trace reports.

use vstd::prelude::*;

verus! {

/// Whether `name` is one of `names`.
pub open spec fn listed(names: Seq<String>, name: Seq<char>) -> bool {
    exists|i: int| 0 <= i < names.len() && (#[trigger] names[i])@ == name
}

/// Whether `name` is one of `names`.
pub fn is_listed(names: &Vec<String>, name: &str) -> (found: bool)
    ensures
        found == listed(names@, name@),
{
    let mut i: usize = 0;
    while i < names.len()
        invariant
            i <= names.len(),
            forall|j: int| 0 <= j < i ==> (#[trigger] names@[j])@ != name@,
        decreases names.len() - i,
    {
        if names[i].as_str().eq(name) {
            return true;
        }
        i += 1;
    }
    false
}

/// The rule that decides which system calls are reported. A filter names the
/// calls to report or the calls to leave out, never both.
#[derive(Debug)]
pub enum TraceFilter {
    /// Every system call is reported.
    Everything,
    /// The named system calls are reported, and no others.
    Only(Vec<String>),
    /// Every system call is reported but the named ones.
    AllBut(Vec<String>),
}

impl TraceFilter {
    /// Whether the filter lets the system call called `name` be reported.
    pub open spec fn reports(&self, name: Seq<char>) -> bool {
        match self {
            TraceFilter::Everything => true,
            TraceFilter::Only(names) => listed(names@, name),
            TraceFilter::AllBut(names) => !listed(names@, name),
        }
    }

    /// The filter that two lists of names ask for. In order: the calls of
    /// `to_trace` alone, if it names any; else all calls but those of
    /// `dont_trace`, if it names any; else every call.
    pub open spec fn chosen(to_trace: Vec<String>, dont_trace: Vec<String>) -> TraceFilter {
        if to_trace@.len() > 0 {
            TraceFilter::Only(to_trace)
        } else if dont_trace@.len() > 0 {
            TraceFilter::AllBut(dont_trace)
        } else {
            TraceFilter::Everything
        }
    }

    /// The filter that two lists of names ask for.
    pub fn new(to_trace: Vec<String>, dont_trace: Vec<String>) -> (filter: TraceFilter)
        ensures
            filter == TraceFilter::chosen(to_trace, dont_trace),
    {
        if to_trace.len() > 0 {
            TraceFilter::Only(to_trace)
        } else if dont_trace.len() > 0 {
            TraceFilter::AllBut(dont_trace)
        } else {
            TraceFilter::Everything
        }
    }

    /// Whether the system call called `syscall_name` is to be reported.
    pub fn should_report(&self, syscall_name: &str) -> (report: bool)
        ensures
            report == self.reports(syscall_name@),
    {
        match self {
            TraceFilter::Everything => true,
            TraceFilter::Only(names) => is_listed(names, syscall_name),
            TraceFilter::AllBut(names) => !is_listed(names, syscall_name),
        }
    }
}

/// The filter that reports the calls of a list and the filter that leaves
/// them out never agree: each reports exactly what the other does not.
pub proof fn inclusion_complements_exclusion(names: Vec<String>, name: Seq<char>)
    ensures
        TraceFilter::Only(names).reports(name) == !TraceFilter::AllBut(names).reports(name),
{
}

/// The filter that stands for "no restriction" reports every name.
pub proof fn everything_reports_all(name: Seq<char>)
    ensures
        TraceFilter::Everything.reports(name),
{
}

/// What a filter answers depends on the name and on which names its list
/// holds, not on their order or on how often one occurs.
pub proof fn report_depends_on_names_alone(a: Vec<String>, b: Vec<String>, name: Seq<char>)
    requires
        forall|n: Seq<char>| listed(a@, n) == listed(b@, n),
    ensures
        TraceFilter::Only(a).reports(name) == TraceFilter::Only(b).reports(name),
        TraceFilter::AllBut(a).reports(name) == TraceFilter::AllBut(b).reports(name),
{
}

} // verus!
