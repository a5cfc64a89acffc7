//! The tracer's configuration: which calls to trace, and the program to run.

use crate::filter::{is_listed, listed, TraceFilter};
use crate::system_call_names::{is_syscall_name, name_for, number_of, SYSCALL_COUNT, syscall_name};
use vstd::prelude::*;
use vstd::string::StringExecFns;

verus! {

/// Why a configuration was turned down, in words.
#[derive(Debug)]
pub struct InvalidOption(String);

impl View for InvalidOption {
    type V = Seq<char>;

    closed spec fn view(&self) -> Seq<char> {
        self.0@
    }
}

impl InvalidOption {
    /// The complaint, in words.
    pub fn message(&self) -> (text: &str)
        ensures
            text@ == self@,
    {
        self.0.as_str()
    }
}

/// The complaint about a configuration that names calls to trace and calls to
/// leave out at once.
pub open spec fn conflict_complaint() -> Seq<char> {
    "to_trace and dont_trace cannot both be given"@
}

/// The complaint about a name that is no system call.
pub open spec fn unknown_complaint(name: Seq<char>) -> Seq<char> {
    "unknown system call: "@ + name
}

/// Whether `names[at]` is the first of `names` that is no system call.
pub open spec fn first_unknown(names: Seq<String>, at: int) -> bool {
    &&& 0 <= at < names.len()
    &&& !is_syscall_name(names[at]@)
    &&& forall|i: int| 0 <= i < at ==> is_syscall_name((#[trigger] names[i])@)
}

/// Whether every one of `names` is a system call.
pub open spec fn all_known(names: Seq<String>) -> bool {
    forall|i: int| 0 <= i < names.len() ==> is_syscall_name((#[trigger] names[i])@)
}

/// The place of the first of `names` that is no system call, if there is one.
pub fn find_unknown(names: &Vec<String>) -> (found: Option<usize>)
    ensures
        match found {
            Some(at) => first_unknown(names@, at as int),
            None => all_known(names@),
        },
{
    let mut i: usize = 0;
    while i < names.len()
        invariant
            i <= names.len(),
            forall|j: int| 0 <= j < i ==> is_syscall_name((#[trigger] names@[j])@),
        decreases names.len() - i,
    {
        if number_of(names[i].as_str()).is_none() {
            return Some(i);
        }
        i += 1;
    }
    None
}

/// Whether `name` is the name of a system call whose number is below `bound`.
pub open spec fn named_below(bound: int, name: Seq<char>) -> bool {
    exists|nr: int| 0 <= nr < bound && syscall_name(nr) == name
}

/// Whether `name` is one of `names`.
pub open spec fn holds(names: Seq<&str>, name: Seq<char>) -> bool {
    exists|i: int| 0 <= i < names.len() && (#[trigger] names[i])@ == name
}

/// Whether no name occurs twice in `names`.
pub open spec fn distinct(names: Seq<&str>) -> bool {
    forall|i: int, j: int|
        0 <= i < j < names.len() ==> (#[trigger] names[i])@ != (#[trigger] names[j])@
}

/// Whether `name` is one of `names`.
fn holds_name(names: &Vec<&str>, name: &str) -> (found: bool)
    ensures
        found == holds(names@, name@),
{
    let mut i: usize = 0;
    while i < names.len()
        invariant
            i <= names.len(),
            forall|j: int| 0 <= j < i ==> (#[trigger] names@[j])@ != name@,
        decreases names.len() - i,
    {
        if names[i].eq(name) {
            return true;
        }
        i += 1;
    }
    false
}

/// Adds `name` to `names` unless it is there already.
fn add_name<'a>(names: &mut Vec<&'a str>, name: &'a str)
    requires
        distinct(old(names)@),
    ensures
        distinct(final(names)@),
        forall|other: Seq<char>|
            holds(final(names)@, other) <==> holds(old(names)@, other) || other == name@,
{
    if !holds_name(names, name) {
        let ghost before = names@;
        names.push(name);
        proof {
            assert forall|other: Seq<char>|
                holds(names@, other) <==> holds(before, other) || other == name@ by {
                if holds(before, other) {
                    let i = choose|i: int|
                        0 <= i < before.len() && (#[trigger] before[i])@ == other;
                    assert(names@[i]@ == other);
                }
                if other == name@ {
                    assert(names@[before.len() as int]@ == other);
                }
                if holds(names@, other) {
                    let i = choose|i: int|
                        0 <= i < names@.len() && (#[trigger] names@[i])@ == other;
                    if i < before.len() {
                        assert(before[i]@ == other);
                    }
                }
            }
            assert forall|i: int, j: int| 0 <= i < j < names@.len() implies (#[trigger] names@[i])@
                != (#[trigger] names@[j])@ by {
                if j == before.len() {
                    assert(before[i]@ != name@);
                } else {
                    assert(before[i]@ != before[j]@);
                }
            }
        }
    }
}

/// What the command line asked for.
#[derive(Debug)]
pub struct Opt {
    /// The system calls to trace; empty when none were named.
    pub to_trace: Vec<String>,
    /// The system calls to leave out; empty when none were named.
    pub dont_trace: Vec<String>,
    /// The program to run under the tracer.
    pub exe: String,
    /// The arguments to hand to that program.
    pub exe_args: Vec<String>,
}

impl Opt {
    /// Whether calls to trace and calls to leave out are both named.
    pub open spec fn conflicting(&self) -> bool {
        self.to_trace@.len() > 0 && self.dont_trace@.len() > 0
    }

    /// Whether the configuration is acceptable: it names calls to trace or
    /// calls to leave out but not both, and every name is a system call.
    pub open spec fn valid(&self) -> bool {
        &&& !self.conflicting()
        &&& all_known(self.to_trace@)
        &&& all_known(self.dont_trace@)
    }

    /// The complaint that an unacceptable configuration draws: about the
    /// conflict first, else about the first unknown name, those of
    /// `to_trace` before those of `dont_trace`.
    pub open spec fn complaint(&self, text: Seq<char>) -> bool {
        if self.conflicting() {
            text == conflict_complaint()
        } else if !all_known(self.to_trace@) {
            exists|at: int| #[trigger]
                first_unknown(self.to_trace@, at) && text == unknown_complaint(self.to_trace@[at]@)
        } else {
            exists|at: int| #[trigger]
                first_unknown(self.dont_trace@, at) && text == unknown_complaint(
                    self.dont_trace@[at]@,
                )
        }
    }

    /// Whether a trace under this configuration covers the system call
    /// called `name`: a call of `to_trace`, if it names any; else any system
    /// call that `dont_trace` does not name.
    pub open spec fn traces(&self, name: Seq<char>) -> bool {
        if self.to_trace@.len() > 0 {
            listed(self.to_trace@, name)
        } else {
            is_syscall_name(name) && !listed(self.dont_trace@, name)
        }
    }

    /// Accepts the configuration or says what is wrong with it.
    pub fn validate(&self) -> (res: Result<(), InvalidOption>)
        ensures
            res is Ok <==> self.valid(),
            res matches Err(e) ==> self.complaint(e@),
    {
        if self.to_trace.len() > 0 && self.dont_trace.len() > 0 {
            let text = String::from_str("to_trace and dont_trace cannot both be given");
            return Err(InvalidOption(text));
        }
        if let Some(at) = find_unknown(&self.to_trace) {
            let text = String::from_str("unknown system call: ").concat(self.to_trace[at].as_str());
            return Err(InvalidOption(text));
        }
        if let Some(at) = find_unknown(&self.dont_trace) {
            let text = String::from_str("unknown system call: ").concat(
                self.dont_trace[at].as_str(),
            );
            return Err(InvalidOption(text));
        }
        Ok(())
    }

    /// The names of the system calls to trace, each once: those of
    /// `to_trace`, if it names any; else every system call that `dont_trace`
    /// does not name.
    pub fn syscalls_to_trace(&self) -> (names: Vec<&str>)
        ensures
            forall|name: Seq<char>| holds(names@, name) <==> self.traces(name),
            distinct(names@),
    {
        let mut names: Vec<&str> = Vec::new();
        if self.to_trace.len() > 0 {
            let mut i: usize = 0;
            while i < self.to_trace.len()
                invariant
                    i <= self.to_trace.len(),
                    distinct(names@),
                    forall|name: Seq<char>|
                        holds(names@, name) <==> listed(self.to_trace@.take(i as int), name),
                decreases self.to_trace.len() - i,
            {
                let ghost before = names@;
                add_name(&mut names, self.to_trace[i].as_str());
                proof {
                    let shorter = self.to_trace@.take(i as int);
                    let longer = self.to_trace@.take(i + 1);
                    assert forall|name: Seq<char>|
                        listed(longer, name) <==> listed(shorter, name) || name
                            == self.to_trace@[i as int]@ by {
                        if listed(shorter, name) {
                            let k = choose|k: int|
                                0 <= k < shorter.len() && (#[trigger] shorter[k])@ == name;
                            assert(longer[k]@ == name);
                        }
                        if name == self.to_trace@[i as int]@ {
                            assert(longer[i as int]@ == name);
                        }
                        if listed(longer, name) {
                            let k = choose|k: int|
                                0 <= k < longer.len() && (#[trigger] longer[k])@ == name;
                            if k < i {
                                assert(shorter[k]@ == name);
                            }
                        }
                    }
                }
                i += 1;
            }
            proof {
                assert(self.to_trace@.take(i as int) == self.to_trace@);
            }
        } else {
            let mut nr: u64 = 0;
            while nr < SYSCALL_COUNT
                invariant
                    nr <= SYSCALL_COUNT,
                    distinct(names@),
                    forall|name: Seq<char>|
                        holds(names@, name) <==> named_below(nr as int, name) && !listed(
                            self.dont_trace@,
                            name,
                        ),
                decreases SYSCALL_COUNT - nr,
            {
                let name = name_for(nr);
                let ghost before = names@;
                let skip = is_listed(&self.dont_trace, name);
                if !skip {
                    add_name(&mut names, name);
                }
                proof {
                    assert forall|other: Seq<char>|
                        holds(names@, other) <==> named_below(nr + 1, other) && !listed(
                            self.dont_trace@,
                            other,
                        ) by {
                        if named_below(nr as int, other) {
                            let k = choose|k: int| 0 <= k < nr && syscall_name(k) == other;
                            assert(0 <= k < nr + 1 && syscall_name(k) == other);
                        }
                        if other == name@ {
                            assert(syscall_name(nr as int) == other);
                        }
                        if named_below(nr + 1, other) {
                            let k = choose|k: int| 0 <= k < nr + 1 && syscall_name(k) == other;
                            if k < nr {
                                assert(named_below(nr as int, other));
                            }
                        }
                        assert(holds(before, other) <==> named_below(nr as int, other) && !listed(
                            self.dont_trace@,
                            other,
                        ));
                    }
                }
                nr += 1;
            }
            proof {
                assert forall|name: Seq<char>| named_below(nr as int, name) <==> is_syscall_name(
                    name,
                ) by {
                    if named_below(nr as int, name) {
                        let k = choose|k: int| 0 <= k < nr && syscall_name(k) == name;
                        assert(0 <= k < SYSCALL_COUNT && syscall_name(k) == name);
                    }
                    if is_syscall_name(name) {
                        let k = choose|k: int| 0 <= k < SYSCALL_COUNT && syscall_name(k) == name;
                        assert(0 <= k < nr && syscall_name(k) == name);
                    }
                }
            }
        }
        names
    }
}

/// The filter made of a configuration's two lists reports a system call
/// exactly if the configuration traces it.
pub proof fn filter_reports_what_is_traced(opt: Opt, name: Seq<char>)
    requires
        is_syscall_name(name),
    ensures
        TraceFilter::chosen(opt.to_trace, opt.dont_trace).reports(name) == opt.traces(name),
{
    if opt.to_trace@.len() == 0 && opt.dont_trace@.len() == 0 {
        assert(!listed(opt.dont_trace@, name));
    }
}

} // verus!
