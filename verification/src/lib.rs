//! The core of a system-call tracer for x86-64 Linux.
//!
//! A tracer runs a program under `ptrace` and writes one line for each
//! system call that the program and its descendants make:
//! `[pid]: name(args) = value`. This library holds what such a tracer
//! decides and computes:
//!
//! - [`system_call_names`]: the table from a system call's number to its name;
//! - [`memory`]: reading a NUL-terminated string out of a traced process, a
//!   word at a time;
//! - [`registers`]: the registers of a stopped process and what a trace reads
//!   from them;
//! - [`filter`] and [`args`]: which system calls are reported, and the
//!   configuration that says so;
//! - [`report`]: the text of a trace line;
//! - [`stops`] and [`tracer`]: what each stop of a traced process means, and
//!   the state machine that answers it;
//! - [`options`]: the tracing options that the tracer sets.
//!
//! Waiting for stops, resuming processes and writing the lines are left to
//! the program that drives the [`tracer::Tracer`].

pub mod args;
pub mod error;
pub mod filter;
pub mod memory;
pub mod options;
pub mod registers;
pub mod report;
pub mod stops;
pub mod system_call_names;
pub mod text;
pub mod tracer;
