//! The text of a trace line: `[pid]: name(args) = value`, written in two
//! halves, one when a system call is entered and one when it returns.

use crate::error::TraceError;
use crate::memory::{read_gives, read_string, ReadError};
use crate::registers::{extract_return_value, signed, RegisterSnapshot};
use vstd::prelude::*;
use vstd::string::StringExecFns;

verus! {

/// Return values beyond this magnitude are written in hexadecimal.
pub const HEX_THRESHOLD: i64 = 10000;

/// The character that stands for the digit `d` of a base up to sixteen.
pub open spec fn digit_char(d: int) -> char {
    if d < 10 {
        (d + 48) as char
    } else {
        (d + 87) as char
    }
}

/// The digits of `n` in base `base`, most significant first and without
/// leading zeros.
pub open spec fn digits(n: nat, base: nat) -> Seq<char>
    decreases n,
{
    if base < 2 || n < base {
        seq![digit_char(n as int)]
    } else {
        proof {
            assert(n / base < n) by (nonlinear_arith)
                requires
                    n >= base,
                    base >= 2,
            ;
        }
        digits(n / base, base).push(digit_char((n % base) as int))
    }
}

/// `value` in decimal, with a minus sign if it is negative.
pub open spec fn decimal(value: int) -> Seq<char> {
    if value < 0 {
        seq!['-'] + digits((-value) as nat, 10)
    } else {
        digits(value as nat, 10)
    }
}

/// The 64 bits of `value` in hexadecimal after `0x`, a negative number in
/// two's complement.
pub open spec fn hexadecimal(value: int) -> Seq<char> {
    if value < 0 {
        "0x"@ + digits((value + 0x1_0000_0000_0000_0000) as nat, 16)
    } else {
        "0x"@ + digits(value as nat, 16)
    }
}

/// How a return value is written: in decimal, or in hexadecimal if its
/// magnitude is beyond the threshold.
pub open spec fn return_text(value: int) -> Seq<char> {
    if value > HEX_THRESHOLD || value < -HEX_THRESHOLD {
        hexadecimal(value)
    } else {
        decimal(value)
    }
}

/// Whether the first argument of the system call called `name` is written
/// out as a path.
pub open spec fn takes_path(name: Seq<char>) -> bool {
    name == "execve"@ || name == "access"@
}

/// The first half of a trace line. The arguments are empty unless `path` is
/// given, which is then written between double quotes.
pub open spec fn entry_text(pid: int, name: Seq<char>, path: Option<Seq<char>>) -> Seq<char> {
    let head = "["@ + decimal(pid) + "]: "@ + name;
    match path {
        Some(p) => head + "(\""@ + p + "\") = "@,
        None => head + "() = "@,
    }
}

/// Appends the digits of `n` in base `base`.
fn push_digits(text: &mut String, n: u64, base: u64)
    requires
        2 <= base <= 16,
    ensures
        final(text)@ == old(text)@ + digits(n as nat, base as nat),
    decreases n,
{
    if n >= base {
        assert(n / base < n) by (nonlinear_arith)
            requires
                n >= base,
                base >= 2,
        ;
        push_digits(text, n / base, base);
    }
    let d: u64 = n % base;
    let c: char = if d < 10 {
        (d as u8 + 48) as char
    } else {
        (d as u8 + 87) as char
    };
    text.push(c);
    proof {
        assert(c == digit_char(d as int));
        if n >= base {
            let upper = digits((n / base) as nat, base as nat);
            assert((old(text)@ + upper).push(c) == old(text)@ + upper.push(c));
        } else {
            assert(n % base == n) by (nonlinear_arith)
                requires
                    n < base,
            ;
            assert(old(text)@.push(c) == old(text)@ + seq![c]);
        }
    }
}

/// Appends `value` in decimal.
fn push_decimal(text: &mut String, value: i64)
    ensures
        final(text)@ == old(text)@ + decimal(value as int),
{
    if value < 0 {
        text.push('-');
        let ghost signed = text@;
        push_digits(text, (-(value + 1)) as u64 + 1, 10);
        assert(text@ == old(text)@ + (seq!['-'] + digits((-value) as nat, 10))) by {
            assert(signed == old(text)@ + seq!['-']);
        }
    } else {
        push_digits(text, value as u64, 10);
    }
}

/// Writes a system call's return value.
pub fn render_return(value: i64) -> (text: String)
    ensures
        text@ == return_text(value as int),
{
    let mut text = String::new();
    if value > HEX_THRESHOLD || value < -HEX_THRESHOLD {
        text.append("0x");
        let bits: u64 = if value < 0 {
            (value - i64::MIN) as u64 + 0x8000_0000_0000_0000
        } else {
            value as u64
        };
        push_digits(&mut text, bits, 16);
    } else {
        push_decimal(&mut text, value);
    }
    text
}

/// Writes the first half of a trace line.
pub fn render_entry(pid: i32, name: &str, path: Option<&str>) -> (text: String)
    ensures
        text@ == entry_text(
            pid as int,
            name@,
            match path {
                Some(p) => Some(p@),
                None => None,
            },
        ),
{
    let mut text = String::from_str("[");
    push_decimal(&mut text, pid as i64);
    text.append("]: ");
    text.append(name);
    match path {
        Some(p) => {
            text.append("(\"");
            text.append(p);
            text.append("\") = ");
        },
        None => {
            text.append("() = ");
        },
    }
    text
}

/// A result with the text taken by its characters.
pub open spec fn in_chars<E>(res: Result<String, E>) -> Result<Seq<char>, E> {
    match res {
        Ok(text) => Ok(text@),
        Err(error) => Err(error),
    }
}

/// What the first half of the trace line for a call with a path comes to,
/// given what reading the path gave: the line with the path, or no line and
/// the failure of the read.
pub open spec fn entry_outcome(
    pid: i32,
    name: Seq<char>,
    path: Result<Seq<char>, ReadError>,
) -> Result<Seq<char>, TraceError> {
    match path {
        Ok(p) => Ok(entry_text(pid as int, name, Some(p))),
        Err(cause) => Err(TraceError::Memory { pid, cause }),
    }
}

/// The first half of the trace line for a call with a path, from what
/// reading the path gave. A path that could not be read gives no line.
pub fn entry_of(pid: i32, name: &str, path: Result<String, ReadError>) -> (res: Result<
    String,
    TraceError,
>)
    ensures
        in_chars(res) == entry_outcome(pid, name@, in_chars(path)),
{
    match path {
        Ok(p) => Ok(render_entry(pid, name, Some(p.as_str()))),
        Err(cause) => Err(TraceError::Memory { pid, cause }),
    }
}

/// The first half of the trace line for a system call that process `pid` is
/// about to make. For `execve` and `access` the first argument is read out of
/// the process's memory as a path; the other calls are written without
/// arguments. A path that cannot be read is an error, not a shorter path.
pub fn handle_pre_syscall(regs: RegisterSnapshot, name: &str, pid: i32) -> (res: Result<
    String,
    TraceError,
>)
    ensures
        !takes_path(name@) ==> in_chars(res) == Ok::<Seq<char>, TraceError>(
            entry_text(pid as int, name@, None),
        ),
        takes_path(name@) ==> exists|
            answers: Seq<Result<i64, i32>>,
            path: Result<String, ReadError>,
        |
            #[trigger] read_gives(regs.rdi, answers, path) && in_chars(res) == entry_outcome(
                pid,
                name@,
                in_chars(path),
            ),
{
    if name.eq("execve") || name.eq("access") {
        let path = read_string(pid, regs.rdi);
        entry_of(pid, name, path)
    } else {
        Ok(render_entry(pid, name, None))
    }
}

/// The second half of a trace line: the value that the system call returned.
pub fn handle_post_syscall(regs: RegisterSnapshot, _name: &str, _pid: i32) -> (text: String)
    ensures
        text@ == return_text(signed(regs.rax)),
{
    render_return(extract_return_value(regs))
}

} // verus!
