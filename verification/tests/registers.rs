use stracer::error::TraceError;
use stracer::options::{applied, ptrace_set_options, tracer_options};
use stracer::registers::{
    extract_return_value, extract_syscall_name, extract_syscall_number, fetched, get_regs,
    RegisterSnapshot,
};

fn regs(orig_rax: u64, rax: u64) -> RegisterSnapshot {
    RegisterSnapshot { orig_rax, rax, rdi: 0, rsi: 0, rdx: 0, r10: 0, r8: 0, r9: 0 }
}

#[test]
fn number_and_name_come_from_orig_rax() {
    let r = regs(39, 0xdead);
    assert_eq!(extract_syscall_number(r), 39);
    assert_eq!(extract_syscall_name(r), "getpid");
    assert_eq!(extract_syscall_name(regs(0, 39)), "read");
}

#[test]
fn return_value_is_rax_read_as_a_signed_number() {
    assert_eq!(extract_return_value(regs(0, 0)), 0);
    assert_eq!(extract_return_value(regs(0, 1234)), 1234);
    assert_eq!(extract_return_value(regs(0, 0x7fff_ffff)), 0x7fff_ffff);
    assert_eq!(extract_return_value(regs(0, 0x8000_0000)), 0x8000_0000);
    assert_eq!(extract_return_value(regs(0, 0xffff_ffff)), 0xffff_ffff);
    assert_eq!(extract_return_value(regs(0, u64::MAX)), -1);
    assert_eq!(extract_return_value(regs(0, (-2i64) as u64)), -2);
    assert_eq!(extract_return_value(regs(0, 0x7f00_0000_1000)), 0x7f00_0000_1000);
    assert_eq!(extract_return_value(regs(0, i64::MAX as u64)), i64::MAX);
    assert_eq!(extract_return_value(regs(0, 1 << 63)), i64::MIN);
    for rax in [0u64, 1, 4096, 1 << 31, 1 << 32, 1 << 62, (1 << 63) + 5, u64::MAX - 37] {
        assert_eq!(extract_return_value(regs(0, rax)), rax as i64);
    }
}

#[test]
fn registers_of_a_process_that_is_not_traced_cannot_be_fetched() {
    match get_regs(i32::MAX) {
        Err(TraceError::Registers { pid, errno }) => {
            assert_eq!(pid, i32::MAX);
            assert!(errno != 0);
        }
        other => panic!("unexpected result {:?}", other),
    }
}

#[test]
fn options_of_a_process_that_is_not_traced_cannot_be_set() {
    match ptrace_set_options(i32::MAX) {
        Err(TraceError::Options { pid, errno }) => {
            assert_eq!(pid, i32::MAX);
            assert!(errno != 0);
        }
        other => panic!("unexpected result {:?}", other),
    }
}

#[test]
fn the_tracer_asks_for_every_option() {
    let o = tracer_options();
    assert!(o.mark_syscalls);
    assert!(o.follow_fork);
    assert!(o.follow_vfork);
    assert!(o.follow_clone);
    assert!(o.stop_on_exec);
    assert!(o.stop_on_exit);
}

#[test]
fn registers_that_were_fetched_come_through_as_they_are() {
    let r = RegisterSnapshot {
        orig_rax: 59,
        rax: u64::MAX,
        rdi: 1,
        rsi: 2,
        rdx: 3,
        r10: 4,
        r8: 5,
        r9: 6,
    };
    assert_eq!(fetched(42, Ok(r)), Ok(r));
    assert_eq!(fetched(42, Ok(regs(0, 0))), Ok(regs(0, 0)));
}

#[test]
fn a_failed_fetch_names_the_process_and_the_error_number() {
    for errno in [1, 3, 5] {
        assert_eq!(fetched(42, Err(errno)), Err(TraceError::Registers { pid: 42, errno }));
    }
    assert_eq!(fetched(-1, Err(3)), Err(TraceError::Registers { pid: -1, errno: 3 }));
}

#[test]
fn options_that_the_kernel_took_are_set() {
    assert_eq!(applied(42, Ok(())), Ok(()));
}

#[test]
fn options_that_the_kernel_refused_name_the_process_and_the_error_number() {
    for errno in [1, 3, 22] {
        assert_eq!(applied(42, Err(errno)), Err(TraceError::Options { pid: 42, errno }));
    }
}
