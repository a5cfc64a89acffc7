use stracer::error::{TraceError, ECHILD, ESRCH};
use stracer::stops::{
    child_event, observe, resume_failure, wait_failure, WaitReport, EVENT_CLONE, EVENT_EXEC,
    EVENT_EXIT, EVENT_FORK, EVENT_VFORK,
};
use stracer::tracer::StopEvent;

#[test]
fn a_process_that_exited_or_was_killed_is_gone() {
    assert_eq!(observe(WaitReport::Exited { pid: 5, code: 0 }), Ok(StopEvent::Gone { pid: 5 }));
    assert_eq!(observe(WaitReport::Exited { pid: 5, code: 127 }), Ok(StopEvent::Gone { pid: 5 }));
    assert_eq!(observe(WaitReport::Killed { pid: 6, signal: 9 }), Ok(StopEvent::Gone { pid: 6 }));
}

#[test]
fn a_stop_by_a_signal_is_a_signal_stop() {
    assert_eq!(
        observe(WaitReport::Stopped { pid: 5, signal: 19 }),
        Ok(StopEvent::Signal { pid: 5, signal: 19 })
    );
}

#[test]
fn exec_and_exit_events_stand_for_themselves() {
    assert_eq!(
        observe(WaitReport::EventStop { pid: 5, event: EVENT_EXEC }),
        Ok(StopEvent::Exec { pid: 5 })
    );
    assert_eq!(
        observe(WaitReport::EventStop { pid: 5, event: EVENT_EXIT }),
        Ok(StopEvent::Exiting { pid: 5 })
    );
}

#[test]
fn an_event_that_was_not_asked_for_is_an_error() {
    for event in [0, 5, 7, 128, -1] {
        assert_eq!(
            observe(WaitReport::EventStop { pid: 5, event }),
            Err(TraceError::UnknownEvent { pid: 5, event })
        );
    }
}

#[test]
fn event_numbers_are_the_kernels() {
    assert_eq!(
        (EVENT_FORK, EVENT_VFORK, EVENT_CLONE, EVENT_EXEC, EVENT_EXIT),
        (1, 2, 3, 4, 6)
    );
}

#[test]
fn a_system_call_stop_of_a_process_that_is_not_traced_fails_on_the_registers() {
    match observe(WaitReport::SyscallStop { pid: i32::MAX }) {
        Err(TraceError::Registers { pid, errno }) => {
            assert_eq!(pid, i32::MAX);
            assert!(errno != 0);
        }
        other => panic!("unexpected result {:?}", other),
    }
}

#[test]
fn a_fork_event_of_a_process_that_is_not_traced_fails_on_the_message() {
    for event in [EVENT_FORK, EVENT_VFORK, EVENT_CLONE] {
        match observe(WaitReport::EventStop { pid: i32::MAX, event }) {
            Err(TraceError::EventMessage { pid, errno }) => {
                assert_eq!(pid, i32::MAX);
                assert!(errno != 0);
            }
            other => panic!("unexpected result {:?}", other),
        }
    }
}

#[test]
fn the_message_of_a_fork_event_is_the_child() {
    assert_eq!(child_event(10, 11), Ok(StopEvent::NewProcess { pid: 10, child: 11 }));
    assert_eq!(
        child_event(10, i32::MAX as i64),
        Ok(StopEvent::NewProcess { pid: 10, child: i32::MAX })
    );
}

#[test]
fn a_message_that_is_no_process_is_an_error() {
    for message in [0, -1, i32::MAX as i64 + 1, i64::MIN, i64::MAX] {
        assert_eq!(child_event(10, message), Err(TraceError::BadChild { pid: 10, child: message }));
    }
}

#[test]
fn a_process_that_vanished_before_it_was_resumed_is_gone() {
    assert_eq!(ESRCH, 3);
    assert_eq!(resume_failure(7, ESRCH), Ok(StopEvent::Gone { pid: 7 }));
}

#[test]
fn any_other_failure_to_resume_ends_the_trace() {
    for errno in [1, 5, 10, 22] {
        assert_eq!(resume_failure(7, errno), Err(TraceError::Resume { pid: 7, errno }));
    }
}

#[test]
fn waiting_without_children_ends_the_trace_normally() {
    assert_eq!(ECHILD, 10);
    assert_eq!(wait_failure(ECHILD), Ok(()));
}

#[test]
fn any_other_failure_to_wait_ends_the_trace_as_an_error() {
    for errno in [3, 4, 22] {
        assert_eq!(wait_failure(errno), Err(TraceError::Wait { errno }));
    }
}
