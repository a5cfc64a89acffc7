use stracer::filter::{is_listed, TraceFilter};

fn names(list: &[&str]) -> Vec<String> {
    list.iter().map(|s| s.to_string()).collect()
}

#[test]
fn inclusion_reports_members_only() {
    let filter = TraceFilter::Only(names(&["getpid", "read"]));
    assert!(filter.should_report("getpid"));
    assert!(filter.should_report("read"));
    assert!(!filter.should_report("write"));
    assert!(!filter.should_report("getpi"));
    assert!(!filter.should_report(""));
}

#[test]
fn exclusion_reports_all_but_members() {
    let filter = TraceFilter::AllBut(names(&["write"]));
    assert!(!filter.should_report("write"));
    assert!(filter.should_report("read"));
    assert!(filter.should_report("writev"));
}

#[test]
fn everything_reports_every_name() {
    let filter = TraceFilter::Everything;
    for nr in 0..stracer::system_call_names::SYSCALL_COUNT {
        assert!(filter.should_report(stracer::system_call_names::name_for(nr)));
    }
    assert!(filter.should_report("no_such_call"));
}

#[test]
fn inclusion_and_exclusion_are_complements_over_all_calls() {
    let list = names(&["open", "close", "mmap", "execve"]);
    let only = TraceFilter::Only(list.clone());
    let all_but = TraceFilter::AllBut(list);
    for nr in 0..stracer::system_call_names::SYSCALL_COUNT {
        let name = stracer::system_call_names::name_for(nr);
        assert_ne!(only.should_report(name), all_but.should_report(name));
    }
}

#[test]
fn the_same_name_gets_the_same_answer() {
    let filter = TraceFilter::Only(names(&["getpid"]));
    assert_eq!(filter.should_report("getpid"), filter.should_report("getpid"));
    assert_eq!(filter.should_report("read"), filter.should_report("read"));
}

#[test]
fn order_and_repetition_in_the_list_do_not_matter() {
    let a = TraceFilter::Only(names(&["read", "write", "read"]));
    let b = TraceFilter::Only(names(&["write", "read"]));
    for name in ["read", "write", "open", ""] {
        assert_eq!(a.should_report(name), b.should_report(name));
    }
}

#[test]
fn new_prefers_inclusion_then_exclusion_then_everything() {
    match TraceFilter::new(names(&["read"]), names(&["write"])) {
        TraceFilter::Only(list) => assert_eq!(list, names(&["read"])),
        other => panic!("unexpected filter {:?}", other),
    }
    match TraceFilter::new(Vec::new(), names(&["write"])) {
        TraceFilter::AllBut(list) => assert_eq!(list, names(&["write"])),
        other => panic!("unexpected filter {:?}", other),
    }
    assert!(matches!(TraceFilter::new(Vec::new(), Vec::new()), TraceFilter::Everything));
}

#[test]
fn empty_lists_inside_a_filter() {
    assert!(!TraceFilter::Only(Vec::new()).should_report("read"));
    assert!(TraceFilter::AllBut(Vec::new()).should_report("read"));
}

#[test]
fn membership_in_a_list() {
    let list = names(&["a", "bc", ""]);
    assert!(is_listed(&list, "a"));
    assert!(is_listed(&list, "bc"));
    assert!(is_listed(&list, ""));
    assert!(!is_listed(&list, "b"));
    assert!(!is_listed(&Vec::new(), "a"));
}
