use stracer::system_call_names::{name_for, number_of, SYSCALL_COUNT};

#[test]
fn names_of_well_known_calls() {
    assert_eq!(name_for(0), "read");
    assert_eq!(name_for(1), "write");
    assert_eq!(name_for(21), "access");
    assert_eq!(name_for(39), "getpid");
    assert_eq!(name_for(57), "fork");
    assert_eq!(name_for(59), "execve");
    assert_eq!(name_for(231), "exit_group");
    assert_eq!(name_for(SYSCALL_COUNT - 1), "rseq");
}

#[test]
fn every_number_has_a_name_that_leads_back_to_it() {
    for nr in 0..SYSCALL_COUNT {
        let name = name_for(nr);
        assert!(!name.is_empty());
        assert_eq!(number_of(name), Some(nr));
    }
}

#[test]
fn the_same_number_gives_the_same_name() {
    for nr in 0..SYSCALL_COUNT {
        assert_eq!(name_for(nr), name_for(nr));
    }
}

#[test]
fn a_name_that_is_no_call_has_no_number() {
    assert_eq!(number_of("frobnicate"), None);
    assert_eq!(number_of(""), None);
    assert_eq!(number_of("Read"), None);
    assert_eq!(number_of("read "), None);
}
