use stracer::memory::{
    append_word, finish_read, read_step, read_string, start_read, ReadError, ReadStep, LAST_WORD,
    WORD_SIZE,
};

fn word(bytes: &[u8; 8]) -> i64 {
    i64::from_le_bytes(*bytes)
}

/// Runs a read from `address` over the words that the kernel would hand
/// out, and returns its result with the addresses it asked for.
fn read(address: u64, words: &[i64]) -> (Result<String, ReadError>, Vec<u64>) {
    let mut bytes = Vec::new();
    let mut asked = Vec::new();
    let mut step = start_read(address);
    let mut given = words.iter();
    loop {
        match step {
            ReadStep::Done => return (finish_read(bytes), asked),
            ReadStep::Failed { error } => return (Err(error), asked),
            ReadStep::Next { address: at } => {
                asked.push(at);
                let fetched = match given.next() {
                    Some(w) => Ok(*w),
                    None => Err(5),
                };
                step = read_step(&mut bytes, at, fetched);
            }
        }
    }
}

#[test]
fn a_word_is_eight_bytes() {
    assert_eq!(WORD_SIZE, 8);
    assert_eq!(LAST_WORD, u64::MAX - 7);
}

#[test]
fn bytes_come_out_least_significant_first() {
    let mut bytes = Vec::new();
    let done = append_word(&mut bytes, 0x0000_0000_0064_6362_61);
    assert!(done);
    assert_eq!(bytes, b"abcd");
}

#[test]
fn string_of_seven_bytes_ends_in_its_first_word() {
    let words = [word(b"1234567\0"), word(b"garbage!")];
    assert_eq!(read(0x1000, &words), (Ok("1234567".to_string()), vec![0x1000]));
}

#[test]
fn string_of_eight_bytes_ends_at_the_start_of_the_second_word() {
    let words = [word(b"12345678"), word(b"\0garbage"), word(b"garbage!")];
    assert_eq!(read(0x1000, &words), (Ok("12345678".to_string()), vec![0x1000, 0x1008]));
}

#[test]
fn string_of_nine_bytes_ends_inside_the_second_word() {
    let words = [word(b"12345678"), word(b"9\0garbag")];
    assert_eq!(read(0x1003, &words), (Ok("123456789".to_string()), vec![0x1003, 0x100b]));
}

#[test]
fn empty_string_is_read_from_one_word() {
    let words = [word(b"\0ignored")];
    assert_eq!(read(8, &words), (Ok(String::new()), vec![8]));
}

#[test]
fn a_long_string_is_not_cut() {
    let mut words = vec![word(b"abcdefgh"); 1000];
    words.push(word(b"xyz\0\0\0\0\0"));
    let (text, asked) = read(0x4000, &words);
    let text = text.unwrap();
    assert_eq!(text.len(), 8003);
    assert!(text.ends_with("abcdefghxyz"));
    assert_eq!(asked.len(), 1001);
    for (k, at) in asked.iter().enumerate() {
        assert_eq!(*at, 0x4000 + 8 * k as u64);
    }
}

#[test]
fn bytes_after_the_terminator_are_dropped() {
    let mut bytes = b"/usr".to_vec();
    let done = append_word(&mut bytes, word(b"/bin\0ls\0"));
    assert!(done);
    assert_eq!(bytes, b"/usr/bin");
}

#[test]
fn a_word_without_terminator_is_taken_whole() {
    let mut bytes = Vec::new();
    let done = append_word(&mut bytes, word(b"/nonexis"));
    assert!(!done);
    assert_eq!(bytes, b"/nonexis");
    let done = append_word(&mut bytes, word(b"tent\0\0\0\0"));
    assert!(done);
    assert_eq!(bytes, b"/nonexistent");
}

#[test]
fn a_negative_word_is_decoded_by_its_bits() {
    let mut bytes = Vec::new();
    let done = append_word(&mut bytes, -1);
    assert!(!done);
    assert_eq!(bytes, [0xff; 8]);
    let mut bytes = Vec::new();
    let done = append_word(&mut bytes, i64::MIN);
    assert!(done);
    assert_eq!(bytes, b"");
}

#[test]
fn the_string_has_the_bytes_of_memory_exactly() {
    // "é" is the two bytes c3 a9
    let (text, _) = read(0, &[0x0000_0000_0000_a9c3]);
    let text = text.unwrap();
    assert_eq!(text, "\u{e9}");
    assert_eq!(text.as_bytes(), [0xc3, 0xa9]);

    let stored = "/tmp/\u{e9}t\u{e9}/\u{65e5}\u{672c}.txt";
    let mut memory = stored.as_bytes().to_vec();
    memory.extend_from_slice(&[0, 1, 2, 3, 4, 5, 6, 7, 8]);
    let words: Vec<i64> =
        memory.chunks_exact(8).map(|c| i64::from_le_bytes(c.try_into().unwrap())).collect();
    let (text, _) = read(0x7000, &words);
    assert_eq!(text.unwrap().as_bytes(), stored.as_bytes());
}

#[test]
fn bytes_that_are_not_utf8_make_no_string() {
    assert_eq!(read(0, &[word(&[0x41, 0xff, 0x00, 0, 0, 0, 0, 0])]).0, Err(ReadError::NotUtf8));
    assert_eq!(read(0, &[word(&[0xc3, 0x00, 0xa9, 0, 0, 0, 0, 0])]).0, Err(ReadError::NotUtf8));
    assert_eq!(finish_read(vec![0x80]), Err(ReadError::NotUtf8));
    assert_eq!(finish_read(vec![0xed, 0xa0, 0x80]), Err(ReadError::NotUtf8));
    assert_eq!(finish_read(vec![0xc0, 0xaf]), Err(ReadError::NotUtf8));
}

#[test]
fn bytes_that_are_utf8_make_the_string_with_those_bytes() {
    assert_eq!(finish_read(Vec::new()), Ok(String::new()));
    assert_eq!(finish_read(b"/bin/ls".to_vec()), Ok("/bin/ls".to_string()));
    assert_eq!(finish_read(vec![0xf0, 0x9f, 0x98, 0x80]), Ok("\u{1f600}".to_string()));
}

#[test]
fn a_read_starts_at_the_address_given() {
    assert_eq!(start_read(0), ReadStep::Next { address: 0 });
    assert_eq!(start_read(0x1003), ReadStep::Next { address: 0x1003 });
    assert_eq!(start_read(LAST_WORD), ReadStep::Next { address: LAST_WORD });
    for address in [LAST_WORD + 1, u64::MAX - 3, u64::MAX] {
        assert_eq!(start_read(address), ReadStep::Failed { error: ReadError::EndOfMemory });
    }
}

#[test]
fn a_failed_fetch_fails_the_read_and_gathers_nothing() {
    let mut bytes = b"/nonexis".to_vec();
    let step = read_step(&mut bytes, 0x1008, Err(5));
    assert_eq!(step, ReadStep::Failed { error: ReadError::Peek { address: 0x1008, errno: 5 } });
    assert_eq!(bytes, b"/nonexis");

    let words = [word(b"12345678"), word(b"abcdefgh")];
    assert_eq!(
        read(0x1000, &words),
        (Err(ReadError::Peek { address: 0x1010, errno: 5 }), vec![0x1000, 0x1008, 0x1010])
    );
}

#[test]
fn a_step_goes_eight_bytes_on() {
    let mut bytes = Vec::new();
    assert_eq!(
        read_step(&mut bytes, 0x1003, Ok(word(b"12345678"))),
        ReadStep::Next { address: 0x100b }
    );
    assert_eq!(read_step(&mut bytes, 0x100b, Ok(word(b"9\0\0\0\0\0\0\0"))), ReadStep::Done);
    assert_eq!(bytes, b"123456789");
}

#[test]
fn a_step_stops_at_the_end_of_the_address_space() {
    let full = word(b"12345678");
    let mut bytes = Vec::new();
    assert_eq!(
        read_step(&mut bytes, LAST_WORD - 8, Ok(full)),
        ReadStep::Next { address: LAST_WORD }
    );
    for at in [LAST_WORD - 7, LAST_WORD - 1, LAST_WORD] {
        assert_eq!(
            read_step(&mut bytes, at, Ok(full)),
            ReadStep::Failed { error: ReadError::EndOfMemory }
        );
        assert_eq!(read_step(&mut bytes, at, Ok(0)), ReadStep::Done);
    }
}

#[test]
fn reading_from_a_process_that_is_not_traced_fails_at_the_first_word() {
    let address = 0x1000;
    match read_string(i32::MAX, address) {
        Err(ReadError::Peek { address: failed, errno }) => {
            assert_eq!(failed, address);
            assert!(errno != 0);
        }
        other => panic!("unexpected result {:?}", other),
    }
}

#[test]
fn a_word_that_would_reach_beyond_the_last_address_is_not_asked_for() {
    for address in [u64::MAX, u64::MAX - 3, u64::MAX - 6] {
        assert_eq!(read_string(i32::MAX, address), Err(ReadError::EndOfMemory));
    }
}

#[test]
fn the_last_word_of_the_address_space_is_asked_for() {
    let address = u64::MAX - 7;
    match read_string(i32::MAX, address) {
        Err(ReadError::Peek { address: failed, .. }) => assert_eq!(failed, address),
        other => panic!("unexpected result {:?}", other),
    }
}
