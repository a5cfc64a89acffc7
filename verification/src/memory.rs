//! Reading NUL-terminated strings out of a traced process, one word at a time.
//!
//! The kernel hands out the memory of a traced process a word at a time. A
//! read starts at the string's address and asks for one word after another,
//! eight bytes further each time, until a word holds a zero byte. The string
//! is the bytes before that zero byte, exactly.

use crate::error::errno_number;
use crate::text::string_of_utf8;
use byteorder::{LittleEndian, WriteBytesExt};
use nix::errno::Errno;
use nix::sys::ptrace;
use nix::unistd::Pid;
use vstd::prelude::*;
use vstd::utf8::{encode_utf8, valid_utf8};

verus! {

/// Bytes in one machine word of the traced process.
pub const WORD_SIZE: u64 = 8;

/// The last address at which a whole word lies within the address space.
pub const LAST_WORD: u64 = u64::MAX - 7;

/// Byte `k` of `word`, counting from the least significant one.
pub open spec fn word_byte(word: i64, k: int) -> u8 {
    (((word as u64) >> ((8 * k) as u64)) & 0xff) as u8
}

/// The eight bytes of `word` in little-endian order, which is the order in
/// which they lie in the traced process's memory.
pub open spec fn le_bytes(word: i64) -> Seq<u8> {
    Seq::new(8, |k: int| word_byte(word, k))
}

/// Index of the first zero byte of `bytes`, or `bytes.len()` when there is none.
pub open spec fn nul_index(bytes: Seq<u8>) -> int
    decreases bytes.len(),
{
    if bytes.len() == 0 {
        0
    } else if bytes[0] == 0 {
        0
    } else {
        1 + nul_index(bytes.drop_first())
    }
}

/// Whether `bytes` holds a zero byte.
pub open spec fn has_nul(bytes: Seq<u8>) -> bool {
    exists|i: int| 0 <= i < bytes.len() && bytes[i] == 0
}

/// The bytes of `bytes` that come before its first zero byte; all of them
/// when there is none.
pub open spec fn before_nul(bytes: Seq<u8>) -> Seq<u8> {
    bytes.take(nul_index(bytes))
}

/// All the bytes of a run of words, in the order in which they lie in memory.
pub open spec fn bytes_of_words(words: Seq<i64>) -> Seq<u8> {
    Seq::new(8 * words.len(), |i: int| le_bytes(words[i / 8])[i % 8])
}

/// Whether a run of words holds no zero byte, so that a read which fetched
/// it has to go on.
pub open spec fn unterminated(words: Seq<i64>) -> bool {
    !has_nul(bytes_of_words(words))
}

/// How many words hold a string of `len` bytes and its terminator.
pub open spec fn words_spanned(len: nat) -> int {
    len as int / 8 + 1
}

/// Why a string could not be read.
#[derive(Debug, Clone, Copy, PartialEq, Eq, Structural)]
pub enum ReadError {
    /// The kernel refused to copy the word at `address`; `errno` is its
    /// error number.
    Peek { address: u64, errno: i32 },
    /// No zero byte came before the end of the address space: the next
    /// word would reach beyond the last address.
    EndOfMemory,
    /// The bytes before the zero byte are not UTF-8, so that no string
    /// holds them.
    NotUtf8,
}

/// Where a read stands.
#[derive(Debug, Clone, Copy, PartialEq, Eq, Structural)]
pub enum ReadStep {
    /// The terminator was found: the bytes gathered are the string.
    Done,
    /// The word at `address` is to be fetched next.
    Next { address: u64 },
    /// The read failed.
    Failed { error: ReadError },
}

/// Where a read of the string at `address` stands before anything is
/// fetched: at that address, unless a word there would reach beyond the end
/// of the address space.
pub open spec fn first_step(address: u64) -> ReadStep {
    if address > LAST_WORD {
        ReadStep::Failed { error: ReadError::EndOfMemory }
    } else {
        ReadStep::Next { address }
    }
}

/// The bytes gathered after the kernel answered a fetch: a word adds its
/// bytes before its first zero byte, a failure adds nothing.
pub open spec fn bytes_after(bytes: Seq<u8>, fetched: Result<i64, i32>) -> Seq<u8> {
    match fetched {
        Ok(word) => bytes + before_nul(le_bytes(word)),
        Err(errno) => bytes,
    }
}

/// Where a read stands after the kernel answered the fetch of the word at
/// `at`. A failure fails the read with that address. A word with a zero byte
/// ends it. After any other word the next one is asked for, eight bytes on,
/// unless it would reach beyond the end of the address space.
pub open spec fn step_after(at: u64, fetched: Result<i64, i32>) -> ReadStep {
    match fetched {
        Err(errno) => ReadStep::Failed { error: ReadError::Peek { address: at, errno } },
        Ok(word) => if has_nul(le_bytes(word)) {
            ReadStep::Done
        } else if at > LAST_WORD - 8 {
            ReadStep::Failed { error: ReadError::EndOfMemory }
        } else {
            ReadStep::Next { address: (at + 8) as u64 }
        },
    }
}

/// The bytes gathered and the place reached by a read of the string at
/// `address` to which the kernel gave `answers`, one for each fetch in turn.
/// Answers that come after the read has ended change nothing.
pub open spec fn read_run(address: u64, answers: Seq<Result<i64, i32>>) -> (Seq<u8>, ReadStep)
    decreases answers.len(),
{
    if answers.len() == 0 {
        (Seq::empty(), first_step(address))
    } else {
        let (bytes, step) = read_run(address, answers.drop_last());
        match step {
            ReadStep::Next { address: at } => (
                bytes_after(bytes, answers.last()),
                step_after(at, answers.last()),
            ),
            _ => (bytes, step),
        }
    }
}

/// Whether `answers` are the answers of one whole read of the string at
/// `address`: each of them was asked for, and after the last the read has
/// ended.
pub open spec fn complete_run(address: u64, answers: Seq<Result<i64, i32>>) -> bool {
    &&& !(read_run(address, answers).1 is Next)
    &&& forall|k: int|
        0 <= k < answers.len() ==> (#[trigger] read_run(address, answers.take(k))).1 is Next
}

/// What gathered bytes come to when the terminator is found: themselves, if
/// a string can hold them.
pub open spec fn finished(bytes: Seq<u8>) -> Result<Seq<u8>, ReadError> {
    if valid_utf8(bytes) {
        Ok(bytes)
    } else {
        Err(ReadError::NotUtf8)
    }
}

/// What a whole read of the string at `address` comes to, given the kernel's
/// answers: the bytes of the string, or the error that ended the read.
pub open spec fn read_outcome(address: u64, answers: Seq<Result<i64, i32>>) -> Result<
    Seq<u8>,
    ReadError,
> {
    let (bytes, step) = read_run(address, answers);
    match step {
        ReadStep::Failed { error } => Err(error),
        _ => finished(bytes),
    }
}

/// The result of a read with the string taken by its bytes.
pub open spec fn in_bytes(res: Result<String, ReadError>) -> Result<Seq<u8>, ReadError> {
    match res {
        Ok(text) => Ok(encode_utf8(text@)),
        Err(error) => Err(error),
    }
}

/// Whether `res` is what a read of the string at `address` returns when the
/// kernel gives `answers`.
pub open spec fn read_gives(
    address: u64,
    answers: Seq<Result<i64, i32>>,
    res: Result<String, ReadError>,
) -> bool {
    complete_run(address, answers) && in_bytes(res) == read_outcome(address, answers)
}

/// The answers of the kernel when every fetch succeeds with the next of
/// `words`.
pub open spec fn fetched_words(words: Seq<i64>) -> Seq<Result<i64, i32>> {
    Seq::new(words.len(), |i: int| Ok::<i64, i32>(words[i]))
}

// Lemmas on the first zero byte of a run.

/// What `nul_index` is: no byte before it is zero, and the byte at it is,
/// unless the run holds no zero byte and the index is its length.
pub proof fn lemma_nul_index(bytes: Seq<u8>)
    ensures
        0 <= nul_index(bytes) <= bytes.len(),
        forall|i: int| 0 <= i < nul_index(bytes) ==> bytes[i] != 0,
        nul_index(bytes) < bytes.len() ==> bytes[nul_index(bytes)] == 0,
        has_nul(bytes) <==> nul_index(bytes) < bytes.len(),
    decreases bytes.len(),
{
    if bytes.len() > 0 && bytes[0] != 0 {
        let rest = bytes.drop_first();
        lemma_nul_index(rest);
        assert forall|i: int| 0 <= i < nul_index(bytes) implies bytes[i] != 0 by {
            if i > 0 {
                assert(bytes[i] == rest[i - 1]);
            }
        }
        if nul_index(rest) < rest.len() {
            assert(bytes[nul_index(bytes)] == rest[nul_index(rest)]);
        }
    }
    if nul_index(bytes) < bytes.len() {
        assert(bytes[nul_index(bytes)] == 0);
    }
}

/// The first zero byte is at `i` when `bytes[i]` is zero and nothing before it is.
pub proof fn lemma_nul_at(bytes: Seq<u8>, i: int)
    requires
        0 <= i < bytes.len(),
        bytes[i] == 0,
        forall|j: int| 0 <= j < i ==> bytes[j] != 0,
    ensures
        nul_index(bytes) == i,
        has_nul(bytes),
{
    lemma_nul_index(bytes);
}

/// Without a zero byte the index is the length.
pub proof fn lemma_nul_absent(bytes: Seq<u8>)
    requires
        forall|j: int| 0 <= j < bytes.len() ==> bytes[j] != 0,
    ensures
        nul_index(bytes) == bytes.len(),
        !has_nul(bytes),
{
    lemma_nul_index(bytes);
}

/// Appending a word to a run appends its eight bytes.
pub proof fn lemma_bytes_of_push(words: Seq<i64>, word: i64)
    ensures
        bytes_of_words(words.push(word)) == bytes_of_words(words) + le_bytes(word),
{
    let longer = bytes_of_words(words.push(word));
    let joined = bytes_of_words(words) + le_bytes(word);
    assert(longer.len() == joined.len());
    assert forall|i: int| 0 <= i < longer.len() implies longer[i] == joined[i] by {
        if i >= 8 * words.len() {
            assert(i / 8 == words.len());
            assert(i % 8 == i - 8 * words.len());
        } else {
            assert(i / 8 < words.len());
        }
    }
}

// The calls into `byteorder` and `nix`.

/// Calls `byteorder::WriteBytesExt::write_i64::<LittleEndian>` on an empty
/// `Vec<u8>`. The call appends the word's eight bytes, least significant
/// first; writing into a `Vec` never fails.
#[verifier::external_body]
fn word_to_bytes(word: i64) -> (bytes: Vec<u8>)
    ensures
        bytes@ == le_bytes(word),
{
    let mut bytes: Vec<u8> = Vec::new();
    bytes.write_i64::<LittleEndian>(word).unwrap();
    bytes
}

/// Calls `nix::sys::ptrace::read`, which asks the kernel for the word at
/// `address` in process `pid` (`PTRACE_PEEKDATA`). What comes back depends on
/// the traced process, so nothing is claimed of it.
#[verifier::external_body]
fn peek_word(pid: i32, address: u64) -> Result<i64, Errno> {
    ptrace::read(Pid::from_raw(pid), address as ptrace::AddressType)
}

// Reading.

/// Appends to `bytes` the bytes of `word` that come before its first zero
/// byte, and tells whether it held one.
pub fn append_word(bytes: &mut Vec<u8>, word: i64) -> (done: bool)
    ensures
        final(bytes)@ == old(bytes)@ + before_nul(le_bytes(word)),
        done == has_nul(le_bytes(word)),
{
    let part = word_to_bytes(word);
    let mut i: usize = 0;
    proof {
        lemma_nul_index(part@);
    }
    while i < part.len()
        invariant
            i <= part.len(),
            part@ == le_bytes(word),
            forall|j: int| 0 <= j < i ==> part@[j] != 0,
            bytes@ == old(bytes)@ + part@.take(i as int),
        decreases part.len() - i,
    {
        let b: u8 = part[i];
        if b == 0 {
            proof {
                lemma_nul_at(part@, i as int);
            }
            return true;
        }
        bytes.push(b);
        proof {
            assert(part@.take(i + 1) == part@.take(i as int).push(b));
        }
        i += 1;
    }
    proof {
        lemma_nul_absent(part@);
        assert(part@.take(part@.len() as int) == part@);
    }
    false
}

/// Where a read of the string at `address` starts.
pub fn start_read(address: u64) -> (step: ReadStep)
    ensures
        step == first_step(address),
{
    if address > LAST_WORD {
        ReadStep::Failed { error: ReadError::EndOfMemory }
    } else {
        ReadStep::Next { address }
    }
}

/// Takes the kernel's answer to the fetch of the word at `at`: gathers the
/// word's bytes and says where the read stands now.
pub fn read_step(bytes: &mut Vec<u8>, at: u64, fetched: Result<i64, i32>) -> (step: ReadStep)
    ensures
        final(bytes)@ == bytes_after(old(bytes)@, fetched),
        step == step_after(at, fetched),
{
    match fetched {
        Err(errno) => ReadStep::Failed { error: ReadError::Peek { address: at, errno } },
        Ok(word) => {
            if append_word(bytes, word) {
                ReadStep::Done
            } else if at > LAST_WORD - WORD_SIZE {
                ReadStep::Failed { error: ReadError::EndOfMemory }
            } else {
                ReadStep::Next { address: at + WORD_SIZE }
            }
        },
    }
}

/// Makes the string of the bytes that a read gathered: the string with
/// exactly those bytes, or an error if they are not UTF-8.
pub fn finish_read(bytes: Vec<u8>) -> (res: Result<String, ReadError>)
    ensures
        in_bytes(res) == finished(bytes@),
{
    match string_of_utf8(bytes) {
        Some(text) => Ok(text),
        None => Err(ReadError::NotUtf8),
    }
}

/// Reads the NUL-terminated string that starts at `address` in the memory of
/// process `pid`, a word at a time, and stops at the first zero byte.
///
/// The result is what the kernel's answers make of the read, step by step:
/// the bytes before the first zero byte on success, and an error as soon as
/// a word cannot be fetched. No word is asked for that would reach beyond
/// the end of the address space.
pub fn read_string(pid: i32, address: u64) -> (res: Result<String, ReadError>)
    ensures
        exists|answers: Seq<Result<i64, i32>>| read_gives(address, answers, res),
        address > LAST_WORD ==> res == Err::<String, ReadError>(ReadError::EndOfMemory),
        res matches Err(ReadError::Peek { address: failed, .. }) ==> {
            &&& address <= failed <= LAST_WORD
            &&& (failed - address) % 8 == 0
        },
{
    let mut bytes: Vec<u8> = Vec::new();
    let mut step = start_read(address);
    let ghost mut answers: Seq<Result<i64, i32>> = Seq::empty();
    loop
        invariant
            read_run(address, answers) == (bytes@, step),
            forall|k: int|
                0 <= k < answers.len() ==> (#[trigger] read_run(
                    address,
                    answers.take(k),
                )).1 is Next,
            step matches ReadStep::Next { address: at } ==> {
                &&& address <= at <= LAST_WORD
                &&& (at - address) % 8 == 0
            },
            step matches ReadStep::Failed { error: ReadError::Peek { address: failed, .. } } ==> {
                &&& address <= failed <= LAST_WORD
                &&& (failed - address) % 8 == 0
            },
            address > LAST_WORD ==> step == (ReadStep::Failed { error: ReadError::EndOfMemory }),
        decreases
                (match step {
                    ReadStep::Next { address: at } => u64::MAX - at + 1,
                    _ => 0,
                }),
    {
        match step {
            ReadStep::Next { address: at } => {
                let fetched = match peek_word(pid, at) {
                    Ok(word) => Ok(word),
                    Err(errno) => Err(errno_number(errno)),
                };
                proof {
                    let longer = answers.push(fetched);
                    assert(longer.drop_last() == answers);
                    assert forall|k: int| 0 <= k < longer.len() implies (#[trigger] read_run(
                        address,
                        longer.take(k),
                    )).1 is Next by {
                        if k < answers.len() {
                            assert(longer.take(k) == answers.take(k));
                        } else {
                            assert(longer.take(k) == answers);
                        }
                    }
                    answers = longer;
                }
                step = read_step(&mut bytes, at, fetched);
            },
            ReadStep::Done => {
                let res = finish_read(bytes);
                assert(read_gives(address, answers, res));
                return res;
            },
            ReadStep::Failed { error } => {
                let res = Err(error);
                assert(read_gives(address, answers, res));
                return res;
            },
        }
    }
}

// What the steps add up to.

/// While every fetch succeeds with a word that holds no zero byte, a read
/// gathers the words' bytes and asks for the next word eight bytes on.
pub proof fn lemma_run_goes_on(address: u64, words: Seq<i64>)
    requires
        unterminated(words),
        address + 8 * words.len() <= LAST_WORD,
    ensures
        read_run(address, fetched_words(words)) == (
            bytes_of_words(words),
            ReadStep::Next { address: (address + 8 * words.len()) as u64 },
        ),
    decreases words.len(),
{
    let answers = fetched_words(words);
    if words.len() == 0 {
        assert(bytes_of_words(words) == Seq::<u8>::empty());
    } else {
        let front = words.drop_last();
        let word = words.last();
        assert(words == front.push(word));
        lemma_bytes_of_push(front, word);
        lemma_nul_index(bytes_of_words(words));
        assert forall|i: int| 0 <= i < bytes_of_words(front).len() implies bytes_of_words(
            front,
        )[i] != 0 by {
            assert(bytes_of_words(words)[i] == bytes_of_words(front)[i]);
        }
        lemma_nul_absent(bytes_of_words(front));
        assert forall|j: int| 0 <= j < 8 implies le_bytes(word)[j] != 0 by {
            assert(bytes_of_words(words)[8 * front.len() + j] == le_bytes(word)[j]);
        }
        lemma_nul_absent(le_bytes(word));
        assert(before_nul(le_bytes(word)) == le_bytes(word));
        lemma_run_goes_on(address, front);
        assert(answers.drop_last() == fetched_words(front));
        assert(answers.last() == Ok::<i64, i32>(word));
    }
}

/// A string that lies in memory is read back exactly, whatever its length.
///
/// Let the bytes of `s`, none of them zero, lie at `address` and be followed
/// by a zero byte, let `words` be what memory holds from `address` on, and
/// let the words that hold the string lie within the address space. Then a
/// read whose fetches succeed asks for the words at `address`, `address + 8`
/// and so on, as many as hold the string and its terminator and no more, and
/// it ends with the bytes of `s`: the bytes that follow the terminator in
/// its word are dropped.
pub proof fn stored_string_is_read_back(address: u64, s: Seq<u8>, words: Seq<i64>)
    requires
        forall|i: int| 0 <= i < s.len() ==> s[i] != 0,
        s.len() < 8 * words.len(),
        forall|i: int| 0 <= i < s.len() ==> bytes_of_words(words)[i] == s[i],
        bytes_of_words(words)[s.len() as int] == 0,
        address + 8 * (words_spanned(s.len()) - 1) <= LAST_WORD,
    ensures
        forall|k: int|
            0 <= k < words_spanned(s.len()) ==> (#[trigger] read_run(
                address,
                fetched_words(words.take(k)),
            )).1 == (ReadStep::Next { address: (address + 8 * k) as u64 }),
        read_run(address, fetched_words(words.take(words_spanned(s.len())))) == (
            s,
            ReadStep::Done,
        ),
        complete_run(address, fetched_words(words.take(words_spanned(s.len())))),
        read_outcome(address, fetched_words(words.take(words_spanned(s.len())))) == finished(s),
{
    let all = bytes_of_words(words);
    let n = words_spanned(s.len());
    let front = words.take(n - 1);
    let word = words[n - 1];
    let read = words.take(n);
    let answers = fetched_words(read);
    assert forall|k: int| 0 <= k < n implies (#[trigger] read_run(
        address,
        fetched_words(words.take(k)),
    )) == (bytes_of_words(words.take(k)), ReadStep::Next { address: (address + 8 * k) as u64 }) by {
        let part = bytes_of_words(words.take(k));
        assert forall|i: int| 0 <= i < part.len() implies part[i] != 0 by {
            assert(words.take(k)[i / 8] == words[i / 8]);
            assert(part[i] == all[i] && all[i] == s[i]);
        }
        lemma_nul_absent(part);
        lemma_run_goes_on(address, words.take(k));
    }
    assert(read_run(address, fetched_words(front)) == (
        bytes_of_words(front),
        ReadStep::Next { address: (address + 8 * (n - 1)) as u64 },
    ));
    // the last word holds the terminator, after the rest of the string
    let tail = le_bytes(word);
    let at = s.len() - 8 * (n - 1);
    assert forall|j: int| 0 <= j < 8 implies tail[j] == all[8 * (n - 1) + j] by {}
    assert forall|j: int| 0 <= j < at implies tail[j] != 0 by {
        assert(all[8 * (n - 1) + j] == s[8 * (n - 1) + j]);
    }
    assert(tail[at] == 0);
    lemma_nul_at(tail, at);
    assert(bytes_of_words(front) + tail.take(at) == s) by {
        let joined = bytes_of_words(front) + tail.take(at);
        assert(joined.len() == s.len());
        assert forall|i: int| 0 <= i < s.len() implies joined[i] == s[i] by {
            if i < 8 * (n - 1) {
                assert(front[i / 8] == words[i / 8]);
                assert(joined[i] == all[i]);
            } else {
                assert(joined[i] == tail[i - 8 * (n - 1)]);
            }
        }
    }
    assert(answers.drop_last() == fetched_words(front)) by {
        assert(read.drop_last() == front);
    }
    assert(answers.last() == Ok::<i64, i32>(word));
    assert forall|k: int| 0 <= k < answers.len() implies (#[trigger] read_run(
        address,
        answers.take(k),
    )).1 is Next by {
        assert(answers.take(k) == fetched_words(words.take(k)));
    }
}

/// A word that cannot be fetched fails the read, whatever was gathered
/// before: after words without a zero byte, a failed fetch ends the read
/// with the error that names the word's address.
pub proof fn failed_fetch_fails_the_read(address: u64, words: Seq<i64>, errno: i32)
    requires
        unterminated(words),
        address + 8 * words.len() <= LAST_WORD,
    ensures
        read_outcome(address, fetched_words(words).push(Err(errno))) == Err::<
            Seq<u8>,
            ReadError,
        >(ReadError::Peek { address: (address + 8 * words.len()) as u64, errno }),
{
    let answers = fetched_words(words).push(Err(errno));
    lemma_run_goes_on(address, words);
    assert(answers.drop_last() == fetched_words(words));
}

} // verus!
