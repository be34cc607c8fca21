//! Reading the memory of the traced process, one word at a time.

use vstd::prelude::*;
use nix::sys::ptrace;
use nix::unistd::Pid;

verus! {

/// The width of one memory word, in bytes.
pub const WORD_BYTES: u64 = 8;

/// `nix::unistd::Pid`, the identifier of a process. The library only hands
/// it on to the calls that need it and never looks inside.
#[verifier::external_type_specification]
#[verifier::external_body]
pub struct ExPid(Pid);

/// How many words a buffer of `size` bytes is read as: one for every
/// started stretch of eight bytes.
pub open spec fn spec_word_count(size: u64) -> nat {
    ((size + 7) / 8) as nat
}

/// The address of word `k` of a buffer that starts at `address`, if there is
/// such an address: addresses have 64 bits.
pub open spec fn spec_word_address(address: u64, k: u64) -> Option<u64> {
    if address + 8 * k <= u64::MAX {
        Some((address + 8 * k) as u64)
    } else {
        None
    }
}

/// Whether every word of the buffer has an address.
pub open spec fn buffer_addressable(address: u64, size: u64) -> bool {
    forall|k: u64| k < spec_word_count(size) ==> (#[trigger] spec_word_address(address, k)) is Some
}

/// Calls `nix::sys::ptrace::read` (`PTRACE_PEEKDATA`) for the word at
/// `address` in the process `pid`. The `c_long` that the call returns is
/// handed out bit for bit as a `u64`; `None` stands for any error the call
/// returned. Nothing is claimed of the word: it is whatever the traced
/// process holds there at the time of the call.
#[verifier::external_body]
fn peek_word(pid: Pid, address: u64) -> (word: Option<u64>) {
    match ptrace::read(pid, address as ptrace::AddressType) {
        Ok(word) => Some(word as u64),
        Err(_) => None,
    }
}

/// The number of words a buffer of `size` bytes is read as.
pub fn word_count(size: u64) -> (count: u64)
    ensures
        count == spec_word_count(size),
{
    size / WORD_BYTES + if size % WORD_BYTES == 0 {
        0
    } else {
        1
    }
}

/// The address of word `k` of a buffer that starts at `address`; `None` if
/// the word lies beyond the last address.
#[verifier::when_used_as_spec(spec_word_address)]
pub fn word_address(address: u64, k: u64) -> (at: Option<u64>)
    ensures
        at == spec_word_address(address, k),
{
    match k.checked_mul(WORD_BYTES) {
        Some(offset) => address.checked_add(offset),
        None => None,
    }
}

/// Reads the buffer of `size` bytes at `address` in the traced process, in
/// words of eight bytes, lowest address first: word `k` is read at
/// `word_address(address, k)`. A buffer whose size is not a multiple of eight
/// is read up to the end of its last started word.
///
/// The read is all or nothing: if one word cannot be read, because the call
/// fails or because the word has no address, the result is `None` and the
/// words read before are dropped. No word is read a second time, and no word
/// is read behind one that could not be read.
pub fn read_remote_words(pid: Pid, address: u64, size: u64) -> (words: Option<Vec<u64>>)
    ensures
        words matches Some(w) ==> w@.len() == spec_word_count(size),
        words is Some ==> buffer_addressable(address, size),
        size == 0 ==> words is Some,
{
    let count: u64 = word_count(size);
    let mut words: Vec<u64> = Vec::new();
    let mut k: u64 = 0;
    while k < count
        invariant
            k <= count,
            count == spec_word_count(size),
            words@.len() == k,
            forall|j: u64| j < k ==> (#[trigger] spec_word_address(address, j)) is Some,
        decreases count - k,
    {
        let word = match word_address(address, k) {
            Some(at) => peek_word(pid, at),
            None => None,
        };
        match word {
            Some(w) => words.push(w),
            None => return None,
        }
        k = k + 1;
    }
    Some(words)
}

} // verus!
