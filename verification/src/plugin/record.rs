//! The byte format of one logged call.
//!
//! A record is a delimiter line that names the kind of call, directly
//! followed by the text of the words that were read from the traced process,
//! and one closing newline. The text of a word is its little-endian bytes
//! with every zero byte taken out, so a word that is zero adds nothing.

use vstd::prelude::*;
use vstd::slice::slice_to_vec;
use crate::plugin::HandlerKind;

verus! {

/// The byte that ends every record.
pub const RECORD_END: u8 = 0x0a;

/// The `width` low-order bytes of `value`, least significant first.
pub open spec fn le_bytes(value: nat, width: nat) -> Seq<u8>
    decreases width,
{
    if width == 0 {
        Seq::empty()
    } else {
        seq![(value % 256) as u8] + le_bytes(value / 256, (width - 1) as nat)
    }
}

/// The eight bytes of a memory word as they lie in the traced process.
pub open spec fn word_le_bytes(word: u64) -> Seq<u8> {
    le_bytes(word as nat, 8)
}

/// `bytes` without its zero bytes, order kept.
pub open spec fn strip_zero_bytes(bytes: Seq<u8>) -> Seq<u8> {
    bytes.filter(|b: u8| b != 0)
}

/// What one word contributes to a record.
pub open spec fn word_text(word: u64) -> Seq<u8> {
    strip_zero_bytes(word_le_bytes(word))
}

/// The words that count as data: a zero word is padding.
pub open spec fn data_words(words: Seq<u64>) -> Seq<u64> {
    words.filter(|w: u64| w != 0)
}

/// The texts of `words`, one after the other.
pub open spec fn payload(words: Seq<u64>) -> Seq<u8> {
    words.map_values(|w: u64| word_text(w)).flatten()
}

/// The delimiter that opens a record, as text: the line that names the call,
/// with the newline that ends it.
pub open spec fn delimiter_text(kind: HandlerKind) -> Seq<char> {
    match kind {
        HandlerKind::ReadDefault => "##### read default #####\n"@,
        HandlerKind::WriteDefault => "##### write default #####\n"@,
    }
}

/// The delimiter that opens a record, as the bytes that reach the file.
pub open spec fn delimiter(kind: HandlerKind) -> Seq<u8> {
    delimiter_text(kind).map_values(|c: char| c as u8)
}

/// The whole record of one call of the given kind whose buffer held `words`.
pub open spec fn log_record(kind: HandlerKind, words: Seq<u64>) -> Seq<u8> {
    delimiter(kind) + payload(data_words(words)) + seq![RECORD_END]
}

/// Appends the text of `word` to `out`.
pub fn push_word_text(out: &mut Vec<u8>, word: u64)
    ensures
        final(out)@ == old(out)@ + word_text(word),
{
    let ghost keep = |b: u8| b != 0;
    let ghost mut seen: Seq<u8> = Seq::empty();
    let mut rest: u64 = word;
    let mut k: usize = 0;
    while k < 8
        invariant
            k <= 8,
            keep == (|b: u8| b != 0),
            seen + le_bytes(rest as nat, (8 - k) as nat) == word_le_bytes(word),
            out@ == old(out)@ + seen.filter(keep),
        decreases 8 - k,
    {
        let byte: u8 = (rest % 256) as u8;
        proof {
            seen.lemma_filter_push(byte, keep);
            seen = seen.push(byte);
        }
        if byte != 0 {
            out.push(byte);
        }
        rest = rest / 256;
        k = k + 1;
    }
}

/// The text of one word: its little-endian bytes that are not zero.
pub fn word_bytes(word: u64) -> (text: Vec<u8>)
    ensures
        text@ == word_text(word),
{
    let mut text: Vec<u8> = Vec::new();
    push_word_text(&mut text, word);
    text
}

/// Drops the zero words of a buffer.
pub fn drop_zero_words(words: &Vec<u64>) -> (data: Vec<u64>)
    ensures
        data@ == data_words(words@),
{
    let ghost keep = |w: u64| w != 0;
    let mut data: Vec<u64> = Vec::new();
    let mut i: usize = 0;
    while i < words.len()
        invariant
            i <= words.len(),
            keep == (|w: u64| w != 0),
            data@ == words@.take(i as int).filter(keep),
        decreases words.len() - i,
    {
        let word: u64 = words[i];
        proof {
            words@.take(i as int).lemma_filter_push(word, keep);
            assert(words@.take(i as int).push(word) =~= words@.take(i + 1));
        }
        if word != 0 {
            data.push(word);
        }
        i = i + 1;
    }
    assert(words@.take(words.len() as int) =~= words@);
    data
}

/// The bytes of the delimiter for `kind`.
pub fn delimiter_bytes(kind: HandlerKind) -> (line: Vec<u8>)
    ensures
        line@ == delimiter(kind),
{
    let text: &str = match kind {
        HandlerKind::ReadDefault => "##### read default #####\n",
        HandlerKind::WriteDefault => "##### write default #####\n",
    };
    proof {
        reveal_strlit("##### read default #####\n");
        reveal_strlit("##### write default #####\n");
        vstd::string::is_ascii_spec_bytes(text);
    }
    slice_to_vec(text.as_bytes())
}

/// Builds the record of one call: the delimiter of `kind`, the text of every
/// word of `words` that is not zero, and the closing newline.
pub fn encode_record(kind: HandlerKind, words: &Vec<u64>) -> (record: Vec<u8>)
    ensures
        record@ == log_record(kind, words@),
{
    let data = drop_zero_words(words);
    let mut record = delimiter_bytes(kind);
    let ghost text_of = |w: u64| word_text(w);
    let mut i: usize = 0;
    while i < data.len()
        invariant
            i <= data.len(),
            text_of == (|w: u64| word_text(w)),
            record@ == delimiter(kind) + data@.take(i as int).map_values(text_of).flatten(),
        decreases data.len() - i,
    {
        let word: u64 = data[i];
        proof {
            let done = data@.take(i as int);
            done.lemma_push_map_commute(text_of, word);
            done.map_values(text_of).lemma_flatten_push(word_text(word));
            assert(done.push(word) =~= data@.take(i + 1));
        }
        push_word_text(&mut record, word);
        i = i + 1;
    }
    assert(data@.take(data.len() as int) =~= data@);
    record.push(RECORD_END);
    record
}

/// The text of a word is never longer than the word, and only the zero word
/// has an empty text.
pub proof fn word_text_bounds(word: u64)
    ensures
        word_text(word).len() <= 8,
        word_text(word).len() == 0 <==> word == 0,
        forall|i: int| 0 <= i < word_text(word).len() ==> word_text(word)[i] != 0,
{
    let keep = |b: u8| b != 0;
    let bytes = word_le_bytes(word);
    reveal_with_fuel(le_bytes, 9);
    if word == 0 {
        assert forall|i: int| 0 <= i < bytes.len() implies !keep(#[trigger] bytes[i]) by {}
        bytes.lemma_all_neg_filter_empty(keep);
    } else {
        let w = word as nat;
        assert(exists|i: int| 0 <= i < 8 && bytes[i] != 0) by {
            if forall|i: int| 0 <= i < 8 ==> bytes[i] == 0 {
                assert(bytes[0] == 0 && bytes[1] == 0 && bytes[2] == 0 && bytes[3] == 0);
                assert(bytes[4] == 0 && bytes[5] == 0 && bytes[6] == 0 && bytes[7] == 0);
                assert(w == 0) by (nonlinear_arith)
                    requires
                        w < 0x1_0000_0000_0000_0000,
                        w % 256 == 0,
                        (w / 256) % 256 == 0,
                        (w / 256 / 256) % 256 == 0,
                        (w / 256 / 256 / 256) % 256 == 0,
                        (w / 256 / 256 / 256 / 256) % 256 == 0,
                        (w / 256 / 256 / 256 / 256 / 256) % 256 == 0,
                        (w / 256 / 256 / 256 / 256 / 256 / 256) % 256 == 0,
                        (w / 256 / 256 / 256 / 256 / 256 / 256 / 256) % 256 == 0,
                ;
            }
        }
        let i = choose|i: int| 0 <= i < 8 && bytes[i] != 0;
        bytes.lemma_filter_contains(keep, i);
    }
}

/// Zero words are padding: dropping them before the words are turned into
/// text changes nothing, because a zero word has no text.
pub proof fn payload_ignores_zero_words(words: Seq<u64>)
    ensures
        payload(data_words(words)) == payload(words),
    decreases words.len(),
{
    let keep = |w: u64| w != 0;
    let text_of = |w: u64| word_text(w);
    if words.len() > 0 {
        let front = words.drop_last();
        let last = words.last();
        assert(front.push(last) =~= words);
        payload_ignores_zero_words(front);
        front.lemma_filter_push(last, keep);
        front.lemma_push_map_commute(text_of, last);
        front.map_values(text_of).lemma_flatten_push(word_text(last));
        if last == 0 {
            word_text_bounds(0);
        } else {
            data_words(front).lemma_push_map_commute(text_of, last);
            data_words(front).map_values(text_of).lemma_flatten_push(word_text(last));
        }
    }
}

/// The payload of two runs of words is the payload of the first followed by
/// the payload of the second.
pub proof fn payload_of_concat(first: Seq<u64>, second: Seq<u64>)
    ensures
        payload(first + second) == payload(first) + payload(second),
{
    let text_of = |w: u64| word_text(w);
    assert((first + second).map_values(text_of) =~= first.map_values(text_of) + second.map_values(
        text_of,
    ));
    vstd::seq_lib::lemma_flatten_concat(first.map_values(text_of), second.map_values(text_of));
}

/// A word that is entirely zero is left out of the record: with or without
/// it in the buffer, the record is the same.
pub proof fn zero_word_is_omitted(kind: HandlerKind, before: Seq<u64>, after: Seq<u64>)
    ensures
        log_record(kind, before + seq![0u64] + after) == log_record(kind, before + after),
{
    reveal_with_fuel(Seq::filter, 2);
}

/// A record is framed: it opens with the delimiter of its kind, closes with
/// one newline, and holds in between the text of every word of the buffer, in
/// the order of the buffer.
pub proof fn record_is_framed(kind: HandlerKind, words: Seq<u64>)
    ensures
        log_record(kind, words).len() == delimiter(kind).len() + payload(words).len() + 1,
        log_record(kind, words).subrange(0, delimiter(kind).len() as int) == delimiter(kind),
        log_record(kind, words).subrange(
            delimiter(kind).len() as int,
            log_record(kind, words).len() - 1,
        ) == payload(words),
        log_record(kind, words).last() == RECORD_END,
{
    payload_ignores_zero_words(words);
}

/// What a log holds after `record` was appended to it.
pub open spec fn log_after_append(log: Seq<u8>, record: Seq<u8>) -> Seq<u8> {
    log + record
}

/// Two calls logged one after the other to the same log leave both records
/// whole and in call order: the first where the log ended before, the second
/// right behind it, and nothing after.
pub proof fn appended_records_keep_call_order(
    log: Seq<u8>,
    first_kind: HandlerKind,
    first_words: Seq<u64>,
    second_kind: HandlerKind,
    second_words: Seq<u64>,
)
    ensures
        ({
            let first = log_record(first_kind, first_words);
            let second = log_record(second_kind, second_words);
            let end = log_after_append(log_after_append(log, first), second);
            &&& end.len() == log.len() + first.len() + second.len()
            &&& end.subrange(0, log.len() as int) == log
            &&& end.subrange(log.len() as int, (log.len() + first.len()) as int) == first
            &&& end.subrange((log.len() + first.len()) as int, end.len() as int) == second
        }),
{
}

} // verus!
