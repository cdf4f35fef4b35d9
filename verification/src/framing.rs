//! Counting the bytes that open and close control sequences.
//!
//! A terminal finds the start and the end of a control sequence by the
//! escape character and the bell character. How often they occur in a
//! payload says how many sequences it holds.

use vstd::prelude::*;
use vstd::string::StringSliceAdditionalSpecFns;
use vstd::utf8::{is_ascii_chars, is_ascii_chars_encode_utf8};

verus! {

/// The escape character.
pub const ESC: u8 = 27;

/// The bell character.
pub const BEL: u8 = 7;

/// How often `byte` occurs in `bytes`.
pub open spec fn occurrences(bytes: Seq<u8>, byte: u8) -> nat
    decreases bytes.len(),
{
    if bytes.len() == 0 {
        0
    } else {
        occurrences(bytes.drop_last(), byte) + if bytes.last() == byte {
            1nat
        } else {
            0nat
        }
    }
}

/// Whether every byte is a printable ASCII character.
pub open spec fn is_printable(bytes: Seq<u8>) -> bool {
    forall|i: int| 0 <= i < bytes.len() ==> 32 <= #[trigger] bytes[i] <= 126
}

/// What occurs in two byte sequences put together is what occurs in the
/// first and what occurs in the second.
pub proof fn lemma_occurrences_concat(first: Seq<u8>, second: Seq<u8>, byte: u8)
    ensures
        occurrences(first + second, byte) == occurrences(first, byte) + occurrences(second, byte),
    decreases second.len(),
{
    if second.len() == 0 {
        assert(first + second =~= first);
    } else {
        lemma_occurrences_concat(first, second.drop_last(), byte);
        assert((first + second).drop_last() =~= first + second.drop_last());
    }
}

/// A byte that is nowhere in a sequence occurs no times.
pub proof fn lemma_occurrences_none(bytes: Seq<u8>, byte: u8)
    requires
        forall|i: int| 0 <= i < bytes.len() ==> bytes[i] != byte,
    ensures
        occurrences(bytes, byte) == 0,
    decreases bytes.len(),
{
    if bytes.len() > 0 {
        lemma_occurrences_none(bytes.drop_last(), byte);
    }
}

/// Printable text holds neither an escape character nor a bell.
pub proof fn lemma_printable_is_plain(bytes: Seq<u8>)
    requires
        is_printable(bytes),
    ensures
        occurrences(bytes, ESC) == 0,
        occurrences(bytes, BEL) == 0,
{
    lemma_occurrences_none(bytes, ESC);
    lemma_occurrences_none(bytes, BEL);
}

/// A single byte occurs once in itself, and no other byte occurs in it.
pub proof fn lemma_occurrences_single(only: u8, byte: u8)
    ensures
        occurrences(seq![only], byte) == (if only == byte {
            1nat
        } else {
            0nat
        }),
{
    let single = seq![only];
    assert(single.drop_last() =~= Seq::<u8>::empty());
    assert(single.last() == only);
    assert(occurrences(single.drop_last(), byte) == 0);
}

/// An escape character followed by printable text holds that one escape
/// character and no bell.
pub proof fn lemma_escape_then_printable(bytes: Seq<u8>)
    requires
        bytes.len() >= 1,
        bytes[0] == ESC,
        forall|i: int| 1 <= i < bytes.len() ==> 32 <= #[trigger] bytes[i] <= 126,
    ensures
        occurrences(bytes, ESC) == 1,
        occurrences(bytes, BEL) == 0,
{
    let rest = bytes.subrange(1, bytes.len() as int);
    assert(bytes =~= seq![ESC] + rest);
    assert(is_printable(rest));
    lemma_printable_is_plain(rest);
    lemma_occurrences_single(ESC, ESC);
    lemma_occurrences_single(ESC, BEL);
    lemma_occurrences_concat(seq![ESC], rest, ESC);
    lemma_occurrences_concat(seq![ESC], rest, BEL);
}

/// The bytes of a text of ASCII characters are the codes of its characters.
pub proof fn lemma_ascii_bytes(text: &str)
    requires
        is_ascii_chars(text@),
    ensures
        text.spec_bytes().len() == text@.len(),
        forall|i: int| 0 <= i < text@.len() ==> #[trigger] text.spec_bytes()[i] == text@[i] as u8,
{
    is_ascii_chars_encode_utf8(text@);
}

} // verus!
