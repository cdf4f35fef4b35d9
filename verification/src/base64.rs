//! Standard base64 with padding, as a function on byte sequences.
//!
//! The encoding itself is done by the `base64` crate; this module states what
//! that encoding is and proves that it can always be decoded again.

use base64::Engine;
use vstd::prelude::*;

verus! {

/// The padding character `=`.
pub const PAD: u8 = 61;

/// The character that stands for the six-bit value `v` in the standard
/// alphabet: `A`-`Z`, `a`-`z`, `0`-`9`, `+`, `/`.
pub open spec fn symbol(v: int) -> u8 {
    if v < 26 {
        (65 + v) as u8
    } else if v < 52 {
        (97 + (v - 26)) as u8
    } else if v < 62 {
        (48 + (v - 52)) as u8
    } else if v == 62 {
        43
    } else {
        47
    }
}

/// The six-bit value that the character `c` stands for; 64 for a character
/// outside the alphabet.
pub open spec fn symbol_value(c: u8) -> int {
    if 65 <= c <= 90 {
        c - 65
    } else if 97 <= c <= 122 {
        c - 97 + 26
    } else if 48 <= c <= 57 {
        c - 48 + 52
    } else if c == 43 {
        62
    } else if c == 47 {
        63
    } else {
        64
    }
}

/// The byte of `data` at `i`, or zero past its end.
pub open spec fn byte_or_zero(data: Seq<u8>, i: int) -> int {
    if 0 <= i < data.len() {
        data[i] as int
    } else {
        0
    }
}

/// The `k`-th group of six bits of `data`, read as one stream of bits that is
/// filled up with zero bits at its end.
pub open spec fn sextet(data: Seq<u8>, k: int) -> int {
    let i = k / 4 * 3;
    let j = k % 4;
    if j == 0 {
        byte_or_zero(data, i) / 4
    } else if j == 1 {
        byte_or_zero(data, i) % 4 * 16 + byte_or_zero(data, i + 1) / 16
    } else if j == 2 {
        byte_or_zero(data, i + 1) % 16 * 4 + byte_or_zero(data, i + 2) / 64
    } else {
        byte_or_zero(data, i + 2) % 64
    }
}

/// The number of characters in the encoding of `n` bytes: four for every
/// three bytes or part of three.
pub open spec fn encoded_len(n: nat) -> nat {
    (n + 2) / 3 * 4
}

/// The number of characters, among those, that carry data.
pub open spec fn symbol_count(n: nat) -> nat {
    (n * 4 + 2) / 3
}

/// The base64 encoding of `data`: one character per group of six bits, then
/// `=` up to a multiple of four characters.
#[verifier::opaque]
pub open spec fn base64(data: Seq<u8>) -> Seq<u8> {
    Seq::new(
        encoded_len(data.len()),
        |k: int|
            if k < symbol_count(data.len()) {
                symbol(sextet(data, k))
            } else {
                PAD
            },
    )
}

/// The number of padding characters at the end of `text`, at most two.
pub open spec fn padding_len(text: Seq<u8>) -> nat {
    if text.len() >= 1 && text[text.len() - 1] == PAD {
        if text.len() >= 2 && text[text.len() - 2] == PAD {
            2
        } else {
            1
        }
    } else {
        0
    }
}

/// The number of bytes that `text` decodes to.
pub open spec fn decoded_len(text: Seq<u8>) -> nat {
    let full = text.len() / 4 * 3;
    if full >= padding_len(text) {
        (full - padding_len(text)) as nat
    } else {
        0
    }
}

/// The `i`-th byte that `text` decodes to: eight bits out of two neighbouring
/// characters.
pub open spec fn decoded_byte(text: Seq<u8>, i: int) -> u8 {
    let q = i / 3 * 4;
    let j = i % 3;
    if j == 0 {
        (symbol_value(text[q]) * 4 + symbol_value(text[q + 1]) / 16) as u8
    } else if j == 1 {
        (symbol_value(text[q + 1]) % 16 * 16 + symbol_value(text[q + 2]) / 4) as u8
    } else {
        (symbol_value(text[q + 2]) % 4 * 64 + symbol_value(text[q + 3])) as u8
    }
}

/// The bytes that a padded base64 text stands for.
#[verifier::opaque]
pub open spec fn base64_decoded(text: Seq<u8>) -> Seq<u8> {
    Seq::new(decoded_len(text), |i: int| decoded_byte(text, i))
}

/// Whether the encoding of `n` bytes has a length that fits in `usize`.
pub open spec fn encodable_len(n: nat) -> bool {
    encoded_len(n) <= usize::MAX
}

/// `Engine::encode` of the `base64` crate on its `STANDARD` engine, whose
/// result is handed back as bytes. The contract claims that the text is the
/// standard encoding with padding, as `base64` states it. The crate panics
/// where the length of the text does not fit in `usize`, so such input is
/// left out.
#[verifier::external_body]
pub(crate) fn encode_standard(data: &[u8]) -> (text: Vec<u8>)
    requires
        encodable_len(data@.len()),
    ensures
        text@ == base64(data@),
{
    base64::engine::general_purpose::STANDARD.encode(data).into_bytes()
}

/// A character of the alphabet stands for the value it was chosen for, and it
/// is never the padding character.
pub proof fn lemma_symbol_value(v: int)
    requires
        0 <= v < 64,
    ensures
        symbol_value(symbol(v)) == v,
        symbol(v) != PAD,
{
}

/// Three bytes, cut into four groups of six bits, are got back from the
/// groups: what a decoder computes from four characters.
proof fn lemma_regroup(a: int, b: int, c: int)
    requires
        0 <= a < 256,
        0 <= b < 256,
        0 <= c < 256,
    ensures
        0 <= a / 4 < 64,
        0 <= a % 4 * 16 + b / 16 < 64,
        0 <= b % 16 * 4 + c / 64 < 64,
        0 <= c % 64 < 64,
        (a / 4) * 4 + (a % 4 * 16 + b / 16) / 16 == a,
        (a % 4 * 16 + b / 16) % 16 * 16 + (b % 16 * 4 + c / 64) / 4 == b,
        (b % 16 * 4 + c / 64) % 4 * 64 + c % 64 == c,
{
}

/// The groups of six bits of the three bytes that start at `3 * g`.
proof fn lemma_sextets_of_group(data: Seq<u8>, g: int)
    requires
        0 <= g,
    ensures
        sextet(data, 4 * g) == byte_or_zero(data, 3 * g) / 4,
        sextet(data, 4 * g + 1) == byte_or_zero(data, 3 * g) % 4 * 16 + byte_or_zero(
            data,
            3 * g + 1,
        ) / 16,
        sextet(data, 4 * g + 2) == byte_or_zero(data, 3 * g + 1) % 16 * 4 + byte_or_zero(
            data,
            3 * g + 2,
        ) / 64,
        sextet(data, 4 * g + 3) == byte_or_zero(data, 3 * g + 2) % 64,
        forall|j: int| 0 <= j < 4 ==> 0 <= #[trigger] sextet(data, 4 * g + j) < 64,
{
    lemma_regroup(
        byte_or_zero(data, 3 * g),
        byte_or_zero(data, 3 * g + 1),
        byte_or_zero(data, 3 * g + 2),
    );
    assert forall|j: int| 0 <= j < 4 implies 0 <= #[trigger] sextet(data, 4 * g + j) < 64 by {
        assert(j == 0 || j == 1 || j == 2 || j == 3);
    }
}

/// The characters of the encoding that stand for the three bytes from
/// `3 * g` on.
proof fn lemma_base64_group(data: Seq<u8>, g: int)
    requires
        0 <= g,
        3 * g < data.len(),
    ensures
        4 * g + 3 < base64(data).len(),
        symbol_value(base64(data)[4 * g]) == sextet(data, 4 * g),
        symbol_value(base64(data)[4 * g + 1]) == sextet(data, 4 * g + 1),
        3 * g + 1 < data.len() ==> symbol_value(base64(data)[4 * g + 2]) == sextet(
            data,
            4 * g + 2,
        ),
        3 * g + 2 < data.len() ==> symbol_value(base64(data)[4 * g + 3]) == sextet(
            data,
            4 * g + 3,
        ),
        3 * g + 1 >= data.len() ==> base64(data)[4 * g + 2] == PAD,
        3 * g + 2 >= data.len() ==> base64(data)[4 * g + 3] == PAD,
        3 * g + 1 < data.len() ==> base64(data)[4 * g + 2] != PAD,
        3 * g + 2 < data.len() ==> base64(data)[4 * g + 3] != PAD,
{
    reveal(base64);
    lemma_sextets_of_group(data, g);
    assert(0 <= sextet(data, 4 * g + 0) < 64);
    assert(0 <= sextet(data, 4 * g + 1) < 64);
    assert(0 <= sextet(data, 4 * g + 2) < 64);
    assert(0 <= sextet(data, 4 * g + 3) < 64);
    lemma_symbol_value(sextet(data, 4 * g));
    lemma_symbol_value(sextet(data, 4 * g + 1));
    lemma_symbol_value(sextet(data, 4 * g + 2));
    lemma_symbol_value(sextet(data, 4 * g + 3));
}

/// The encoding holds characters of the alphabet and padding, nothing else:
/// every one of them is a printable character.
pub proof fn lemma_base64_characters(data: Seq<u8>)
    ensures
        base64(data).len() == encoded_len(data.len()),
        forall|k: int|
            0 <= k < base64(data).len() ==> 43 <= #[trigger] base64(data)[k] <= 122,
{
    reveal(base64);
    assert forall|k: int| 0 <= k < base64(data).len() implies 43 <= #[trigger] base64(data)[k]
        <= 122 by {
        let g = k / 4;
        lemma_sextets_of_group(data, g);
        assert(0 <= sextet(data, 4 * g + k % 4) < 64);
    }
}

/// The encoding of `data` decodes to as many bytes as `data` has.
pub proof fn lemma_decoded_len(data: Seq<u8>)
    ensures
        decoded_len(base64(data)) == data.len(),
{
    reveal(base64);
    let n = data.len() as int;
    if n > 0 {
        let g = (n - 1) / 3;
        lemma_base64_group(data, g);
        lemma_symbol_value(sextet(data, 4 * g));
        lemma_symbol_value(sextet(data, 4 * g + 1));
    }
}

/// Decoding undoes encoding: every byte sequence is what its base64 text
/// decodes to.
pub proof fn lemma_base64_round_trip(data: Seq<u8>)
    ensures
        base64_decoded(base64(data)) == data,
{
    reveal(base64_decoded);
    let text = base64(data);
    lemma_decoded_len(data);
    assert forall|i: int| 0 <= i < data.len() implies decoded_byte(text, i) == data[i] by {
        let g = i / 3;
        lemma_base64_group(data, g);
        lemma_sextets_of_group(data, g);
        lemma_regroup(
            byte_or_zero(data, 3 * g),
            byte_or_zero(data, 3 * g + 1),
            byte_or_zero(data, 3 * g + 2),
        );
    }
    assert(base64_decoded(text) =~= data);
}

} // verus!
