//! The Kitty graphics protocol: raw pixels, sent in chunks.
//!
//! Each chunk travels in a control sequence of its own. The first one says
//! what the image is; every one says whether more follow, which is the only
//! way for the terminal to know that the image is complete.

use crate::base64::{
    base64,
    base64_decoded,
    encode_standard,
    lemma_base64_characters,
    lemma_base64_round_trip,
};
use crate::decimal::{decimal, lemma_decimal_digits, push_decimal};
use crate::framing::{
    is_printable,
    lemma_ascii_bytes,
    lemma_escape_then_printable,
    lemma_occurrences_concat,
    lemma_occurrences_single,
    lemma_printable_is_plain,
    occurrences,
    ESC,
};
use crate::payload::EncodedPayload;
use crate::raster::{RasterImage, RasterView};
use vstd::prelude::*;
use vstd::slice::slice_subrange;
use vstd::string::StringSliceAdditionalSpecFns;

verus! {

/// The number of raw bytes in a chunk, chosen to stay clear of the limits on
/// the length of a line in terminals and multiplexers.
pub const CHUNK_SIZE: u16 = 4096;

/// The number of chunks that `len` bytes are sent in: `len / chunk_size`,
/// rounded up.
pub open spec fn chunk_count(len: nat, chunk_size: nat) -> nat {
    ((len + chunk_size - 1) / (chunk_size as int)) as nat
}

/// The raw bytes of the chunk at `index`.
pub open spec fn chunk(data: Seq<u8>, chunk_size: nat, index: nat) -> Seq<u8> {
    let start = index * chunk_size;
    let end = if start + chunk_size <= data.len() {
        start + chunk_size
    } else {
        data.len()
    };
    data.subrange(start as int, end as int)
}

/// Whether more chunks follow the one at `index`.
pub open spec fn more_follow(len: nat, chunk_size: nat, index: nat) -> bool {
    index + 1 < chunk_count(len, chunk_size)
}

/// The character that says whether more chunks follow: `1` or `0`.
pub open spec fn more_flag(more: bool) -> u8 {
    if more {
        49
    } else {
        48
    }
}

/// The control data of the sequence at `index`, up to its payload. The first
/// sequence carries the width and height in pixels, the pixel format and how
/// the image is sent; the others carry the flag alone.
pub open spec fn control(width: nat, height: nat, index: nat, more: bool) -> Seq<u8> {
    if index == 0 {
        "\x1b_Gq=2,i=1,a=T,U=1,f=32,t=d,s=".spec_bytes() + decimal(width) + ",v=".spec_bytes()
            + decimal(height) + ",m=".spec_bytes() + seq![more_flag(more)] + ";".spec_bytes()
    } else {
        "\x1b_Gq=2,m=".spec_bytes() + seq![more_flag(more)] + ";".spec_bytes()
    }
}

/// The payload of the sequence at `index`: its chunk in base64.
pub open spec fn chunk_payload(data: Seq<u8>, chunk_size: nat, index: nat) -> Seq<u8> {
    base64(chunk(data, chunk_size, index))
}

/// The control sequence at `index`.
pub open spec fn sequence(image: RasterView, chunk_size: nat, index: nat) -> Seq<u8> {
    control(
        image.width,
        image.height,
        index,
        more_follow(image.pixels.len(), chunk_size, index),
    ) + chunk_payload(image.pixels, chunk_size, index) + "\x1b\\".spec_bytes()
}

/// The first `count` control sequences, one after the other.
pub open spec fn sequences(image: RasterView, chunk_size: nat, count: nat) -> Seq<u8>
    decreases count,
{
    if count == 0 {
        Seq::empty()
    } else {
        sequences(image, chunk_size, (count - 1) as nat) + sequence(
            image,
            chunk_size,
            (count - 1) as nat,
        )
    }
}

/// All that is sent for `image`: one control sequence for each chunk.
pub open spec fn kitty_stream(image: RasterView, chunk_size: nat) -> Seq<u8> {
    sequences(image, chunk_size, chunk_count(image.pixels.len(), chunk_size))
}

/// The bytes that the first `count` payloads decode to, one after the other.
pub open spec fn decoded_chunks(data: Seq<u8>, chunk_size: nat, count: nat) -> Seq<u8>
    decreases count,
{
    if count == 0 {
        Seq::empty()
    } else {
        decoded_chunks(data, chunk_size, (count - 1) as nat) + base64_decoded(
            chunk_payload(data, chunk_size, (count - 1) as nat),
        )
    }
}

/// A chunk starts inside the data exactly if its index is below the number
/// of chunks.
pub proof fn lemma_chunk_in_range(len: nat, chunk_size: nat, index: nat)
    requires
        chunk_size >= 1,
    ensures
        index < chunk_count(len, chunk_size) <==> index * chunk_size < len,
{
    let c = chunk_size as int;
    let total = len + c - 1;
    let count = total / c;
    vstd::arithmetic::div_mod::lemma_fundamental_div_mod(total, c);
    vstd::arithmetic::div_mod::lemma_mod_bound(total, c);
    let rest = total % c;
    assert(total == c * count + rest);
    if (index as int) < count {
        assert(index * c + c <= c * count) by (nonlinear_arith)
            requires
                index + 1 <= count,
                c >= 1,
        ;
    } else {
        assert(c * count <= index * c) by (nonlinear_arith)
            requires
                count <= index,
                c >= 1,
        ;
    }
}

/// The number of chunks is the length over the size of a chunk, rounded up:
/// that many chunks hold all the bytes, and one fewer would not.
pub proof fn lemma_chunk_count_is_ceiling(len: nat, chunk_size: nat)
    requires
        chunk_size >= 1,
    ensures
        chunk_count(len, chunk_size) * chunk_size >= len,
        len > 0 ==> chunk_count(len, chunk_size) >= 1 && (chunk_count(len, chunk_size) - 1)
            * chunk_size < len,
        len == 0 ==> chunk_count(len, chunk_size) == 0,
{
    let count = chunk_count(len, chunk_size);
    lemma_chunk_in_range(len, chunk_size, count);
    if count > 0 {
        lemma_chunk_in_range(len, chunk_size, (count - 1) as nat);
    } else {
        lemma_chunk_in_range(len, chunk_size, 0);
        assert(0 * chunk_size == 0) by (nonlinear_arith);
    }
}

/// Every sequence but the last says that more follow, and the last says
/// that none does.
pub proof fn lemma_more_flags(len: nat, chunk_size: nat, index: nat)
    requires
        chunk_size >= 1,
        index < chunk_count(len, chunk_size),
    ensures
        more_flag(more_follow(len, chunk_size, index)) == (if index + 1 == chunk_count(
            len,
            chunk_size,
        ) {
            48u8
        } else {
            49u8
        }),
{
}

/// The number of bytes in the first `count` chunks.
pub open spec fn chunked_len(len: nat, chunk_size: nat, count: nat) -> nat {
    if count * chunk_size <= len {
        count * chunk_size
    } else {
        len
    }
}

/// A chunk holds the bytes between those of the chunks before it and those
/// of the chunks up to it, and all the chunks together hold all the bytes.
pub proof fn lemma_chunk_bounds(data: Seq<u8>, chunk_size: nat, index: nat)
    requires
        chunk_size >= 1,
        index < chunk_count(data.len(), chunk_size),
    ensures
        chunked_len(data.len(), chunk_size, index) < chunked_len(
            data.len(),
            chunk_size,
            index + 1,
        ) <= data.len(),
        chunk(data, chunk_size, index) == data.subrange(
            chunked_len(data.len(), chunk_size, index) as int,
            chunked_len(data.len(), chunk_size, index + 1) as int,
        ),
        chunked_len(data.len(), chunk_size, chunk_count(data.len(), chunk_size)) == data.len(),
{
    let count = chunk_count(data.len(), chunk_size);
    lemma_chunk_in_range(data.len(), chunk_size, index);
    lemma_chunk_in_range(data.len(), chunk_size, count);
    lemma_chunk_in_range(data.len(), chunk_size, (count - 1) as nat);
    assert((index + 1) * chunk_size == index * chunk_size + chunk_size) by (nonlinear_arith);
    assert(count * chunk_size == (count - 1) * chunk_size + chunk_size) by (nonlinear_arith);
}

/// The first `count` payloads decode to the start of the data.
proof fn lemma_decoded_prefix(data: Seq<u8>, chunk_size: nat, count: nat)
    requires
        chunk_size >= 1,
        count <= chunk_count(data.len(), chunk_size),
    ensures
        decoded_chunks(data, chunk_size, count) == data.subrange(
            0,
            chunked_len(data.len(), chunk_size, count) as int,
        ),
    decreases count,
{
    if count == 0 {
        assert(chunked_len(data.len(), chunk_size, 0) == 0) by (nonlinear_arith)
            requires
                chunked_len(data.len(), chunk_size, 0) == (if 0 * chunk_size <= data.len() {
                    0 * chunk_size
                } else {
                    data.len()
                }),
        ;
        assert(data.subrange(0, 0) =~= Seq::<u8>::empty());
    } else {
        let before = (count - 1) as nat;
        lemma_decoded_prefix(data, chunk_size, before);
        lemma_chunk_bounds(data, chunk_size, before);
        let part = chunk(data, chunk_size, before);
        lemma_base64_round_trip(part);
        let start = chunked_len(data.len(), chunk_size, before) as int;
        let end = chunked_len(data.len(), chunk_size, count) as int;
        assert(base64_decoded(chunk_payload(data, chunk_size, before)) == part);
        assert(decoded_chunks(data, chunk_size, count) == data.subrange(0, start) + part);
        assert(data.subrange(0, start) + data.subrange(start, end) =~= data.subrange(0, end));
    }
}

/// The round trip: the payloads of all the chunks, each decoded from base64
/// and put together in order, are the data that was sent.
pub proof fn lemma_kitty_round_trip(data: Seq<u8>, chunk_size: nat)
    requires
        chunk_size >= 1,
    ensures
        decoded_chunks(data, chunk_size, chunk_count(data.len(), chunk_size)) == data,
{
    let count = chunk_count(data.len(), chunk_size);
    lemma_decoded_prefix(data, chunk_size, count);
    if count > 0 {
        lemma_chunk_bounds(data, chunk_size, (count - 1) as nat);
    } else {
        lemma_chunk_in_range(data.len(), chunk_size, 0);
        assert(0 * chunk_size == 0) by (nonlinear_arith);
    }
    assert(data.subrange(0, data.len() as int) =~= data);
}

/// The control data of a sequence starts with the escape character and an
/// underscore, and holds no other escape character.
proof fn lemma_control_frame(width: nat, height: nat, index: nat, more: bool)
    ensures
        control(width, height, index, more).len() >= 2,
        control(width, height, index, more)[0] == ESC,
        control(width, height, index, more)[1] == 95,
        occurrences(control(width, height, index, more), ESC) == 1,
{
    let flag = seq![more_flag(more)];
    let end = ";".spec_bytes();
    reveal_strlit(";");
    lemma_ascii_bytes(";");
    assert(is_printable(end));
    lemma_printable_is_plain(end);
    lemma_occurrences_single(more_flag(more), ESC);
    if index == 0 {
        let head = "\x1b_Gq=2,i=1,a=T,U=1,f=32,t=d,s=".spec_bytes();
        let v = ",v=".spec_bytes();
        let m = ",m=".spec_bytes();
        reveal_strlit("\x1b_Gq=2,i=1,a=T,U=1,f=32,t=d,s=");
        reveal_strlit(",v=");
        reveal_strlit(",m=");
        lemma_ascii_bytes("\x1b_Gq=2,i=1,a=T,U=1,f=32,t=d,s=");
        lemma_ascii_bytes(",v=");
        lemma_ascii_bytes(",m=");
        lemma_escape_then_printable(head);
        assert(is_printable(v));
        assert(is_printable(m));
        lemma_printable_is_plain(v);
        lemma_printable_is_plain(m);
        lemma_decimal_digits(width);
        lemma_decimal_digits(height);
        lemma_printable_is_plain(decimal(width));
        lemma_printable_is_plain(decimal(height));
        lemma_occurrences_concat(head, decimal(width), ESC);
        lemma_occurrences_concat(head + decimal(width), v, ESC);
        lemma_occurrences_concat(head + decimal(width) + v, decimal(height), ESC);
        lemma_occurrences_concat(head + decimal(width) + v + decimal(height), m, ESC);
        lemma_occurrences_concat(head + decimal(width) + v + decimal(height) + m, flag, ESC);
        lemma_occurrences_concat(
            head + decimal(width) + v + decimal(height) + m + flag,
            end,
            ESC,
        );
    } else {
        let head = "\x1b_Gq=2,m=".spec_bytes();
        reveal_strlit("\x1b_Gq=2,m=");
        lemma_ascii_bytes("\x1b_Gq=2,m=");
        lemma_escape_then_printable(head);
        lemma_occurrences_concat(head, flag, ESC);
        lemma_occurrences_concat(head + flag, end, ESC);
    }
}

/// Each sequence is one application program command: it opens with the
/// escape character and an underscore, closes with the escape character and
/// a backslash, and holds no escape character in between.
pub proof fn lemma_sequence_frame(image: RasterView, chunk_size: nat, index: nat)
    ensures
        ({
            let one = sequence(image, chunk_size, index);
            &&& one.len() >= 4
            &&& one[0] == ESC
            &&& one[1] == 95
            &&& one[one.len() - 2] == ESC
            &&& one[one.len() - 1] == 92
            &&& occurrences(one, ESC) == 2
        }),
{
    let more = more_follow(image.pixels.len(), chunk_size, index);
    let head = control(image.width, image.height, index, more);
    let payload = chunk_payload(image.pixels, chunk_size, index);
    let close = "\x1b\\".spec_bytes();
    lemma_control_frame(image.width, image.height, index, more);
    lemma_base64_characters(chunk(image.pixels, chunk_size, index));
    assert(is_printable(payload));
    lemma_printable_is_plain(payload);
    reveal_strlit("\x1b\\");
    lemma_ascii_bytes("\x1b\\");
    lemma_escape_then_printable(close);
    lemma_occurrences_concat(head, payload, ESC);
    lemma_occurrences_concat(head + payload, close, ESC);
}

/// The first `count` sequences hold two escape characters each.
proof fn lemma_sequences_escapes(image: RasterView, chunk_size: nat, count: nat)
    ensures
        occurrences(sequences(image, chunk_size, count), ESC) == 2 * count,
    decreases count,
{
    if count > 0 {
        let before = (count - 1) as nat;
        lemma_sequences_escapes(image, chunk_size, before);
        lemma_sequence_frame(image, chunk_size, before);
        lemma_occurrences_concat(
            sequences(image, chunk_size, before),
            sequence(image, chunk_size, before),
            ESC,
        );
    }
}

/// The payload holds as many sequences as there are chunks: two escape
/// characters for each chunk, the one that opens its sequence and the one
/// that closes it.
pub proof fn lemma_one_sequence_per_chunk(image: RasterView, chunk_size: nat)
    ensures
        occurrences(kitty_stream(image, chunk_size), ESC) == 2 * chunk_count(
            image.pixels.len(),
            chunk_size,
        ),
{
    lemma_sequences_escapes(image, chunk_size, chunk_count(image.pixels.len(), chunk_size));
}

/// Counts the chunks that `len` bytes are sent in.
pub fn count_chunks(len: usize, chunk_size: u16) -> (count: usize)
    requires
        chunk_size >= 1,
    ensures
        count == chunk_count(len as nat, chunk_size as nat),
{
    let size = chunk_size as usize;
    let whole = len / size;
    proof {
        let c = size as int;
        vstd::arithmetic::div_mod::lemma_fundamental_div_mod(len as int, c);
        vstd::arithmetic::div_mod::lemma_mod_bound(len as int, c);
        lemma_chunk_in_range(len as nat, size as nat, whole as nat);
        lemma_chunk_in_range(len as nat, size as nat, (whole + 1) as nat);
        assert((whole + 1) * c == whole * c + c) by (nonlinear_arith);
        assert(whole * c == c * whole) by (nonlinear_arith);
        assert(whole <= whole * c) by (nonlinear_arith)
            requires
                c >= 1,
                whole >= 0,
        ;
        if whole >= 1 {
            lemma_chunk_in_range(len as nat, size as nat, (whole - 1) as nat);
            assert((whole - 1) * c == whole * c - c) by (nonlinear_arith);
        }
    }
    if len % size == 0 {
        whole
    } else {
        whole + 1
    }
}

/// Encodes `image` for Kitty in chunks of `chunk_size` raw bytes.
///
/// The payload is one control sequence for each chunk, in order, so
/// `chunk_count` of them; a bitmap without pixels gives no sequence at all.
pub fn encode_kitty_chunked(image: &RasterImage, chunk_size: u16) -> (payload: EncodedPayload)
    requires
        chunk_size >= 1,
    ensures
        payload@ == kitty_stream(image@, chunk_size as nat),
{
    let data = image.pixels();
    let len = data.len();
    let size = chunk_size as usize;
    let mut out: Vec<u8> = Vec::new();
    let mut start: usize = 0;
    let ghost mut index: nat = 0;
    proof {
        lemma_chunk_in_range(len as nat, size as nat, 0);
        assert(0 * size == 0) by (nonlinear_arith);
    }
    while start < len
        invariant
            size == chunk_size,
            size >= 1,
            len == data@.len(),
            data@ == image@.pixels,
            start <= len,
            start == chunked_len(len as nat, size as nat, index),
            index <= chunk_count(len as nat, size as nat),
            start == 0 <==> index == 0,
            out@ == sequences(image@, size as nat, index),
        decreases len - start,
    {
        let end = if len - start > size {
            start + size
        } else {
            len
        };
        let more = end < len;
        proof {
            lemma_chunk_in_range(len as nat, size as nat, index);
            lemma_chunk_in_range(len as nat, size as nat, index + 1);
            lemma_chunk_bounds(data@, size as nat, index);
            assert((index + 1) * size == index * size + size) by (nonlinear_arith);
        }
        let ghost before = out@;
        push_control(&mut out, image.width(), image.height(), start == 0, more);
        let mut text = encode_standard(slice_subrange(data.as_slice(), start, end));
        out.append(&mut text);
        out.extend_from_slice("\x1b\\".as_bytes());
        proof {
            assert(out@ == before + sequence(image@, size as nat, index));
            index = index + 1;
        }
        start = end;
    }
    proof {
        lemma_chunk_in_range(len as nat, size as nat, index);
    }
    EncodedPayload { bytes: out }
}

/// Appends the control data of one sequence, up to its payload.
fn push_control(out: &mut Vec<u8>, width: u32, height: u32, first: bool, more: bool)
    ensures
        final(out)@ == old(out)@ + control(
            width as nat,
            height as nat,
            if first {
                0
            } else {
                1
            },
            more,
        ),
{
    let flag: u8 = if more {
        49
    } else {
        48
    };
    if first {
        out.extend_from_slice("\x1b_Gq=2,i=1,a=T,U=1,f=32,t=d,s=".as_bytes());
        push_decimal(out, width as u64);
        out.extend_from_slice(",v=".as_bytes());
        push_decimal(out, height as u64);
        out.extend_from_slice(",m=".as_bytes());
    } else {
        out.extend_from_slice("\x1b_Gq=2,m=".as_bytes());
    }
    out.push(flag);
    out.extend_from_slice(";".as_bytes());
}

/// Encodes `image` for Kitty in chunks of `CHUNK_SIZE` raw bytes.
pub fn encode_kitty(image: &RasterImage) -> (payload: EncodedPayload)
    ensures
        payload@ == kitty_stream(image@, CHUNK_SIZE as nat),
{
    encode_kitty_chunked(image, CHUNK_SIZE)
}

} // verus!
