//! The byte layout of the fields that make up a stored record.
//!
//! Integers are written little-endian at their full width. A text is written
//! as the length of its UTF-8 form, a `u32`, followed by that form. Every
//! `take_*` function reads one field from the front of a byte sequence and
//! returns it with the bytes that remain; the lemmas show that reading undoes
//! writing.

use vstd::bytes::{
    lemma_auto_spec_u32_to_from_le_bytes, lemma_auto_spec_u64_to_from_le_bytes,
    spec_u32_from_le_bytes, spec_u32_to_le_bytes, spec_u64_from_le_bytes, spec_u64_to_le_bytes,
    u32_from_le_bytes, u32_to_le_bytes, u64_from_le_bytes, u64_to_le_bytes,
};
use vstd::prelude::*;
use vstd::slice::slice_subrange;
use vstd::string::StringExecFns;
use vstd::utf8::{
    decode_utf8, decode_utf8_encode_utf8, encode_utf8, encode_utf8_decode_utf8,
    encode_utf8_valid_utf8, valid_utf8,
};

verus! {

/// The eight bytes of `x`, least significant first.
pub open spec fn u64_wire(x: u64) -> Seq<u8> {
    spec_u64_to_le_bytes(x)
}

/// The four bytes of `x`, least significant first.
pub open spec fn u32_wire(x: u32) -> Seq<u8> {
    spec_u32_to_le_bytes(x)
}

/// The single byte `x`.
pub open spec fn u8_wire(x: u8) -> Seq<u8> {
    seq![x]
}

/// The UTF-8 form of `s`, with its length in front.
pub open spec fn text_wire(s: Seq<char>) -> Seq<u8> {
    spec_u32_to_le_bytes(encode_utf8(s).len() as u32) + encode_utf8(s)
}

/// Reads one byte from the front of `b`.
#[verifier::opaque]
pub open spec fn take_u8(b: Seq<u8>) -> Option<(u8, Seq<u8>)> {
    if b.len() < 1 {
        None
    } else {
        Some((b[0], b.skip(1)))
    }
}

/// Reads a little-endian `u32` from the front of `b`.
#[verifier::opaque]
pub open spec fn take_u32(b: Seq<u8>) -> Option<(u32, Seq<u8>)> {
    if b.len() < 4 {
        None
    } else {
        Some((spec_u32_from_le_bytes(b.take(4)), b.skip(4)))
    }
}

/// Reads a little-endian `u64` from the front of `b`.
#[verifier::opaque]
pub open spec fn take_u64(b: Seq<u8>) -> Option<(u64, Seq<u8>)> {
    if b.len() < 8 {
        None
    } else {
        Some((spec_u64_from_le_bytes(b.take(8)), b.skip(8)))
    }
}

/// Reads a length-prefixed text from the front of `b`. There is none where
/// the bytes run out or are not well-formed UTF-8.
#[verifier::opaque]
pub open spec fn take_text(b: Seq<u8>) -> Option<(Seq<char>, Seq<u8>)> {
    match take_u32(b) {
        None => None,
        Some((n, rest)) => {
            if rest.len() < n || !valid_utf8(rest.take(n as int)) {
                None
            } else {
                Some((decode_utf8(rest.take(n as int)), rest.skip(n as int)))
            }
        },
    }
}

/// The field that was read.
pub open spec fn got<T>(field: Option<(T, Seq<u8>)>) -> T {
    match field {
        Some((value, _)) => value,
        None => arbitrary(),
    }
}

/// The bytes that remain after the field that was read: none where no field
/// was read.
pub open spec fn after<T>(field: Option<(T, Seq<u8>)>) -> Seq<u8> {
    match field {
        Some((_, rest)) => rest,
        None => Seq::empty(),
    }
}

/// A written byte is read back, and what followed it remains.
pub proof fn lemma_take_u8(x: u8, rest: Seq<u8>)
    ensures
        take_u8(u8_wire(x) + rest) == Some((x, rest)),
{
    reveal(take_u8);
    assert((u8_wire(x) + rest).skip(1) =~= rest);
}

/// A written `u32` is read back, and what followed it remains.
pub proof fn lemma_take_u32(x: u32, rest: Seq<u8>)
    ensures
        u32_wire(x).len() == 4,
        take_u32(u32_wire(x) + rest) == Some((x, rest)),
{
    reveal(take_u32);
    lemma_auto_spec_u32_to_from_le_bytes();
    let b = u32_wire(x) + rest;
    assert(b.take(4) =~= u32_wire(x));
    assert(b.skip(4) =~= rest);
}

/// A written `u64` is read back, and what followed it remains.
pub proof fn lemma_take_u64(x: u64, rest: Seq<u8>)
    ensures
        u64_wire(x).len() == 8,
        take_u64(u64_wire(x) + rest) == Some((x, rest)),
{
    reveal(take_u64);
    lemma_auto_spec_u64_to_from_le_bytes();
    let b = u64_wire(x) + rest;
    assert(b.take(8) =~= u64_wire(x));
    assert(b.skip(8) =~= rest);
}

/// A written text is read back, and what followed it remains, as long as its
/// UTF-8 form is short enough for the length prefix.
pub proof fn lemma_take_text(s: Seq<char>, rest: Seq<u8>)
    requires
        encode_utf8(s).len() <= u32::MAX,
    ensures
        text_wire(s).len() == 4 + encode_utf8(s).len(),
        take_text(text_wire(s) + rest) == Some((s, rest)),
{
    reveal(take_text);
    let body = encode_utf8(s);
    let n = body.len() as u32;
    lemma_take_u32(n, body + rest);
    assert(text_wire(s) + rest =~= u32_wire(n) + (body + rest));
    assert((body + rest).take(n as int) =~= body);
    assert((body + rest).skip(n as int) =~= rest);
    encode_utf8_valid_utf8(s);
    encode_utf8_decode_utf8(s);
}

/// How long each wire form is.
pub proof fn lemma_wire_lengths()
    ensures
        forall|x: u8| #[trigger] u8_wire(x).len() == 1,
        forall|x: u32| #[trigger] u32_wire(x).len() == 4,
        forall|x: u64| #[trigger] u64_wire(x).len() == 8,
        forall|s: Seq<char>| #[trigger] text_wire(s).len() == 4 + encode_utf8(s).len(),
{
    lemma_auto_spec_u32_to_from_le_bytes();
    lemma_auto_spec_u64_to_from_le_bytes();
}

/// Only one byte reads as a given byte.
pub proof fn lemma_take_u8_canonical(b: Seq<u8>)
    ensures
        take_u8(b) is Some ==> b == u8_wire(got(take_u8(b))) + after(take_u8(b)),
{
    reveal(take_u8);
    if take_u8(b) is Some {
        assert(b =~= u8_wire(b[0]) + b.skip(1));
    }
}

/// Only one byte sequence reads as a given `u32`.
pub proof fn lemma_take_u32_canonical(b: Seq<u8>)
    ensures
        take_u32(b) is Some ==> b == u32_wire(got(take_u32(b))) + after(take_u32(b)),
{
    reveal(take_u32);
    lemma_auto_spec_u32_to_from_le_bytes();
    if take_u32(b) is Some {
        assert(spec_u32_to_le_bytes(spec_u32_from_le_bytes(b.take(4))) == b.take(4));
        assert(b =~= b.take(4) + b.skip(4));
    }
}

/// Only one byte sequence reads as a given `u64`.
pub proof fn lemma_take_u64_canonical(b: Seq<u8>)
    ensures
        take_u64(b) is Some ==> b == u64_wire(got(take_u64(b))) + after(take_u64(b)),
{
    reveal(take_u64);
    lemma_auto_spec_u64_to_from_le_bytes();
    if take_u64(b) is Some {
        assert(spec_u64_to_le_bytes(spec_u64_from_le_bytes(b.take(8))) == b.take(8));
        assert(b =~= b.take(8) + b.skip(8));
    }
}

/// Only one byte sequence reads as a given text: what `take_text` accepts is
/// what `text_wire` writes.
pub proof fn lemma_take_text_canonical(b: Seq<u8>)
    ensures
        take_text(b) is Some ==> b == text_wire(got(take_text(b))) + after(take_text(b)),
{
    if take_text(b) is Some {
        lemma_take_text_canonical_when_read(b);
    }
}

proof fn lemma_take_text_canonical_when_read(b: Seq<u8>)
    requires
        take_text(b) is Some,
    ensures
        b == text_wire(got(take_text(b))) + after(take_text(b)),
{
    reveal(take_text);
    reveal(take_u32);
    lemma_auto_spec_u32_to_from_le_bytes();
    let (n, rest) = take_u32(b)->0;
    let body = rest.take(n as int);
    decode_utf8_encode_utf8(body);
    assert(b =~= b.take(4) + (body + rest.skip(n as int)));
    assert(spec_u32_to_le_bytes(spec_u32_from_le_bytes(b.take(4))) == b.take(4));
    assert(b =~= text_wire(decode_utf8(body)) + rest.skip(n as int));
}

/// Appends `x` in its wire form.
pub(crate) fn put_u8(out: &mut Vec<u8>, x: u8)
    ensures
        final(out)@ == old(out)@ + u8_wire(x),
{
    out.push(x);
    assert(out@ =~= old(out)@ + u8_wire(x));
}

/// Appends `x` in its wire form.
pub(crate) fn put_u32(out: &mut Vec<u8>, x: u32)
    ensures
        final(out)@ == old(out)@ + u32_wire(x),
{
    let mut bytes = u32_to_le_bytes(x);
    out.append(&mut bytes);
}

/// Appends `x` in its wire form.
pub(crate) fn put_u64(out: &mut Vec<u8>, x: u64)
    ensures
        final(out)@ == old(out)@ + u64_wire(x),
{
    let mut bytes = u64_to_le_bytes(x);
    out.append(&mut bytes);
}

/// The length of the UTF-8 form of `s`.
pub(crate) fn text_len(s: &str) -> (n: usize)
    ensures
        n == encode_utf8(s@).len(),
{
    s.as_bytes().len()
}

/// Appends `s` in its wire form.
pub(crate) fn put_text(out: &mut Vec<u8>, s: &str)
    requires
        encode_utf8(s@).len() <= u32::MAX,
    ensures
        final(out)@ == old(out)@ + text_wire(s@),
{
    let body = s.as_bytes();
    let n: usize = body.len();
    let mut prefix = u32_to_le_bytes(n as u32);
    out.append(&mut prefix);
    let mut i: usize = 0;
    while i < n
        invariant
            n == body@.len(),
            i <= n,
            out@ == old(out)@ + u32_wire(n as u32) + body@.take(i as int),
        decreases n - i,
    {
        out.push(body[i]);
        assert(body@.take(i + 1) =~= body@.take(i as int).push(body@[i as int]));
        assert(out@ =~= old(out)@ + u32_wire(n as u32) + body@.take(i + 1));
        i = i + 1;
    }
    assert(body@.take(n as int) =~= body@);
    assert(out@ =~= old(out)@ + text_wire(s@));
}

/// `std::str::from_utf8`: the text that `bytes` spell in UTF-8. The contract
/// claims that the call succeeds exactly on well-formed UTF-8, and that the
/// text it returns has `bytes` as its UTF-8 form.
#[verifier::external_body]
fn str_from_utf8<'a>(bytes: &'a [u8]) -> (out: Option<&'a str>)
    ensures
        match out {
            Some(s) => valid_utf8(bytes@) && encode_utf8(s@) == bytes@,
            None => !valid_utf8(bytes@),
        },
{
    std::str::from_utf8(bytes).ok()
}

/// Reads the byte at `pos`. Returns it with the position behind it.
pub(crate) fn read_u8(data: &[u8], pos: usize) -> (out: Option<(u8, usize)>)
    requires
        pos <= data@.len(),
    ensures
        match take_u8(data@.skip(pos as int)) {
            Some((x, rest)) => out matches Some((y, next)) && y == x && pos <= next
                <= data@.len() && data@.skip(next as int) == rest,
            None => out is None,
        },
{
    proof {
        reveal(take_u8);
    }
    if data.len() - pos < 1 {
        return None;
    }
    let x: u8 = data[pos];
    assert(data@.skip(pos as int).skip(1) =~= data@.skip(pos + 1));
    Some((x, pos + 1))
}

/// Reads the `u32` at `pos`. Returns it with the position behind it.
pub(crate) fn read_u32(data: &[u8], pos: usize) -> (out: Option<(u32, usize)>)
    requires
        pos <= data@.len(),
    ensures
        match take_u32(data@.skip(pos as int)) {
            Some((x, rest)) => out matches Some((y, next)) && y == x && pos <= next
                <= data@.len() && data@.skip(next as int) == rest,
            None => out is None,
        },
{
    proof {
        reveal(take_u32);
    }
    if data.len() - pos < 4 {
        return None;
    }
    let field = slice_subrange(data, pos, pos + 4);
    let x: u32 = u32_from_le_bytes(field);
    assert(data@.skip(pos as int).take(4) =~= field@);
    assert(data@.skip(pos as int).skip(4) =~= data@.skip(pos + 4));
    Some((x, pos + 4))
}

/// Reads the `u64` at `pos`. Returns it with the position behind it.
pub(crate) fn read_u64(data: &[u8], pos: usize) -> (out: Option<(u64, usize)>)
    requires
        pos <= data@.len(),
    ensures
        match take_u64(data@.skip(pos as int)) {
            Some((x, rest)) => out matches Some((y, next)) && y == x && pos <= next
                <= data@.len() && data@.skip(next as int) == rest,
            None => out is None,
        },
{
    proof {
        reveal(take_u64);
    }
    if data.len() - pos < 8 {
        return None;
    }
    let field = slice_subrange(data, pos, pos + 8);
    let x: u64 = u64_from_le_bytes(field);
    assert(data@.skip(pos as int).take(8) =~= field@);
    assert(data@.skip(pos as int).skip(8) =~= data@.skip(pos + 8));
    Some((x, pos + 8))
}

/// Reads the text at `pos`. Returns it with the position behind it.
pub(crate) fn read_text(data: &[u8], pos: usize) -> (out: Option<(String, usize)>)
    requires
        pos <= data@.len(),
    ensures
        match take_text(data@.skip(pos as int)) {
            Some((s, rest)) => out matches Some((t, next)) && t@ == s && pos <= next
                <= data@.len() && data@.skip(next as int) == rest,
            None => out is None,
        },
{
    proof {
        reveal(take_text);
    }
    let (n, at) = match read_u32(data, pos) {
        Some(found) => found,
        None => {
            return None;
        },
    };
    let len: usize = n as usize;
    if data.len() - at < len {
        return None;
    }
    let body = slice_subrange(data, at, at + len);
    assert(data@.skip(at as int).take(n as int) =~= body@);
    assert(data@.skip(at as int).skip(n as int) =~= data@.skip(at + len));
    match str_from_utf8(body) {
        Some(s) => {
            proof {
                encode_utf8_decode_utf8(s@);
            }
            Some((String::from_str(s), at + len))
        },
        None => None,
    }
}

} // verus!
