//! A positioned reader of little-endian values over a byte slice.

use crate::error::TexError;
use vstd::prelude::*;
use vstd::slice::{slice_subrange, slice_to_vec};
use vstd::utf8::{
    decode_utf8, decode_utf8_encode_utf8, encode_utf8, encode_utf8_decode_utf8,
    encode_utf8_valid_utf8, is_ascii_chars, is_ascii_chars_encode_utf8, valid_utf8,
};

verus! {

/// Whether the `n` bytes starting at `pos` all lie inside `bytes`.
pub open spec fn in_bounds(bytes: Seq<u8>, pos: int, n: int) -> bool {
    0 <= pos && 0 <= n && pos + n <= bytes.len()
}

/// The unsigned 32-bit value of four bytes, least significant first.
pub open spec fn le_u32(b0: u8, b1: u8, b2: u8, b3: u8) -> u32 {
    (b0 as int + b1 as int * 0x100 + b2 as int * 0x1_0000 + b3 as int * 0x100_0000) as u32
}

/// The unsigned 16-bit value of two bytes, least significant first.
pub open spec fn le_u16(b0: u8, b1: u8) -> u16 {
    (b0 as int + b1 as int * 0x100) as u16
}

/// The signed value with the same 32 bits as `u`.
pub open spec fn signed(u: u32) -> i32 {
    if u < 0x8000_0000 {
        u as i32
    } else {
        (u - 0x1_0000_0000) as i32
    }
}

/// The little-endian `u32` stored at `pos`.
pub open spec fn u32_at(bytes: Seq<u8>, pos: int) -> u32 {
    le_u32(bytes[pos], bytes[pos + 1], bytes[pos + 2], bytes[pos + 3])
}

/// Reading one byte at `pos`: the outcome and the position afterwards.
pub open spec fn spec_read_u8(bytes: Seq<u8>, pos: int) -> (Result<u8, TexError>, int) {
    if in_bounds(bytes, pos, 1) {
        (Ok(bytes[pos]), pos + 1)
    } else {
        (Err(TexError::TruncatedStream), pos)
    }
}

/// Reading a little-endian `u16` at `pos`.
pub open spec fn spec_read_u16(bytes: Seq<u8>, pos: int) -> (Result<u16, TexError>, int) {
    if in_bounds(bytes, pos, 2) {
        (Ok(le_u16(bytes[pos], bytes[pos + 1])), pos + 2)
    } else {
        (Err(TexError::TruncatedStream), pos)
    }
}

/// Reading a little-endian `u32` at `pos`.
pub open spec fn spec_read_u32(bytes: Seq<u8>, pos: int) -> (Result<u32, TexError>, int) {
    if in_bounds(bytes, pos, 4) {
        (Ok(u32_at(bytes, pos)), pos + 4)
    } else {
        (Err(TexError::TruncatedStream), pos)
    }
}

/// Reading a little-endian `i32` at `pos`.
pub open spec fn spec_read_i32(bytes: Seq<u8>, pos: int) -> (Result<i32, TexError>, int) {
    if in_bounds(bytes, pos, 4) {
        (Ok(signed(u32_at(bytes, pos))), pos + 4)
    } else {
        (Err(TexError::TruncatedStream), pos)
    }
}

/// Reading `n` raw bytes at `pos`.
pub open spec fn spec_read_bytes(bytes: Seq<u8>, pos: int, n: int) -> (
    Result<Seq<u8>, TexError>,
    int,
) {
    if in_bounds(bytes, pos, n) {
        (Ok(bytes.subrange(pos, pos + n)), pos + n)
    } else {
        (Err(TexError::TruncatedStream), pos)
    }
}

/// Reading length-prefixed bytes at `pos`: a little-endian `u32` count, and
/// that many raw bytes. Where the count can be read and the bytes cannot,
/// the position stays after the count.
pub open spec fn spec_read_length_prefixed_bytes(bytes: Seq<u8>, pos: int) -> (
    Result<Seq<u8>, TexError>,
    int,
) {
    if in_bounds(bytes, pos, 4) {
        spec_read_bytes(bytes, pos + 4, u32_at(bytes, pos) as int)
    } else {
        (Err(TexError::TruncatedStream), pos)
    }
}

/// Reading a text field of exactly `n` bytes at `pos`. The bytes are consumed
/// even when they turn out not to be UTF-8.
pub open spec fn spec_read_n_string(bytes: Seq<u8>, pos: int, n: int) -> (
    Result<Seq<char>, TexError>,
    int,
) {
    if !in_bounds(bytes, pos, n) {
        (Err(TexError::TruncatedStream), pos)
    } else if !valid_utf8(bytes.subrange(pos, pos + n)) {
        (Err(TexError::EncodingFailure), pos + n)
    } else {
        (Ok(decode_utf8(bytes.subrange(pos, pos + n))), pos + n)
    }
}

/// `String::from_utf8` of std: the text that `bytes` encode, or `None` where
/// they are not valid UTF-8.
#[verifier::external_body]
fn text_from_utf8(bytes: Vec<u8>) -> (text: Option<String>)
    ensures
        text.is_some() == valid_utf8(bytes@),
        text matches Some(s) ==> s@ == decode_utf8(bytes@),
{
    String::from_utf8(bytes).ok()
}

/// A read position over borrowed bytes. A read that succeeds moves past what
/// it read; one that runs out of bytes leaves the position where it was.
pub struct ByteCursor<'a> {
    data: &'a [u8],
    pos: usize,
}

impl<'a> ByteCursor<'a> {
    /// The bytes under the cursor, all of them.
    pub closed spec fn bytes(&self) -> Seq<u8> {
        self.data@
    }

    /// The offset of the next byte to be read.
    pub closed spec fn position(&self) -> int {
        self.pos as int
    }

    /// A cursor at the start of `data`.
    pub fn new(data: &'a [u8]) -> (cursor: Self)
        ensures
            cursor.bytes() == data@,
            cursor.position() == 0,
    {
        ByteCursor { data, pos: 0 }
    }

    /// Moves to the absolute offset `to`, which may lie past the end: reads
    /// from there fail.
    pub fn seek(&mut self, to: usize)
        ensures
            final(self).bytes() == old(self).bytes(),
            final(self).position() == to,
    {
        self.pos = to;
    }

    /// The current offset.
    pub fn tell(&self) -> (pos: usize)
        ensures
            pos == self.position(),
    {
        self.pos
    }

    /// The number of bytes under the cursor.
    pub fn len(&self) -> (n: usize)
        ensures
            n == self.bytes().len(),
    {
        self.data.len()
    }

    /// Whether `n` more bytes can be read.
    fn has(&self, n: usize) -> (ok: bool)
        ensures
            ok == in_bounds(self.bytes(), self.position(), n as int),
            ok ==> self.position() + n <= usize::MAX,
    {
        self.pos <= self.data.len() && n <= self.data.len() - self.pos
    }

    /// Reads one byte.
    pub fn read_u8(&mut self) -> (r: Result<u8, TexError>)
        ensures
            final(self).bytes() == old(self).bytes(),
            (r, final(self).position()) == spec_read_u8(old(self).bytes(), old(self).position()),
    {
        if !self.has(1) {
            return Err(TexError::TruncatedStream);
        }
        let b = self.data[self.pos];
        self.pos = self.pos + 1;
        Ok(b)
    }

    /// Reads a little-endian `u16`.
    pub fn read_u16(&mut self) -> (r: Result<u16, TexError>)
        ensures
            final(self).bytes() == old(self).bytes(),
            (r, final(self).position()) == spec_read_u16(old(self).bytes(), old(self).position()),
    {
        if !self.has(2) {
            return Err(TexError::TruncatedStream);
        }
        let b0 = self.data[self.pos] as u16;
        let b1 = self.data[self.pos + 1] as u16;
        self.pos = self.pos + 2;
        Ok(b0 + b1 * 0x100)
    }

    /// Reads a little-endian `u32`.
    pub fn read_u32(&mut self) -> (r: Result<u32, TexError>)
        ensures
            final(self).bytes() == old(self).bytes(),
            (r, final(self).position()) == spec_read_u32(old(self).bytes(), old(self).position()),
    {
        if !self.has(4) {
            return Err(TexError::TruncatedStream);
        }
        let b0 = self.data[self.pos] as u32;
        let b1 = self.data[self.pos + 1] as u32;
        let b2 = self.data[self.pos + 2] as u32;
        let b3 = self.data[self.pos + 3] as u32;
        self.pos = self.pos + 4;
        Ok(b0 + b1 * 0x100 + b2 * 0x1_0000 + b3 * 0x100_0000)
    }

    /// Reads a little-endian `i32`.
    pub fn read_i32(&mut self) -> (r: Result<i32, TexError>)
        ensures
            final(self).bytes() == old(self).bytes(),
            (r, final(self).position()) == spec_read_i32(old(self).bytes(), old(self).position()),
    {
        match self.read_u32() {
            Ok(u) => {
                if u < 0x8000_0000 {
                    Ok(u as i32)
                } else {
                    Ok((u - 0x8000_0000) as i32 - 0x7fff_ffff - 1)
                }
            },
            Err(e) => Err(e),
        }
    }

    /// Reads `n` raw bytes.
    pub fn read_bytes(&mut self, n: usize) -> (r: Result<Vec<u8>, TexError>)
        ensures
            final(self).bytes() == old(self).bytes(),
            match spec_read_bytes(old(self).bytes(), old(self).position(), n as int) {
                (Ok(s), p) => r matches Ok(v) && v@ == s && final(self).position() == p,
                (Err(e), p) => r == Err::<Vec<u8>, TexError>(e) && final(self).position() == p,
            },
    {
        if !self.has(n) {
            return Err(TexError::TruncatedStream);
        }
        let start = self.pos;
        let end = start + n;
        self.pos = end;
        Ok(slice_to_vec(slice_subrange(self.data, start, end)))
    }

    /// Reads a little-endian `u32` count and that many raw bytes.
    pub fn read_length_prefixed_bytes(&mut self) -> (r: Result<Vec<u8>, TexError>)
        ensures
            final(self).bytes() == old(self).bytes(),
            match spec_read_length_prefixed_bytes(old(self).bytes(), old(self).position()) {
                (Ok(s), p) => r matches Ok(v) && v@ == s && final(self).position() == p,
                (Err(e), p) => r == Err::<Vec<u8>, TexError>(e) && final(self).position() == p,
            },
    {
        let count = self.read_u32()?;
        self.read_bytes(count as usize)
    }

    /// Reads a text field of exactly `n` bytes.
    pub fn read_n_string(&mut self, n: usize) -> (r: Result<String, TexError>)
        ensures
            final(self).bytes() == old(self).bytes(),
            match spec_read_n_string(old(self).bytes(), old(self).position(), n as int) {
                (Ok(s), p) => r matches Ok(v) && v@ == s && final(self).position() == p,
                (Err(e), p) => r == Err::<String, TexError>(e) && final(self).position() == p,
            },
    {
        match self.read_bytes(n) {
            Ok(raw) => match text_from_utf8(raw) {
                Some(text) => Ok(text),
                None => Err(TexError::EncodingFailure),
            },
            Err(e) => Err(e),
        }
    }
}

/// The bytes of a text of ASCII characters: one byte for each character.
pub open spec fn ascii_bytes(text: Seq<char>) -> Seq<u8> {
    Seq::new(text.len(), |i: int| text[i] as u8)
}

/// A field that holds the bytes of an ASCII text reads as that text, and a
/// field of valid UTF-8 that holds other bytes reads as another text.
pub proof fn lemma_read_ascii_text(bytes: Seq<u8>, pos: int, text: Seq<char>)
    requires
        is_ascii_chars(text),
        in_bounds(bytes, pos, text.len() as int),
    ensures
        bytes.subrange(pos, pos + text.len()) == ascii_bytes(text) ==> spec_read_n_string(
            bytes,
            pos,
            text.len() as int,
        ) == (Ok::<Seq<char>, TexError>(text), pos + text.len()),
        bytes.subrange(pos, pos + text.len()) != ascii_bytes(text) ==> spec_read_n_string(
            bytes,
            pos,
            text.len() as int,
        ).0 != Ok::<Seq<char>, TexError>(text),
{
    let field = bytes.subrange(pos, pos + text.len());
    is_ascii_chars_encode_utf8(text);
    assert(encode_utf8(text) =~= ascii_bytes(text));
    encode_utf8_valid_utf8(text);
    encode_utf8_decode_utf8(text);
    if valid_utf8(field) {
        decode_utf8_encode_utf8(field);
    }
}

} // verus!
