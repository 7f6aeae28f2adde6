//! Primitive cursor operations over an immutable byte buffer: single
//! bytes, 7-bit tag values, endian-selectable 32-bit words, and
//! NUL-terminated strings and index lists.
//!
//! Every operation is a pure function of the buffer and the cursor
//! position: it returns the value read together with the position just
//! past it, or fails with an end-of-data error on a short read. None
//! of them ever panics or reads out of bounds.

use vstd::prelude::*;
use vstd::slice::slice_to_vec;
use vstd::utf8::{decode_utf8, valid_utf8};

verus! {

/// Byte order of the 32-bit length and size fields, as declared by the
/// object file that carried the attributes section.
#[derive(Clone, Copy, PartialEq, Eq, Debug, Hash, Structural)]
pub enum Endian {
    Little,
    Big,
}

/// Failure of a primitive read: the buffer ended too early, the bytes
/// of a string were not valid UTF-8, or a subsection length pointed
/// outside the buffer.
#[derive(Clone, Copy, PartialEq, Eq, Debug, Structural)]
pub enum ReadError {
    Eof,
    Utf8,
    OutOfBounds,
}

/// One byte at `pos`, or end-of-data.
pub open spec fn spec_read_u8(data: Seq<u8>, pos: int) -> Option<(u8, int)> {
    if 0 <= pos < data.len() {
        Some((data[pos], pos + 1))
    } else {
        None
    }
}

/// One single-byte value with the top bit masked off. The format's
/// variable-length fields are always exactly one byte, so only the low
/// seven bits carry information.
pub open spec fn spec_read_uleb128(data: Seq<u8>, pos: int) -> Option<(u8, int)> {
    match spec_read_u8(data, pos) {
        Some((b, p)) => Some(((b & 0x7f) as u8, p)),
        None => None,
    }
}

/// The 32-bit value encoded by four bytes in the given byte order.
pub open spec fn spec_u32_of(e: Endian, b0: u8, b1: u8, b2: u8, b3: u8) -> u32 {
    match e {
        Endian::Little => (b0 + b1 * 0x100 + b2 * 0x1_0000 + b3 * 0x100_0000) as u32,
        Endian::Big => (b3 + b2 * 0x100 + b1 * 0x1_0000 + b0 * 0x100_0000) as u32,
    }
}

/// One fixed-width 32-bit field, or end-of-data.
pub open spec fn spec_read_u32(data: Seq<u8>, pos: int, e: Endian) -> Option<(u32, int)> {
    if 0 <= pos && pos + 4 <= data.len() {
        Some((spec_u32_of(e, data[pos], data[pos + 1], data[pos + 2], data[pos + 3]), pos + 4))
    } else {
        None
    }
}

/// Position of the first NUL byte at or after `pos`, if any.
pub open spec fn spec_find_nul(data: Seq<u8>, pos: int) -> Option<int>
    decreases data.len() - pos,
{
    if pos < 0 || pos >= data.len() {
        None
    } else if data[pos] == 0 {
        Some(pos)
    } else {
        spec_find_nul(data, pos + 1)
    }
}

/// The raw bytes between `pos` and the next NUL terminator, which is
/// consumed; end-of-data if no terminator exists.
pub open spec fn spec_read_uleb128_list(data: Seq<u8>, pos: int) -> Result<(Seq<u8>, int), ReadError> {
    match spec_find_nul(data, pos) {
        Some(i) => Ok((data.subrange(pos, i), i + 1)),
        None => Err(ReadError::Eof),
    }
}

/// The UTF-8 string between `pos` and the next NUL terminator, which is
/// consumed; end-of-data if no terminator exists, an encoding error if
/// the bytes are not valid UTF-8.
pub open spec fn spec_read_string(data: Seq<u8>, pos: int) -> Result<(Seq<char>, int), ReadError> {
    match spec_find_nul(data, pos) {
        Some(i) => {
            let bytes = data.subrange(pos, i);
            if valid_utf8(bytes) {
                Ok((decode_utf8(bytes), i + 1))
            } else {
                Err(ReadError::Utf8)
            }
        },
        None => Err(ReadError::Eof),
    }
}

pub(crate) fn read_u8(data: &[u8], pos: usize) -> (r: Result<(u8, usize), ReadError>)
    ensures
        match r {
            Ok((v, p2)) => spec_read_u8(data@, pos as int) == Some((v, p2 as int)) && pos < p2
                <= data@.len(),
            Err(e) => spec_read_u8(data@, pos as int) is None && e == ReadError::Eof,
        },
{
    if pos < data.len() {
        Ok((data[pos], pos + 1))
    } else {
        Err(ReadError::Eof)
    }
}

pub(crate) fn read_uleb128(data: &[u8], pos: usize) -> (r: Result<(u8, usize), ReadError>)
    ensures
        match r {
            Ok((v, p2)) => spec_read_uleb128(data@, pos as int) == Some((v, p2 as int)) && pos < p2
                <= data@.len(),
            Err(e) => spec_read_uleb128(data@, pos as int) is None && e == ReadError::Eof,
        },
{
    match read_u8(data, pos) {
        Ok((b, p2)) => Ok((b & 0x7f, p2)),
        Err(e) => Err(e),
    }
}

pub(crate) fn read_u32(data: &[u8], pos: usize, e: Endian) -> (r: Result<
    (u32, usize),
    ReadError,
>)
    requires
        pos <= data@.len(),
    ensures
        match r {
            Ok((v, p2)) => spec_read_u32(data@, pos as int, e) == Some((v, p2 as int)) && pos < p2
                <= data@.len(),
            Err(err) => spec_read_u32(data@, pos as int, e) is None && err == ReadError::Eof,
        },
{
    if data.len() - pos >= 4 {
        let b0 = data[pos];
        let b1 = data[pos + 1];
        let b2 = data[pos + 2];
        let b3 = data[pos + 3];
        let v: u32 = match e {
            Endian::Little => b0 as u32 + b1 as u32 * 0x100 + b2 as u32 * 0x1_0000 + b3 as u32
                * 0x100_0000,
            Endian::Big => b3 as u32 + b2 as u32 * 0x100 + b1 as u32 * 0x1_0000 + b0 as u32
                * 0x100_0000,
        };
        Ok((v, pos + 4))
    } else {
        Err(ReadError::Eof)
    }
}

/// Scan for the first NUL byte at or after `pos`.
fn find_nul(data: &[u8], pos: usize) -> (r: Option<usize>)
    requires
        pos <= data@.len(),
    ensures
        match r {
            Some(i) => spec_find_nul(data@, pos as int) == Some(i as int) && pos <= i
                < data@.len(),
            None => spec_find_nul(data@, pos as int) is None,
        },
{
    let mut i = pos;
    while i < data.len()
        invariant
            pos <= i <= data@.len(),
            spec_find_nul(data@, pos as int) == spec_find_nul(data@, i as int),
        decreases data@.len() - i,
    {
        if data[i] == 0 {
            return Some(i);
        }
        i = i + 1;
    }
    None
}

/// Turns decoded bytes into a `String`.
///
/// Relies on `String::from_utf8`: it returns `Ok` exactly when the
/// bytes are valid UTF-8, and the string's characters are then their
/// decoding, as `vstd::utf8` defines it.
#[verifier::external_body]
fn utf8_to_string(bytes: Vec<u8>) -> (r: Option<String>)
    ensures
        r is Some <==> valid_utf8(bytes@),
        r matches Some(s) ==> s@ == decode_utf8(bytes@),
{
    match String::from_utf8(bytes) {
        Ok(s) => Some(s),
        Err(_) => None,
    }
}

pub(crate) fn read_uleb128_list(data: &[u8], pos: usize) -> (r: Result<(Vec<u8>, usize), ReadError>)
    requires
        pos <= data@.len(),
    ensures
        match r {
            Ok((v, p2)) => spec_read_uleb128_list(data@, pos as int) == Ok::<_, ReadError>(
                (v@, p2 as int),
            ) && pos < p2 <= data@.len(),
            Err(e) => spec_read_uleb128_list(data@, pos as int) == Err::<(Seq<u8>, int), _>(e),
        },
{
    let n = data.len();
    match find_nul(data, pos) {
        Some(i) => {
            let bytes = slice_to_vec(&data[pos..i]);
            proof {
                assert(i < n);
            }
            Ok((bytes, i + 1))
        },
        None => Err(ReadError::Eof),
    }
}

pub(crate) fn read_string(data: &[u8], pos: usize) -> (r: Result<(String, usize), ReadError>)
    requires
        pos <= data@.len(),
    ensures
        match r {
            Ok((s, p2)) => spec_read_string(data@, pos as int) matches Ok((sm, pm)) && s@ == sm
                && p2 == pm && pos < p2 <= data@.len(),
            Err(e) => spec_read_string(data@, pos as int) == Err::<(Seq<char>, int), _>(e),
        },
{
    let n = data.len();
    match find_nul(data, pos) {
        Some(i) => {
            let bytes = slice_to_vec(&data[pos..i]);
            proof {
                assert(i < n);
            }
            match utf8_to_string(bytes) {
                Some(s) => Ok((s, i + 1)),
                None => Err(ReadError::Utf8),
            }
        },
        None => Err(ReadError::Eof),
    }
}

/// A copy of a byte vector with the same view.
pub(crate) fn clone_bytes(v: &Vec<u8>) -> (r: Vec<u8>)
    ensures
        r@ == v@,
{
    slice_to_vec(v.as_slice())
}

/// Element-wise equality of two byte slices, as equality of their views.
pub(crate) fn bytes_eq(a: &[u8], b: &[u8]) -> (r: bool)
    ensures
        r == (a@ == b@),
{
    if a.len() != b.len() {
        return false;
    }
    let mut i: usize = 0;
    while i < a.len()
        invariant
            a@.len() == b@.len(),
            i <= a@.len(),
            forall|j: int| 0 <= j < i ==> a@[j] == b@[j],
        decreases a@.len() - i,
    {
        if a[i] != b[i] {
            return false;
        }
        i = i + 1;
    }
    proof {
        assert(a@ =~= b@);
    }
    true
}

/// Equality of two strings, as equality of their character views,
/// decided by comparing their UTF-8 bytes.
pub(crate) fn str_eq(a: &str, b: &str) -> (r: bool)
    ensures
        r == (a@ == b@),
{
    let r = bytes_eq(a.as_bytes(), b.as_bytes());
    proof {
        if r {
            vstd::utf8::encode_utf8_decode_utf8(a@);
            vstd::utf8::encode_utf8_decode_utf8(b@);
        }
    }
    r
}

} // verus!
