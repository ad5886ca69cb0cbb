//! Fixed-width big-endian readers and the fixed-length text reader.
//!
//! Each reader takes the remaining input and returns the input that follows
//! the field together with the decoded value, or fails when too few bytes
//! remain.
//!
//! The integers are read by `nom` and text is validated by the standard
//! library. The contracts of the four `nom_*` functions and of
//! `std::str::from_utf8` below are assumed, not proved; everything else in
//! this crate is proved from them.

use vstd::prelude::*;
use vstd::slice::slice_subrange;
use vstd::string::StringSliceAdditionalSpecFns;
use vstd::utf8::{decode_utf8, encode_utf8_decode_utf8, valid_utf8};
use crate::error::DecodeError;
use crate::model::refines;

verus! {

/// The unsigned 16-bit value held by the two bytes of `s` from `i` on, big end first.
pub open spec fn be_u16_at(s: Seq<u8>, i: int) -> u16
    recommends
        0 <= i,
        i + 2 <= s.len(),
{
    (s[i] as int * 0x100 + s[i + 1] as int) as u16
}

/// The unsigned 32-bit value held by the four bytes of `s` from `i` on, big end first.
pub open spec fn be_u32_at(s: Seq<u8>, i: int) -> u32
    recommends
        0 <= i,
        i + 4 <= s.len(),
{
    (s[i] as int * 0x100_0000 + s[i + 1] as int * 0x1_0000 + s[i + 2] as int * 0x100 + s[i
        + 3] as int) as u32
}

/// The signed 32-bit value held by the four bytes of `s` from `i` on: the
/// unsigned value read as two's complement.
pub open spec fn be_i32_at(s: Seq<u8>, i: int) -> i32
    recommends
        0 <= i,
        i + 4 <= s.len(),
{
    let u = be_u32_at(s, i) as int;
    if u < 0x8000_0000 {
        u as i32
    } else {
        (u - 0x1_0000_0000) as i32
    }
}

/// Model of [`read_u8`].
pub open spec fn spec_read_u8(s: Seq<u8>) -> Result<(int, u8), DecodeError> {
    if s.len() < 1 {
        Err(DecodeError::Truncated)
    } else {
        Ok((1, s[0]))
    }
}

/// Model of [`read_u16`].
pub open spec fn spec_read_u16(s: Seq<u8>) -> Result<(int, u16), DecodeError> {
    if s.len() < 2 {
        Err(DecodeError::Truncated)
    } else {
        Ok((2, be_u16_at(s, 0)))
    }
}

/// Model of [`read_u32`].
pub open spec fn spec_read_u32(s: Seq<u8>) -> Result<(int, u32), DecodeError> {
    if s.len() < 4 {
        Err(DecodeError::Truncated)
    } else {
        Ok((4, be_u32_at(s, 0)))
    }
}

/// Model of [`read_i32`].
pub open spec fn spec_read_i32(s: Seq<u8>) -> Result<(int, i32), DecodeError> {
    if s.len() < 4 {
        Err(DecodeError::Truncated)
    } else {
        Ok((4, be_i32_at(s, 0)))
    }
}

/// Model of [`read_text`]: the first `len` bytes of `s`, decoded as UTF-8.
/// Too few bytes is reported before ill-formed text.
pub open spec fn spec_read_text(s: Seq<u8>, len: int) -> Result<(int, Seq<char>), DecodeError>
    recommends
        0 <= len,
{
    if s.len() < len {
        Err(DecodeError::Truncated)
    } else if !valid_utf8(s.take(len)) {
        Err(DecodeError::InvalidText)
    } else {
        Ok((len, decode_utf8(s.take(len))))
    }
}

/// Calls `nom::be_u8`, which reads one byte. Its source returns `Incomplete`
/// on empty input, and otherwise `Done` with the first byte and the input
/// past it; it never returns `Error`.
#[verifier::external_body]
fn nom_be_u8<'a>(input: &'a [u8]) -> (r: Option<(&'a [u8], u8)>)
    ensures
        r is None <==> input@.len() < 1,
        r matches Some((rest, v)) ==> rest@ == input@.skip(1) && v == input@[0],
{
    match nom::be_u8(input) {
        nom::IResult::Done(rest, v) => Some((rest, v)),
        nom::IResult::Error(_) => None,
        nom::IResult::Incomplete(_) => None,
    }
}

/// Calls `nom::be_u16`, which reads two bytes as a big-endian unsigned
/// integer. Its source returns `Incomplete` when fewer than two bytes are
/// given, and otherwise `Done` with the value and the input past the two
/// bytes; it never returns `Error`.
#[verifier::external_body]
fn nom_be_u16<'a>(input: &'a [u8]) -> (r: Option<(&'a [u8], u16)>)
    ensures
        r is None <==> input@.len() < 2,
        r matches Some((rest, v)) ==> rest@ == input@.skip(2) && v == be_u16_at(input@, 0),
{
    match nom::be_u16(input) {
        nom::IResult::Done(rest, v) => Some((rest, v)),
        nom::IResult::Error(_) => None,
        nom::IResult::Incomplete(_) => None,
    }
}

/// Calls `nom::be_u32`, which reads four bytes as a big-endian unsigned
/// integer. Its source returns `Incomplete` when fewer than four bytes are
/// given, and otherwise `Done` with the value and the input past the four
/// bytes; it never returns `Error`.
#[verifier::external_body]
fn nom_be_u32<'a>(input: &'a [u8]) -> (r: Option<(&'a [u8], u32)>)
    ensures
        r is None <==> input@.len() < 4,
        r matches Some((rest, v)) ==> rest@ == input@.skip(4) && v == be_u32_at(input@, 0),
{
    match nom::be_u32(input) {
        nom::IResult::Done(rest, v) => Some((rest, v)),
        nom::IResult::Error(_) => None,
        nom::IResult::Incomplete(_) => None,
    }
}

/// Calls `nom::be_i32`, which reads four bytes as `nom::be_u32` does and
/// casts the value to `i32`, so the bytes are read as two's complement. Like
/// `nom::be_u32` it returns `Incomplete` when fewer than four bytes are given,
/// and never `Error`.
#[verifier::external_body]
fn nom_be_i32<'a>(input: &'a [u8]) -> (r: Option<(&'a [u8], i32)>)
    ensures
        r is None <==> input@.len() < 4,
        r matches Some((rest, v)) ==> rest@ == input@.skip(4) && v == be_i32_at(input@, 0),
{
    match nom::be_i32(input) {
        nom::IResult::Done(rest, v) => Some((rest, v)),
        nom::IResult::Error(_) => None,
        nom::IResult::Incomplete(_) => None,
    }
}

/// `std::str::Utf8Error`, carried through and never looked into.
#[verifier::external_type_specification]
#[verifier::external_body]
pub struct ExUtf8Error(std::str::Utf8Error);

/// `std::str::from_utf8` accepts exactly the well-formed UTF-8 byte sequences,
/// and returns a string slice over the very bytes it was given: encoding the
/// characters of the slice gives those bytes back.
pub assume_specification<'a>[ std::str::from_utf8 ](v: &'a [u8]) -> (r: Result<
    &'a str,
    std::str::Utf8Error,
>)
    ensures
        r is Ok <==> valid_utf8(v@),
        r matches Ok(text) ==> text.spec_bytes() == v@,
;

/// Reads one byte from the front of `input`.
pub fn read_u8<'a>(input: &'a [u8]) -> (r: Result<(&'a [u8], u8), DecodeError>)
    ensures
        refines(r, input@, spec_read_u8(input@)),
{
    match nom_be_u8(input) {
        Some((rest, v)) => Ok((rest, v)),
        None => Err(DecodeError::Truncated),
    }
}

/// Reads a big-endian `u16` from the front of `input`.
pub fn read_u16<'a>(input: &'a [u8]) -> (r: Result<(&'a [u8], u16), DecodeError>)
    ensures
        refines(r, input@, spec_read_u16(input@)),
{
    match nom_be_u16(input) {
        Some((rest, v)) => Ok((rest, v)),
        None => Err(DecodeError::Truncated),
    }
}

/// Reads a big-endian `u32` from the front of `input`.
pub fn read_u32<'a>(input: &'a [u8]) -> (r: Result<(&'a [u8], u32), DecodeError>)
    ensures
        refines(r, input@, spec_read_u32(input@)),
{
    match nom_be_u32(input) {
        Some((rest, v)) => Ok((rest, v)),
        None => Err(DecodeError::Truncated),
    }
}

/// Reads a big-endian two's-complement `i32` from the front of `input`.
pub fn read_i32<'a>(input: &'a [u8]) -> (r: Result<(&'a [u8], i32), DecodeError>)
    ensures
        refines(r, input@, spec_read_i32(input@)),
{
    match nom_be_i32(input) {
        Some((rest, v)) => Ok((rest, v)),
        None => Err(DecodeError::Truncated),
    }
}

/// Reads exactly `len` bytes from the front of `input` as UTF-8 text.
pub fn read_text<'a>(input: &'a [u8], len: usize) -> (r: Result<(&'a [u8], String), DecodeError>)
    ensures
        refines(r, input@, spec_read_text(input@, len as int)),
{
    if input.len() < len {
        return Err(DecodeError::Truncated);
    }
    let head = slice_subrange(input, 0, len);
    let rest = slice_subrange(input, len, input.len());
    match std::str::from_utf8(head) {
        Ok(text) => {
            proof {
                encode_utf8_decode_utf8(text@);
            }
            Ok((rest, text.to_owned()))
        },
        Err(_) => Err(DecodeError::InvalidText),
    }
}

} // verus!
