//! Decoders for the records of the constant pool.
//!
//! A record is a tag byte followed by a layout that the tag selects. There is
//! one decoder per kind, which takes the input just after the tag byte;
//! [`const_block`] chooses among them, and [`parse_const`] reads the tag first.

use vstd::prelude::*;
use vstd::utf8::{decode_utf8, valid_utf8};
use crate::constant::{
    ClassConstant, ConstEntry, ConstEntryView, FieldRefConstant, FloatConstant, IntegerConstant,
    InterfaceMethodRefConstant, MethodRefConstant, NameAndTypeConstant, StringConstant,
    Utf8Constant, spec_supported_tag,
};
use crate::error::DecodeError;
use crate::model::{agree_on_prefix, refines};
use crate::scalar::{
    be_i32_at, be_u16_at, be_u32_at, read_i32, read_text, read_u16, read_u32, read_u8,
};

verus! {

/// Model of [`const_utf8`]: a 16-bit length, then that many bytes of UTF-8.
pub open spec fn spec_const_utf8(s: Seq<u8>) -> Result<(int, ConstEntryView), DecodeError> {
    if s.len() < 2 {
        Err(DecodeError::Truncated)
    } else {
        let end = 2 + be_u16_at(s, 0) as int;
        if s.len() < end {
            Err(DecodeError::Truncated)
        } else if !valid_utf8(s.subrange(2, end)) {
            Err(DecodeError::InvalidText)
        } else {
            Ok((end, ConstEntryView::Utf8(decode_utf8(s.subrange(2, end)))))
        }
    }
}

/// Model of [`const_integer`]: four bytes, a signed value.
pub open spec fn spec_const_integer(s: Seq<u8>) -> Result<(int, ConstEntryView), DecodeError> {
    if s.len() < 4 {
        Err(DecodeError::Truncated)
    } else {
        Ok((4, ConstEntryView::Integer(IntegerConstant { value: be_i32_at(s, 0) })))
    }
}

/// Model of [`const_float`]: the four bytes of an IEEE 754 single.
pub open spec fn spec_const_float(s: Seq<u8>) -> Result<(int, ConstEntryView), DecodeError> {
    if s.len() < 4 {
        Err(DecodeError::Truncated)
    } else {
        Ok((4, ConstEntryView::Float(FloatConstant { bits: be_u32_at(s, 0) })))
    }
}

/// Model of [`const_class`]: one 16-bit index.
pub open spec fn spec_const_class(s: Seq<u8>) -> Result<(int, ConstEntryView), DecodeError> {
    if s.len() < 2 {
        Err(DecodeError::Truncated)
    } else {
        Ok((2, ConstEntryView::Class(ClassConstant { name_index: be_u16_at(s, 0) })))
    }
}

/// Model of [`const_string`]: one 16-bit index.
pub open spec fn spec_const_string(s: Seq<u8>) -> Result<(int, ConstEntryView), DecodeError> {
    if s.len() < 2 {
        Err(DecodeError::Truncated)
    } else {
        Ok((2, ConstEntryView::String(StringConstant { string_index: be_u16_at(s, 0) })))
    }
}

/// Model of [`const_field_ref`]: two 16-bit indices.
pub open spec fn spec_const_field_ref(s: Seq<u8>) -> Result<(int, ConstEntryView), DecodeError> {
    if s.len() < 4 {
        Err(DecodeError::Truncated)
    } else {
        Ok(
            (
                4,
                ConstEntryView::FieldRef(
                    FieldRefConstant {
                        class_index: be_u16_at(s, 0),
                        name_and_type_index: be_u16_at(s, 2),
                    },
                ),
            ),
        )
    }
}

/// Model of [`const_method_ref`]: two 16-bit indices.
pub open spec fn spec_const_method_ref(s: Seq<u8>) -> Result<(int, ConstEntryView), DecodeError> {
    if s.len() < 4 {
        Err(DecodeError::Truncated)
    } else {
        Ok(
            (
                4,
                ConstEntryView::MethodRef(
                    MethodRefConstant {
                        class_index: be_u16_at(s, 0),
                        name_and_type_index: be_u16_at(s, 2),
                    },
                ),
            ),
        )
    }
}

/// Model of [`const_interface_method_ref`]: two 16-bit indices.
pub open spec fn spec_const_interface_method_ref(s: Seq<u8>) -> Result<
    (int, ConstEntryView),
    DecodeError,
> {
    if s.len() < 4 {
        Err(DecodeError::Truncated)
    } else {
        Ok(
            (
                4,
                ConstEntryView::InterfaceMethodRef(
                    InterfaceMethodRefConstant {
                        class_index: be_u16_at(s, 0),
                        name_and_type_index: be_u16_at(s, 2),
                    },
                ),
            ),
        )
    }
}

/// Model of [`const_name_and_type`]: two 16-bit indices.
pub open spec fn spec_const_name_and_type(s: Seq<u8>) -> Result<
    (int, ConstEntryView),
    DecodeError,
> {
    if s.len() < 4 {
        Err(DecodeError::Truncated)
    } else {
        Ok(
            (
                4,
                ConstEntryView::NameAndType(
                    NameAndTypeConstant {
                        name_index: be_u16_at(s, 0),
                        descriptor_index: be_u16_at(s, 2),
                    },
                ),
            ),
        )
    }
}

/// Model of [`const_block`]: the layout that `tag` selects, applied to the
/// bytes after the tag. A tag outside the supported set selects none.
pub open spec fn spec_const_block(s: Seq<u8>, tag: u8) -> Result<
    (int, ConstEntryView),
    DecodeError,
> {
    if tag == 1 {
        spec_const_utf8(s)
    } else if tag == 3 {
        spec_const_integer(s)
    } else if tag == 4 {
        spec_const_float(s)
    } else if tag == 7 {
        spec_const_class(s)
    } else if tag == 8 {
        spec_const_string(s)
    } else if tag == 9 {
        spec_const_field_ref(s)
    } else if tag == 10 {
        spec_const_method_ref(s)
    } else if tag == 11 {
        spec_const_interface_method_ref(s)
    } else if tag == 12 {
        spec_const_name_and_type(s)
    } else {
        Err(DecodeError::UnrecognizedTag)
    }
}

/// Model of [`parse_const`]: one whole record, tag byte included.
pub open spec fn spec_parse_const(s: Seq<u8>) -> Result<(int, ConstEntryView), DecodeError> {
    if s.len() < 1 {
        Err(DecodeError::Truncated)
    } else {
        match spec_const_block(s.skip(1), s[0]) {
            Ok((used, entry)) => Ok((1 + used, entry)),
            Err(e) => Err(e),
        }
    }
}

/// A record that decodes starts with a supported tag, is of the kind that
/// the tag selects, and ends within the input.
pub proof fn lemma_record_kind_and_extent(s: Seq<u8>)
    ensures
        spec_parse_const(s) matches Ok((used, entry)) ==> 1 <= used <= s.len()
            && spec_supported_tag(s[0]) && entry.tag() == s[0],
{
}

/// A record whose tag byte is outside the supported set is rejected as such,
/// whatever follows the tag.
pub proof fn lemma_unrecognized_tag(s: Seq<u8>)
    requires
        s.len() >= 1,
        !spec_supported_tag(s[0]),
    ensures
        spec_parse_const(s) == Err::<(int, ConstEntryView), DecodeError>(
            DecodeError::UnrecognizedTag,
        ),
{
}

/// Decoding a record reads the bytes of that record and no others: input that
/// holds the same bytes up to the end of the record decodes to the same entry.
pub proof fn lemma_record_reads_own_bytes(a: Seq<u8>, b: Seq<u8>)
    requires
        spec_parse_const(a) matches Ok((used, _)) && agree_on_prefix(a, b, used),
    ensures
        spec_parse_const(b) == spec_parse_const(a),
{
    if a[0] == 1 {
        let end = 2 + be_u16_at(a.skip(1), 0) as int;
        assert(a.skip(1).subrange(2, end) =~= b.skip(1).subrange(2, end));
    }
}

/// A record cut short fails as truncated: if a record decodes, then no proper
/// prefix of its bytes does, and the error is `Truncated`.
pub proof fn lemma_record_truncated(s: Seq<u8>, k: int)
    requires
        spec_parse_const(s) matches Ok((used, _)) && 0 <= k < used,
    ensures
        spec_parse_const(s.take(k)) == Err::<(int, ConstEntryView), DecodeError>(
            DecodeError::Truncated,
        ),
{
}

/// Decodes the body of a text record: a 16-bit length and that many bytes of UTF-8.
pub fn const_utf8<'a>(input: &'a [u8]) -> (r: Result<(&'a [u8], ConstEntry), DecodeError>)
    ensures
        refines(r, input@, spec_const_utf8(input@)),
{
    let (after_length, length) = read_u16(input)?;
    let ghost end = 2 + length as int;
    proof {
        if input@.len() >= end {
            assert(after_length@.take(length as int) =~= input@.subrange(2, end));
        }
    }
    let (rest, text) = read_text(after_length, length as usize)?;
    assert(rest@ =~= input@.skip(end));
    Ok((rest, ConstEntry::Utf8(Utf8Constant { utf8_string: text })))
}

/// Decodes the body of an integer record.
pub fn const_integer<'a>(input: &'a [u8]) -> (r: Result<(&'a [u8], ConstEntry), DecodeError>)
    ensures
        refines(r, input@, spec_const_integer(input@)),
{
    let (rest, value) = read_i32(input)?;
    Ok((rest, ConstEntry::Integer(IntegerConstant { value })))
}

/// Decodes the body of a floating-point record, keeping its four bytes as they are.
pub fn const_float<'a>(input: &'a [u8]) -> (r: Result<(&'a [u8], ConstEntry), DecodeError>)
    ensures
        refines(r, input@, spec_const_float(input@)),
{
    let (rest, bits) = read_u32(input)?;
    Ok((rest, ConstEntry::Float(FloatConstant { bits })))
}

/// Decodes the body of a class record.
pub fn const_class<'a>(input: &'a [u8]) -> (r: Result<(&'a [u8], ConstEntry), DecodeError>)
    ensures
        refines(r, input@, spec_const_class(input@)),
{
    let (rest, name_index) = read_u16(input)?;
    Ok((rest, ConstEntry::Class(ClassConstant { name_index })))
}

/// Decodes the body of a string record.
pub fn const_string<'a>(input: &'a [u8]) -> (r: Result<(&'a [u8], ConstEntry), DecodeError>)
    ensures
        refines(r, input@, spec_const_string(input@)),
{
    let (rest, string_index) = read_u16(input)?;
    Ok((rest, ConstEntry::String(StringConstant { string_index })))
}

/// Decodes the body of a field reference.
pub fn const_field_ref<'a>(input: &'a [u8]) -> (r: Result<(&'a [u8], ConstEntry), DecodeError>)
    ensures
        refines(r, input@, spec_const_field_ref(input@)),
{
    let (after_first, class_index) = read_u16(input)?;
    let (rest, name_and_type_index) = read_u16(after_first)?;
    assert(rest@ =~= input@.skip(4));
    Ok((rest, ConstEntry::FieldRef(FieldRefConstant { class_index, name_and_type_index })))
}

/// Decodes the body of a method reference.
pub fn const_method_ref<'a>(input: &'a [u8]) -> (r: Result<(&'a [u8], ConstEntry), DecodeError>)
    ensures
        refines(r, input@, spec_const_method_ref(input@)),
{
    let (after_first, class_index) = read_u16(input)?;
    let (rest, name_and_type_index) = read_u16(after_first)?;
    assert(rest@ =~= input@.skip(4));
    Ok((rest, ConstEntry::MethodRef(MethodRefConstant { class_index, name_and_type_index })))
}

/// Decodes the body of an interface method reference.
pub fn const_interface_method_ref<'a>(input: &'a [u8]) -> (r: Result<
    (&'a [u8], ConstEntry),
    DecodeError,
>)
    ensures
        refines(r, input@, spec_const_interface_method_ref(input@)),
{
    let (after_first, class_index) = read_u16(input)?;
    let (rest, name_and_type_index) = read_u16(after_first)?;
    assert(rest@ =~= input@.skip(4));
    Ok(
        (
            rest,
            ConstEntry::InterfaceMethodRef(
                InterfaceMethodRefConstant { class_index, name_and_type_index },
            ),
        ),
    )
}

/// Decodes the body of a name-and-type record.
pub fn const_name_and_type<'a>(input: &'a [u8]) -> (r: Result<
    (&'a [u8], ConstEntry),
    DecodeError,
>)
    ensures
        refines(r, input@, spec_const_name_and_type(input@)),
{
    let (after_first, name_index) = read_u16(input)?;
    let (rest, descriptor_index) = read_u16(after_first)?;
    assert(rest@ =~= input@.skip(4));
    Ok((rest, ConstEntry::NameAndType(NameAndTypeConstant { name_index, descriptor_index })))
}

/// Decodes the body of the record that `const_type` introduces. `input` starts
/// just after the tag byte. A tag that selects no supported kind is an error:
/// without the layout, the end of the record cannot be found.
pub fn const_block<'a>(input: &'a [u8], const_type: u8) -> (r: Result<
    (&'a [u8], ConstEntry),
    DecodeError,
>)
    ensures
        refines(r, input@, spec_const_block(input@, const_type)),
        r is Ok ==> spec_supported_tag(const_type),
        r matches Ok((_, entry)) ==> entry@.tag() == const_type,
        !spec_supported_tag(const_type) ==> r == Err::<(&[u8], ConstEntry), DecodeError>(
            DecodeError::UnrecognizedTag,
        ),
{
    match const_type {
        1 => const_utf8(input),
        3 => const_integer(input),
        4 => const_float(input),
        7 => const_class(input),
        8 => const_string(input),
        9 => const_field_ref(input),
        10 => const_method_ref(input),
        11 => const_interface_method_ref(input),
        12 => const_name_and_type(input),
        _ => Err(DecodeError::UnrecognizedTag),
    }
}

/// Decodes one record from the front of `input`: the tag byte, then the
/// layout it selects.
pub fn parse_const<'a>(input: &'a [u8]) -> (r: Result<(&'a [u8], ConstEntry), DecodeError>)
    ensures
        refines(r, input@, spec_parse_const(input@)),
        r matches Ok((_, entry)) ==> input@.len() > 0 && entry@.tag() == input@[0],
{
    let (after_tag, const_type) = read_u8(input)?;
    let (rest, entry) = const_block(after_tag, const_type)?;
    assert(rest@ =~= input@.skip(1 + (after_tag@.len() - rest@.len())));
    Ok((rest, entry))
}

} // verus!
