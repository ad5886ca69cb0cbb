//! A one-line rendering of a constant-pool entry, for listings.

use vstd::prelude::*;
use crate::constant::{ConstEntry, ConstEntryView};

verus! {

/// The character for the decimal digit `d`.
pub open spec fn spec_digit(d: int) -> char
    recommends
        0 <= d < 10,
{
    if d == 0 {
        '0'
    } else if d == 1 {
        '1'
    } else if d == 2 {
        '2'
    } else if d == 3 {
        '3'
    } else if d == 4 {
        '4'
    } else if d == 5 {
        '5'
    } else if d == 6 {
        '6'
    } else if d == 7 {
        '7'
    } else if d == 8 {
        '8'
    } else {
        '9'
    }
}

/// The decimal digits of `n`, most significant first, without leading zeros.
pub open spec fn spec_decimal(n: nat) -> Seq<char>
    decreases n,
{
    if n < 10 {
        seq![spec_digit(n as int)]
    } else {
        spec_decimal(n / 10).push(spec_digit((n % 10) as int))
    }
}

/// The decimal digits of `v`, after a minus sign if `v` is negative.
pub open spec fn spec_signed_decimal(v: int) -> Seq<char> {
    if v < 0 {
        seq!['-'] + spec_decimal((-v) as nat)
    } else {
        spec_decimal(v as nat)
    }
}

impl ConstEntryView {
    /// The text that [`ConstEntry::to_string`] gives for this entry: the name
    /// of the kind, then the fields by name in square brackets.
    pub open spec fn rendering(self) -> Seq<char> {
        match self {
            ConstEntryView::Utf8(text) => "Utf8Constant[utf8_string=\""@ + text + "\"]"@,
            ConstEntryView::Integer(c) => "IntegerConstant[value=\""@ + spec_signed_decimal(
                c.value as int,
            ) + "\"]"@,
            ConstEntryView::Float(c) => "FloatConstant[bits="@ + spec_decimal(c.bits as nat)
                + "]"@,
            ConstEntryView::Class(c) => "ClassConstant[name_index="@ + spec_decimal(
                c.name_index as nat,
            ) + "]"@,
            ConstEntryView::String(c) => "StringConstant[string_index="@ + spec_decimal(
                c.string_index as nat,
            ) + "]"@,
            ConstEntryView::FieldRef(c) => "FieldRefConstant[class_index="@ + spec_decimal(
                c.class_index as nat,
            ) + ", name_and_type_index="@ + spec_decimal(c.name_and_type_index as nat) + "]"@,
            ConstEntryView::MethodRef(c) => "MethodRefConstant[class_index="@ + spec_decimal(
                c.class_index as nat,
            ) + ", name_and_type_index="@ + spec_decimal(c.name_and_type_index as nat) + "]"@,
            ConstEntryView::InterfaceMethodRef(c) => "InterfaceMethodRefConstant[class_index="@
                + spec_decimal(c.class_index as nat) + ", name_and_type_index="@ + spec_decimal(
                c.name_and_type_index as nat,
            ) + "]"@,
            ConstEntryView::NameAndType(c) => "NameAndTypeConstant[name_index="@ + spec_decimal(
                c.name_index as nat,
            ) + ", descriptor_index="@ + spec_decimal(c.descriptor_index as nat) + "]"@,
        }
    }
}

/// The one-character text of the decimal digit `d`.
fn digit_text(d: u32) -> (text: &'static str)
    requires
        d < 10,
    ensures
        text@ == seq![spec_digit(d as int)],
{
    proof {
        reveal_strlit("0");
        reveal_strlit("1");
        reveal_strlit("2");
        reveal_strlit("3");
        reveal_strlit("4");
        reveal_strlit("5");
        reveal_strlit("6");
        reveal_strlit("7");
        reveal_strlit("8");
        reveal_strlit("9");
    }
    let text = if d == 0 {
        "0"
    } else if d == 1 {
        "1"
    } else if d == 2 {
        "2"
    } else if d == 3 {
        "3"
    } else if d == 4 {
        "4"
    } else if d == 5 {
        "5"
    } else if d == 6 {
        "6"
    } else if d == 7 {
        "7"
    } else if d == 8 {
        "8"
    } else {
        "9"
    };
    text
}

/// Appends the decimal digits of `n` to `out`.
pub fn push_decimal(out: &mut String, n: u32)
    ensures
        final(out)@ == old(out)@ + spec_decimal(n as nat),
    decreases n,
{
    if n >= 10 {
        push_decimal(out, n / 10);
    }
    out.append(digit_text(n % 10));
}

/// Appends the decimal digits of `v` to `out`, after a minus sign if `v` is negative.
pub fn push_signed_decimal(out: &mut String, v: i32)
    ensures
        final(out)@ == old(out)@ + spec_signed_decimal(v as int),
{
    if v < 0 {
        proof {
            reveal_strlit("-");
        }
        out.append("-");
        let magnitude: u32 = (-(v as i64)) as u32;
        push_decimal(out, magnitude);
    } else {
        push_decimal(out, v as u32);
    }
}

impl ConstEntry {
    /// Renders the entry on one line: the name of its kind, then its fields by
    /// name in square brackets, numbers in decimal. A floating-point constant
    /// is shown by the unsigned value of its four bytes.
    pub fn to_string(&self) -> (text: String)
        ensures
            text@ == self@.rendering(),
    {
        match self {
            ConstEntry::Utf8(c) => {
                let mut out = String::from_str("Utf8Constant[utf8_string=\"");
                out.append(c.utf8_string.as_str());
                out.append("\"]");
                out
            },
            ConstEntry::Integer(c) => {
                let mut out = String::from_str("IntegerConstant[value=\"");
                push_signed_decimal(&mut out, c.value);
                out.append("\"]");
                out
            },
            ConstEntry::Float(c) => {
                let mut out = String::from_str("FloatConstant[bits=");
                push_decimal(&mut out, c.bits);
                out.append("]");
                out
            },
            ConstEntry::Class(c) => {
                let mut out = String::from_str("ClassConstant[name_index=");
                push_decimal(&mut out, c.name_index as u32);
                out.append("]");
                out
            },
            ConstEntry::String(c) => {
                let mut out = String::from_str("StringConstant[string_index=");
                push_decimal(&mut out, c.string_index as u32);
                out.append("]");
                out
            },
            ConstEntry::FieldRef(c) => {
                let mut out = String::from_str("FieldRefConstant[class_index=");
                push_decimal(&mut out, c.class_index as u32);
                out.append(", name_and_type_index=");
                push_decimal(&mut out, c.name_and_type_index as u32);
                out.append("]");
                out
            },
            ConstEntry::MethodRef(c) => {
                let mut out = String::from_str("MethodRefConstant[class_index=");
                push_decimal(&mut out, c.class_index as u32);
                out.append(", name_and_type_index=");
                push_decimal(&mut out, c.name_and_type_index as u32);
                out.append("]");
                out
            },
            ConstEntry::InterfaceMethodRef(c) => {
                let mut out = String::from_str("InterfaceMethodRefConstant[class_index=");
                push_decimal(&mut out, c.class_index as u32);
                out.append(", name_and_type_index=");
                push_decimal(&mut out, c.name_and_type_index as u32);
                out.append("]");
                out
            },
            ConstEntry::NameAndType(c) => {
                let mut out = String::from_str("NameAndTypeConstant[name_index=");
                push_decimal(&mut out, c.name_index as u32);
                out.append(", descriptor_index=");
                push_decimal(&mut out, c.descriptor_index as u32);
                out.append("]");
                out
            },
        }
    }
}

} // verus!
