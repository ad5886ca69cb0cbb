//! The entries of the constant pool.
//!
//! A [`ConstEntry`] is one of nine kinds of record. Entries refer to one
//! another by 1-based index into the pool only; nothing here resolves or
//! range-checks those indices.

use vstd::prelude::*;

verus! {

/// A text constant.
#[derive(Clone, Debug, PartialEq, Eq)]
pub struct Utf8Constant {
    pub utf8_string: String,
}

/// A 32-bit signed integer constant.
#[derive(Clone, Copy, Debug, PartialEq, Eq, Structural)]
pub struct IntegerConstant {
    pub value: i32,
}

/// A 32-bit floating-point constant, kept as the four bytes of its IEEE 754
/// encoding: `bits` is what the record holds, most significant byte first.
#[derive(Clone, Copy, Debug, PartialEq, Eq, Structural)]
pub struct FloatConstant {
    pub bits: u32,
}

/// A class, named by the index of a text constant.
#[derive(Clone, Copy, Debug, PartialEq, Eq, Structural)]
pub struct ClassConstant {
    pub name_index: u16,
}

/// A string literal, given by the index of a text constant.
#[derive(Clone, Copy, Debug, PartialEq, Eq, Structural)]
pub struct StringConstant {
    pub string_index: u16,
}

/// A reference to a field of a class.
#[derive(Clone, Copy, Debug, PartialEq, Eq, Structural)]
pub struct FieldRefConstant {
    pub class_index: u16,
    pub name_and_type_index: u16,
}

/// A reference to a method of a class.
#[derive(Clone, Copy, Debug, PartialEq, Eq, Structural)]
pub struct MethodRefConstant {
    pub class_index: u16,
    pub name_and_type_index: u16,
}

/// A reference to a method of an interface.
#[derive(Clone, Copy, Debug, PartialEq, Eq, Structural)]
pub struct InterfaceMethodRefConstant {
    pub class_index: u16,
    pub name_and_type_index: u16,
}

/// A name together with a type descriptor, both indices of text constants.
#[derive(Clone, Copy, Debug, PartialEq, Eq, Structural)]
pub struct NameAndTypeConstant {
    pub name_index: u16,
    pub descriptor_index: u16,
}

/// One entry of the constant pool.
#[derive(Clone, Debug, PartialEq, Eq)]
pub enum ConstEntry {
    Utf8(Utf8Constant),
    Integer(IntegerConstant),
    Float(FloatConstant),
    Class(ClassConstant),
    String(StringConstant),
    FieldRef(FieldRefConstant),
    MethodRef(MethodRefConstant),
    InterfaceMethodRef(InterfaceMethodRefConstant),
    NameAndType(NameAndTypeConstant),
}

/// What a [`ConstEntry`] stands for: the same record with its text as a
/// sequence of characters.
pub enum ConstEntryView {
    Utf8(Seq<char>),
    Integer(IntegerConstant),
    Float(FloatConstant),
    Class(ClassConstant),
    String(StringConstant),
    FieldRef(FieldRefConstant),
    MethodRef(MethodRefConstant),
    InterfaceMethodRef(InterfaceMethodRefConstant),
    NameAndType(NameAndTypeConstant),
}

impl View for Utf8Constant {
    type V = Seq<char>;

    open spec fn view(&self) -> Seq<char> {
        self.utf8_string@
    }
}

impl View for ConstEntry {
    type V = ConstEntryView;

    open spec fn view(&self) -> ConstEntryView {
        match *self {
            ConstEntry::Utf8(c) => ConstEntryView::Utf8(c@),
            ConstEntry::Integer(c) => ConstEntryView::Integer(c),
            ConstEntry::Float(c) => ConstEntryView::Float(c),
            ConstEntry::Class(c) => ConstEntryView::Class(c),
            ConstEntry::String(c) => ConstEntryView::String(c),
            ConstEntry::FieldRef(c) => ConstEntryView::FieldRef(c),
            ConstEntry::MethodRef(c) => ConstEntryView::MethodRef(c),
            ConstEntry::InterfaceMethodRef(c) => ConstEntryView::InterfaceMethodRef(c),
            ConstEntry::NameAndType(c) => ConstEntryView::NameAndType(c),
        }
    }
}

/// Whether `tag` selects one of the nine supported kinds of constant.
pub open spec fn spec_supported_tag(tag: u8) -> bool {
    tag == 1 || tag == 3 || tag == 4 || (7 <= tag && tag <= 12)
}

impl ConstEntryView {
    /// The tag byte that introduces a record of this kind.
    pub open spec fn tag(self) -> u8 {
        match self {
            ConstEntryView::Utf8(_) => 1,
            ConstEntryView::Integer(_) => 3,
            ConstEntryView::Float(_) => 4,
            ConstEntryView::Class(_) => 7,
            ConstEntryView::String(_) => 8,
            ConstEntryView::FieldRef(_) => 9,
            ConstEntryView::MethodRef(_) => 10,
            ConstEntryView::InterfaceMethodRef(_) => 11,
            ConstEntryView::NameAndType(_) => 12,
        }
    }

    /// Whether `self` and `other` are records of the same kind.
    pub open spec fn same_kind(self, other: ConstEntryView) -> bool {
        &&& self is Utf8 <==> other is Utf8
        &&& self is Integer <==> other is Integer
        &&& self is Float <==> other is Float
        &&& self is Class <==> other is Class
        &&& self is String <==> other is String
        &&& self is FieldRef <==> other is FieldRef
        &&& self is MethodRef <==> other is MethodRef
        &&& self is InterfaceMethodRef <==> other is InterfaceMethodRef
        &&& self is NameAndType <==> other is NameAndType
    }
}

impl ConstEntry {
    /// The tag byte that introduces a record of this kind.
    pub fn tag(&self) -> (t: u8)
        ensures
            t == self@.tag(),
            spec_supported_tag(t),
    {
        match self {
            ConstEntry::Utf8(_) => 1,
            ConstEntry::Integer(_) => 3,
            ConstEntry::Float(_) => 4,
            ConstEntry::Class(_) => 7,
            ConstEntry::String(_) => 8,
            ConstEntry::FieldRef(_) => 9,
            ConstEntry::MethodRef(_) => 10,
            ConstEntry::InterfaceMethodRef(_) => 11,
            ConstEntry::NameAndType(_) => 12,
        }
    }
}

/// The tag decides the kind of record, and the kind decides the tag: two
/// entries have the same tag exactly when they are of the same kind, and the
/// tag of an entry is always a supported one.
pub proof fn lemma_tag_identifies_kind(a: ConstEntryView, b: ConstEntryView)
    ensures
        a.tag() == b.tag() <==> a.same_kind(b),
        spec_supported_tag(a.tag()),
{
}

} // verus!
