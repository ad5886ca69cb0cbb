//! Decoder for the header and constant pool of compiled class files.
//!
//! The input is a byte buffer; the output is a [`ClassFile`] holding the
//! version fields, the constant pool and the scalar fields that follow it.
//! Every decoding function has a contract over a mathematical model of the
//! wire format; the [`model`] module says how the two are related.

pub mod class_file;
pub mod constant;
pub mod error;
pub mod flags;
pub mod model;
pub mod pool;
pub mod record;
pub mod render;
pub mod scalar;

pub use class_file::{decode, magic_ident, parse_classfile, ClassFile};
pub use constant::{
    ClassConstant, ConstEntry, FieldRefConstant, FloatConstant, IntegerConstant,
    InterfaceMethodRefConstant, MethodRefConstant, NameAndTypeConstant, StringConstant,
    Utf8Constant,
};
pub use error::DecodeError;
pub use flags::AccessFlags;
pub use pool::parse_pool;
pub use record::{
    const_block, const_class, const_field_ref, const_float, const_integer,
    const_interface_method_ref, const_method_ref, const_name_and_type, const_string, const_utf8,
    parse_const,
};
pub use scalar::{read_i32, read_text, read_u16, read_u32, read_u8};
