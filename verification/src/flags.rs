//! Names for the bits of the `access_flags` field.
//!
//! The decoder keeps `access_flags` as the raw 16-bit value; this module only
//! names its bits.

use vstd::prelude::*;

verus! {

/// One capability that a bit of `access_flags` declares.
#[derive(Clone, Copy, Debug, PartialEq, Eq, Structural)]
pub enum AccessFlags {
    /// Declared public; may be accessed from outside its package.
    Public,
    /// Declared final; no subclasses allowed.
    Final,
    /// Treat superclass methods specially when invoked by `invokespecial`.
    Super,
    /// Is an interface, not a class.
    Interface,
    /// Declared abstract; must not be instantiated.
    Abstract,
    /// Declared synthetic; not present in the source code.
    Synthetic,
    /// Declared as an annotation type.
    Annotation,
    /// Declared as an enum type.
    Enum,
}

impl AccessFlags {
    /// The bit of `access_flags` that stands for this capability.
    pub open spec fn spec_mask(self) -> u16 {
        match self {
            AccessFlags::Public => 0x0001,
            AccessFlags::Final => 0x0010,
            AccessFlags::Super => 0x0020,
            AccessFlags::Interface => 0x0200,
            AccessFlags::Abstract => 0x0400,
            AccessFlags::Synthetic => 0x1000,
            AccessFlags::Annotation => 0x2000,
            AccessFlags::Enum => 0x4000,
        }
    }

    /// The bit of `access_flags` that stands for this capability.
    pub fn mask(&self) -> (m: u16)
        ensures
            m == self.spec_mask(),
    {
        match self {
            AccessFlags::Public => 0x0001,
            AccessFlags::Final => 0x0010,
            AccessFlags::Super => 0x0020,
            AccessFlags::Interface => 0x0200,
            AccessFlags::Abstract => 0x0400,
            AccessFlags::Synthetic => 0x1000,
            AccessFlags::Annotation => 0x2000,
            AccessFlags::Enum => 0x4000,
        }
    }
}

} // verus!
