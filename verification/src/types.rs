//! The semantic types of the source language and their machine representation.

use vstd::prelude::*;

verus! {

/// The type of a value of the source language.
///
/// `Unit` has no runtime representation: it is never stored and never passed.
#[derive(Clone, Copy, Debug, PartialEq, Eq, Structural)]
pub enum OtterType {
    Unit,
    Bool,
    I32,
    I64,
    F64,
    Str,
}

/// The type of a value of the intermediate representation.
#[derive(Clone, Copy, Debug, PartialEq, Eq, Structural)]
pub enum IrType {
    /// A one-bit integer.
    I1,
    I32,
    I64,
    /// An IEEE-754 binary64 number.
    F64,
    /// A pointer to a NUL-terminated byte sequence.
    Ptr,
}

impl IrType {
    /// Is this one of the integer types?
    pub open spec fn spec_is_int(self) -> bool {
        self == IrType::I1 || self == IrType::I32 || self == IrType::I64
    }

    #[verifier::when_used_as_spec(spec_is_int)]
    pub fn is_int(self) -> (r: bool)
        ensures
            r == self.spec_is_int(),
    {
        match self {
            IrType::I1 | IrType::I32 | IrType::I64 => true,
            _ => false,
        }
    }

    /// Is this the floating-point type?
    pub open spec fn spec_is_float(self) -> bool {
        self == IrType::F64
    }

    #[verifier::when_used_as_spec(spec_is_float)]
    pub fn is_float(self) -> (r: bool)
        ensures
            r == self.spec_is_float(),
    {
        match self {
            IrType::F64 => true,
            _ => false,
        }
    }
}

/// The machine type that represents a semantic type, where there is one.
pub open spec fn ir_type_of(ty: OtterType) -> Option<IrType> {
    match ty {
        OtterType::Unit => None,
        OtterType::Bool => Some(IrType::I1),
        OtterType::I32 => Some(IrType::I32),
        OtterType::I64 => Some(IrType::I64),
        OtterType::F64 => Some(IrType::F64),
        OtterType::Str => Some(IrType::Ptr),
    }
}

/// The semantic type that a type annotation names, where it names one.
pub open spec fn named_type(name: Seq<char>) -> Option<OtterType> {
    if name == "int"@ {
        Some(OtterType::I64)
    } else if name == "float"@ {
        Some(OtterType::F64)
    } else if name == "bool"@ {
        Some(OtterType::Bool)
    } else if name == "str"@ {
        Some(OtterType::Str)
    } else {
        None
    }
}

/// Do two string slices hold the same characters? They are compared as
/// `String`s, whose equality is specified.
pub(crate) fn str_equal(a: &str, b: &str) -> (r: bool)
    ensures
        r == (a@ == b@),
{
    a.to_owned() == b.to_owned()
}

} // verus!
