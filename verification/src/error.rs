//! The errors of the code generator.

use crate::types::OtterType;
use vstd::prelude::*;

verus! {

/// The broad kind of a failure.
#[derive(Clone, Copy, Debug, PartialEq, Eq, Structural)]
pub enum ErrorKind {
    /// The program as a whole cannot be built.
    InputProgram,
    /// A name refers to nothing.
    NameResolution,
    /// A value has a type that its use does not allow.
    TypeCheck,
    /// The program uses a construct that the code generator does not lower.
    UnsupportedFeature,
    /// The generated module was rejected when it was checked.
    IrVerification,
    /// The native toolchain failed.
    Toolchain,
}

/// A construct of the source language that the code generator does not lower.
#[derive(Clone, Copy, Debug, PartialEq, Eq, Structural)]
pub enum Feature {
    While,
    Break,
    Continue,
    Block,
    LogicalAnd,
    LogicalOr,
    IfExpression,
    RangeOutsideFor,
    Await,
    Spawn,
    NonIdentifierCallee,
    MemberOnNonModule,
    NonRangeIterable,
}

/// A step of the native toolchain.
#[derive(Clone, Copy, Debug, PartialEq, Eq, Structural)]
pub enum ToolchainStep {
    TargetInit,
    TargetFromTriple,
    TargetMachine,
    ObjectEmission,
    RuntimeWrite,
    RuntimeCompile,
    Link,
}

/// What exactly went wrong.
#[derive(Clone, Copy, Debug, PartialEq, Eq, Structural)]
pub enum ErrorCode {
    /// The program holds no function.
    NoFunctions,
    /// No function is called `main`.
    MissingMain,
    /// A type annotation names no type.
    UnknownType,
    /// An identifier names no variable.
    UnknownIdentifier,
    /// A call names no function.
    UnknownFunction,
    /// The registry does not know a symbol that the code generator relies on.
    UnresolvedSymbol,
    /// A module has no such member.
    UnknownMember,
    /// A body is to be lowered for a function that was never declared.
    FunctionNotDeclared,
    /// The declared function has no parameter at this position.
    MissingParameter(usize),
    /// The condition of an `if` is not a boolean.
    ConditionNotBool(OtterType),
    /// The operands of a binary operator have different types.
    BinaryTypeMismatch(OtterType, OtterType),
    /// The operands of a binary operator are not floats.
    BinaryNotFloat(OtterType),
    /// The operand of `-` is not a float.
    NegationNotFloat,
    /// The operand of `!` is not a boolean.
    NotNotBool,
    /// An assignment would change the type of a variable.
    AssignTypeMismatch { existing: OtterType, new: OtterType },
    /// An argument has another type than the registry's signature asks for.
    ArgumentTypeMismatch { expected: OtterType, found: OtterType },
    /// A call passes another number of arguments than the signature has.
    ArityMismatch { params: usize, args: usize },
    /// `print` or `println` was not given exactly one argument.
    PrintArity,
    /// `print` or `println` was given something other than a string.
    PrintNotString(OtterType),
    /// The bounds of a range are not numbers of compatible types.
    RangeNotNumeric,
    /// An interpolated string embeds a value that cannot be formatted.
    FStringType(OtterType),
    /// A `let` would bind a unit value.
    UnitDeclared,
    /// An assignment would store a unit value.
    UnitAssigned,
    /// A unit value is passed as an argument.
    UnitArgument,
    /// A unit value would need a machine representation.
    UnitRepresentation,
    /// A registry signature has a unit parameter.
    UnitFfiParam,
    /// A call was expected to yield a value and its callee returns none.
    CallWithoutValue,
    /// The clock function returns neither an integer nor a float.
    UnexpectedReturnType,
    /// The program uses a construct that is not lowered.
    Unsupported(Feature),
    /// The intermediate representation refers to something that is not there.
    MalformedIr,
    /// The generated module did not pass verification.
    VerificationFailed,
    /// A step of the native toolchain failed.
    Toolchain(ToolchainStep),
}

/// The kind that a code belongs to.
pub open spec fn kind_of(code: ErrorCode) -> ErrorKind {
    match code {
        ErrorCode::NoFunctions | ErrorCode::MissingMain | ErrorCode::UnknownType => ErrorKind::InputProgram,
        ErrorCode::UnknownIdentifier
        | ErrorCode::UnknownFunction
        | ErrorCode::UnresolvedSymbol
        | ErrorCode::UnknownMember
        | ErrorCode::FunctionNotDeclared
        | ErrorCode::MissingParameter(_) => ErrorKind::NameResolution,
        ErrorCode::ConditionNotBool(_)
        | ErrorCode::BinaryTypeMismatch(_, _)
        | ErrorCode::BinaryNotFloat(_)
        | ErrorCode::NegationNotFloat
        | ErrorCode::NotNotBool
        | ErrorCode::AssignTypeMismatch { .. }
        | ErrorCode::ArgumentTypeMismatch { .. }
        | ErrorCode::ArityMismatch { .. }
        | ErrorCode::PrintArity
        | ErrorCode::PrintNotString(_)
        | ErrorCode::RangeNotNumeric
        | ErrorCode::FStringType(_)
        | ErrorCode::UnitDeclared
        | ErrorCode::UnitAssigned
        | ErrorCode::UnitArgument
        | ErrorCode::UnitRepresentation
        | ErrorCode::UnitFfiParam
        | ErrorCode::CallWithoutValue
        | ErrorCode::UnexpectedReturnType => ErrorKind::TypeCheck,
        ErrorCode::Unsupported(_) => ErrorKind::UnsupportedFeature,
        ErrorCode::MalformedIr | ErrorCode::VerificationFailed => ErrorKind::IrVerification,
        ErrorCode::Toolchain(_) => ErrorKind::Toolchain,
    }
}

/// An error of the code generator: what went wrong, and the name, path or
/// outside message that it went wrong on (empty where there is none).
#[derive(Clone, Debug, PartialEq, Eq)]
pub struct CodegenError {
    pub code: ErrorCode,
    pub subject: String,
}

/// An error as contracts speak of it.
pub struct CodegenErrorView {
    pub code: ErrorCode,
    pub subject: Seq<char>,
}

impl View for CodegenError {
    type V = CodegenErrorView;

    open spec fn view(&self) -> CodegenErrorView {
        CodegenErrorView { code: self.code, subject: self.subject@ }
    }
}

/// The error with this code and subject.
pub open spec fn failure(code: ErrorCode, subject: Seq<char>) -> CodegenErrorView {
    CodegenErrorView { code, subject }
}

impl CodegenError {
    /// An error about the thing called `subject`.
    pub fn new(code: ErrorCode, subject: &str) -> (e: CodegenError)
        ensures
            e@ == failure(code, subject@),
    {
        CodegenError { code, subject: subject.to_owned() }
    }

    /// An error that concerns no particular name.
    pub fn bare(code: ErrorCode) -> (e: CodegenError)
        ensures
            e@ == failure(code, Seq::empty()),
    {
        CodegenError { code, subject: String::new() }
    }

    /// The broad kind of this error.
    pub fn kind(&self) -> (k: ErrorKind)
        ensures
            k == kind_of(self.code),
    {
        match self.code {
            ErrorCode::NoFunctions | ErrorCode::MissingMain | ErrorCode::UnknownType => ErrorKind::InputProgram,
            ErrorCode::UnknownIdentifier
            | ErrorCode::UnknownFunction
            | ErrorCode::UnresolvedSymbol
            | ErrorCode::UnknownMember
            | ErrorCode::FunctionNotDeclared
            | ErrorCode::MissingParameter(_) => ErrorKind::NameResolution,
            ErrorCode::Unsupported(_) => ErrorKind::UnsupportedFeature,
            ErrorCode::MalformedIr | ErrorCode::VerificationFailed => ErrorKind::IrVerification,
            ErrorCode::Toolchain(_) => ErrorKind::Toolchain,
            _ => ErrorKind::TypeCheck,
        }
    }
}

} // verus!
