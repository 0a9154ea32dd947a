//! The text of an error, for people.

use crate::error::{CodegenError, CodegenErrorView, ErrorCode, Feature, ToolchainStep};
use crate::types::OtterType;
use vstd::prelude::*;
use vstd::string::StringExecFns;

verus! {

/// The name of a type as messages show it.
pub open spec fn shown_type(ty: OtterType) -> Seq<char> {
    match ty {
        OtterType::Unit => "Unit"@,
        OtterType::Bool => "Bool"@,
        OtterType::I32 => "I32"@,
        OtterType::I64 => "I64"@,
        OtterType::F64 => "F64"@,
        OtterType::Str => "Str"@,
    }
}

/// The digit `d` as text.
pub open spec fn digit(d: nat) -> Seq<char> {
    if d == 0 {
        "0"@
    } else if d == 1 {
        "1"@
    } else if d == 2 {
        "2"@
    } else if d == 3 {
        "3"@
    } else if d == 4 {
        "4"@
    } else if d == 5 {
        "5"@
    } else if d == 6 {
        "6"@
    } else if d == 7 {
        "7"@
    } else if d == 8 {
        "8"@
    } else {
        "9"@
    }
}

/// The number `n` in decimal notation.
pub open spec fn decimal(n: nat) -> Seq<char>
    decreases n,
{
    if n < 10 {
        digit(n)
    } else {
        decimal(n / 10) + digit(n % 10)
    }
}

/// What a message says of a construct that is not lowered.
pub open spec fn feature_text(feature: Feature) -> Seq<char> {
    match feature {
        Feature::While => "While loops not yet implemented"@,
        Feature::Break => "Break statements not yet implemented"@,
        Feature::Continue => "Continue statements not yet implemented"@,
        Feature::Block => "Block statements not yet implemented"@,
        Feature::LogicalAnd => "Logical and not yet implemented"@,
        Feature::LogicalOr => "Logical or not yet implemented"@,
        Feature::IfExpression => "If expressions not yet implemented"@,
        Feature::RangeOutsideFor => "Range expressions can only be used in for loops"@,
        Feature::Await => "Await expressions not yet implemented"@,
        Feature::Spawn => "Spawn expressions not yet implemented"@,
        Feature::NonIdentifierCallee => "only identifier calls are supported"@,
        Feature::MemberOnNonModule => "member access currently only supports module.field syntax"@,
        Feature::NonRangeIterable => "for loops currently only support range expressions"@,
    }
}

/// What a message says of a failed step of the toolchain, before the
/// report of the tool.
pub open spec fn step_text(step: ToolchainStep) -> Seq<char> {
    match step {
        ToolchainStep::TargetInit => "failed to initialise LLVM target: "@,
        ToolchainStep::TargetFromTriple => "failed to create target from triple: "@,
        ToolchainStep::TargetMachine => "failed to create target machine"@,
        ToolchainStep::ObjectEmission => "failed to emit object file: "@,
        ToolchainStep::RuntimeWrite => "failed to write runtime C file: "@,
        ToolchainStep::RuntimeCompile => "failed to compile runtime C file"@,
        ToolchainStep::Link => "linker invocation failed with status "@,
    }
}

/// The text of an error.
pub open spec fn spec_message(e: CodegenErrorView) -> Seq<char> {
    let s = e.subject;
    match e.code {
        ErrorCode::NoFunctions => "program contains no functions"@,
        ErrorCode::MissingMain => "entry function `main` not found"@,
        ErrorCode::UnknownType => "unknown type: "@ + s,
        ErrorCode::UnknownIdentifier => "unknown identifier `"@ + s + "`"@,
        ErrorCode::UnknownFunction => "unknown function `"@ + s + "`"@,
        ErrorCode::UnresolvedSymbol => "unresolved symbol `"@ + s + "`"@,
        ErrorCode::UnknownMember => "unknown member access: "@ + s,
        ErrorCode::FunctionNotDeclared => "function "@ + s + " not declared"@,
        ErrorCode::MissingParameter(index) => "failed to get parameter "@ + decimal(index as nat)
            + " for function "@ + s,
        ErrorCode::ConditionNotBool(ty) => "if condition must be a boolean, got "@ + shown_type(ty),
        ErrorCode::BinaryTypeMismatch(lhs, rhs) => "binary operation type mismatch: "@ + shown_type(lhs)
            + " vs "@ + shown_type(rhs),
        ErrorCode::BinaryNotFloat(ty) => "binary expressions currently support only float operands, got "@
            + shown_type(ty),
        ErrorCode::NegationNotFloat => "negation only supported for floats currently"@,
        ErrorCode::NotNotBool => "logical not only supported for booleans"@,
        ErrorCode::AssignTypeMismatch { existing, new } => "type mismatch assigning to `"@ + s
            + "`: existing "@ + shown_type(existing) + ", new "@ + shown_type(new),
        ErrorCode::ArgumentTypeMismatch { expected, found } => "argument type mismatch for `"@ + s
            + "`: expected "@ + shown_type(expected) + ", found "@ + shown_type(found),
        ErrorCode::ArityMismatch { params, args } => "function `"@ + s + "` expected "@ + decimal(
            params as nat,
        ) + " arguments but got "@ + decimal(args as nat),
        ErrorCode::PrintArity => s + " expects exactly 1 argument"@,
        ErrorCode::PrintNotString(ty) => s + " currently supports only string values, got "@
            + shown_type(ty),
        ErrorCode::RangeNotNumeric => "for loop range start and end must be numeric types"@,
        ErrorCode::FStringType(ty) => "unsupported type in f-string: "@ + shown_type(ty),
        ErrorCode::UnitDeclared => "cannot declare variable `"@ + s + "` with unit value"@,
        ErrorCode::UnitAssigned => "cannot assign unit value to `"@ + s + "`"@,
        ErrorCode::UnitArgument => "expected value for call argument"@,
        ErrorCode::UnitRepresentation => "unit type has no runtime representation"@,
        ErrorCode::UnitFfiParam => "unit type is not allowed in FFI parameter position"@,
        ErrorCode::CallWithoutValue => "call to `"@ + s + "` did not produce a return value"@,
        ErrorCode::UnexpectedReturnType => "unexpected return type from "@ + s,
        ErrorCode::Unsupported(feature) => feature_text(feature),
        ErrorCode::MalformedIr => "intermediate representation is malformed"@,
        ErrorCode::VerificationFailed => "LLVM module verification failed: "@ + s,
        ErrorCode::Toolchain(step) => step_text(step) + s,
    }
}

/// The name of a type as messages show it.
pub fn show_type(ty: OtterType) -> (name: &'static str)
    ensures
        name@ == shown_type(ty),
{
    match ty {
        OtterType::Unit => "Unit",
        OtterType::Bool => "Bool",
        OtterType::I32 => "I32",
        OtterType::I64 => "I64",
        OtterType::F64 => "F64",
        OtterType::Str => "Str",
    }
}

/// The digit `d` as text.
fn digit_of(d: usize) -> (text: &'static str)
    requires
        d < 10,
    ensures
        text@ == digit(d as nat),
{
    if d == 0 {
        "0"
    } else if d == 1 {
        "1"
    } else if d == 2 {
        "2"
    } else if d == 3 {
        "3"
    } else if d == 4 {
        "4"
    } else if d == 5 {
        "5"
    } else if d == 6 {
        "6"
    } else if d == 7 {
        "7"
    } else if d == 8 {
        "8"
    } else {
        "9"
    }
}

/// The number `n` in decimal notation.
pub fn decimal_of(n: usize) -> (text: String)
    ensures
        text@ == decimal(n as nat),
    decreases n,
{
    if n < 10 {
        digit_of(n).to_owned()
    } else {
        decimal_of(n / 10).concat(digit_of(n % 10))
    }
}

/// What a message says of a construct that is not lowered.
fn feature_text_of(feature: Feature) -> (text: &'static str)
    ensures
        text@ == feature_text(feature),
{
    match feature {
        Feature::While => "While loops not yet implemented",
        Feature::Break => "Break statements not yet implemented",
        Feature::Continue => "Continue statements not yet implemented",
        Feature::Block => "Block statements not yet implemented",
        Feature::LogicalAnd => "Logical and not yet implemented",
        Feature::LogicalOr => "Logical or not yet implemented",
        Feature::IfExpression => "If expressions not yet implemented",
        Feature::RangeOutsideFor => "Range expressions can only be used in for loops",
        Feature::Await => "Await expressions not yet implemented",
        Feature::Spawn => "Spawn expressions not yet implemented",
        Feature::NonIdentifierCallee => "only identifier calls are supported",
        Feature::MemberOnNonModule => "member access currently only supports module.field syntax",
        Feature::NonRangeIterable => "for loops currently only support range expressions",
    }
}

/// What a message says of a failed step of the toolchain.
fn step_text_of(step: ToolchainStep) -> (text: &'static str)
    ensures
        text@ == step_text(step),
{
    match step {
        ToolchainStep::TargetInit => "failed to initialise LLVM target: ",
        ToolchainStep::TargetFromTriple => "failed to create target from triple: ",
        ToolchainStep::TargetMachine => "failed to create target machine",
        ToolchainStep::ObjectEmission => "failed to emit object file: ",
        ToolchainStep::RuntimeWrite => "failed to write runtime C file: ",
        ToolchainStep::RuntimeCompile => "failed to compile runtime C file",
        ToolchainStep::Link => "linker invocation failed with status ",
    }
}

/// The text `a` followed by `b`.
fn join2(a: &str, b: &str) -> (text: String)
    ensures
        text@ == a@ + b@,
{
    a.to_owned().concat(b)
}

/// The texts `a`, `b` and `c` in a row.
fn join3(a: &str, b: &str, c: &str) -> (text: String)
    ensures
        text@ == a@ + b@ + c@,
{
    a.to_owned().concat(b).concat(c)
}

impl CodegenError {
    /// The text of this error: what went wrong, with the name, type or
    /// report that it went wrong on.
    pub fn message(&self) -> (text: String)
        ensures
            text@ == spec_message(self@),
    {
        let s = self.subject.as_str();
        match self.code {
            ErrorCode::NoFunctions => "program contains no functions".to_owned(),
            ErrorCode::MissingMain => "entry function `main` not found".to_owned(),
            ErrorCode::UnknownType => join2("unknown type: ", s),
            ErrorCode::UnknownIdentifier => join3("unknown identifier `", s, "`"),
            ErrorCode::UnknownFunction => join3("unknown function `", s, "`"),
            ErrorCode::UnresolvedSymbol => join3("unresolved symbol `", s, "`"),
            ErrorCode::UnknownMember => join2("unknown member access: ", s),
            ErrorCode::FunctionNotDeclared => join3("function ", s, " not declared"),
            ErrorCode::MissingParameter(index) => {
                let number = decimal_of(index);
                join3("failed to get parameter ", number.as_str(), " for function ").concat(s)
            },
            ErrorCode::ConditionNotBool(ty) => join2("if condition must be a boolean, got ", show_type(ty)),
            ErrorCode::BinaryTypeMismatch(lhs, rhs) => join3(
                "binary operation type mismatch: ",
                show_type(lhs),
                " vs ",
            ).concat(show_type(rhs)),
            ErrorCode::BinaryNotFloat(ty) => join2(
                "binary expressions currently support only float operands, got ",
                show_type(ty),
            ),
            ErrorCode::NegationNotFloat => "negation only supported for floats currently".to_owned(),
            ErrorCode::NotNotBool => "logical not only supported for booleans".to_owned(),
            ErrorCode::AssignTypeMismatch { existing, new } => join3(
                "type mismatch assigning to `",
                s,
                "`: existing ",
            ).concat(show_type(existing)).concat(", new ").concat(show_type(new)),
            ErrorCode::ArgumentTypeMismatch { expected, found } => join3(
                "argument type mismatch for `",
                s,
                "`: expected ",
            ).concat(show_type(expected)).concat(", found ").concat(show_type(found)),
            ErrorCode::ArityMismatch { params, args } => {
                let wanted = decimal_of(params);
                let given = decimal_of(args);
                join3("function `", s, "` expected ").concat(wanted.as_str()).concat(
                    " arguments but got ",
                ).concat(given.as_str())
            },
            ErrorCode::PrintArity => join2(s, " expects exactly 1 argument"),
            ErrorCode::PrintNotString(ty) => join3(
                s,
                " currently supports only string values, got ",
                show_type(ty),
            ),
            ErrorCode::RangeNotNumeric => "for loop range start and end must be numeric types".to_owned(),
            ErrorCode::FStringType(ty) => join2("unsupported type in f-string: ", show_type(ty)),
            ErrorCode::UnitDeclared => join3("cannot declare variable `", s, "` with unit value"),
            ErrorCode::UnitAssigned => join3("cannot assign unit value to `", s, "`"),
            ErrorCode::UnitArgument => "expected value for call argument".to_owned(),
            ErrorCode::UnitRepresentation => "unit type has no runtime representation".to_owned(),
            ErrorCode::UnitFfiParam => "unit type is not allowed in FFI parameter position".to_owned(),
            ErrorCode::CallWithoutValue => join3("call to `", s, "` did not produce a return value"),
            ErrorCode::UnexpectedReturnType => join2("unexpected return type from ", s),
            ErrorCode::Unsupported(feature) => feature_text_of(feature).to_owned(),
            ErrorCode::MalformedIr => "intermediate representation is malformed".to_owned(),
            ErrorCode::VerificationFailed => join2("LLVM module verification failed: ", s),
            ErrorCode::Toolchain(step) => join2(step_text_of(step), s),
        }
    }
}

} // verus!
