//! Lowering of whole expressions: identifiers, operators, calls, member
//! access and interpolated strings.

use crate::ast::{Expr, FStringPart};
use crate::error::{failure, CodegenError, ErrorCode, Feature};
use crate::expr::{
    call_label, failed, lowering_matches, make_call_label, spec_call_symbol, spec_eval_literal,
    spec_int_to_float, spec_lower_binary, spec_lower_unary, Lowered,
};
use crate::ffi::{spec_declare_symbol, spec_get_or_declare, FnType, FnTypeView};
use crate::ir::{count_named, lemma_declared_once, Instr, InstrView, ModuleView, Operand, UnaryKind};
use crate::state::{
    lemma_still_declared, Compiler, CompilerView, EvaluatedValue, FunctionContext, Variable,
};
use crate::symbols::{semantic_type, FfiFunction, FfiType};
use crate::types::{ir_type_of, str_equal, IrType, OtterType};
use vstd::prelude::*;
use vstd::string::StringExecFns;

verus! {

/// The variables of a function as contracts speak of them.
pub type Env = Map<Seq<char>, Variable>;

/// Every variable holds a value: none has the type `Unit`.
pub open spec fn holds_values(env: Env) -> bool {
    forall|name: Seq<char>| env.contains_key(name) ==> (#[trigger] env[name]).ty != OtterType::Unit
}

/// The registry prefix that stands for a module of the source language.
pub open spec fn module_prefix(module: Seq<char>) -> Seq<char> {
    if module == "time"@ {
        "std.time"@
    } else {
        module
    }
}

/// The dotted registry name of member `field` of module `module`.
pub open spec fn canonical_member(module: Seq<char>, field: Seq<char>) -> Seq<char> {
    module_prefix(module) + "."@ + field
}

/// Is this the clock, `time.now`?
pub open spec fn is_time_now(module: Seq<char>, field: Seq<char>) -> bool {
    module == "time"@ && field == "now"@
}

/// Is this one of the built-in printing functions?
pub open spec fn is_print(name: Seq<char>) -> bool {
    name == "print"@ || name == "println"@
}

/// The label of a call of the user function `name`.
pub open spec fn user_call_label(name: Seq<char>) -> Seq<char> {
    "call_"@ + name
}

/// The semantic type of what a user function of result type `ty` returns.
pub open spec fn user_return_type(ty: Option<IrType>) -> OtterType {
    match ty {
        None => OtterType::Unit,
        Some(t) => if t.is_float() {
            OtterType::F64
        } else if t.is_int() {
            OtterType::I64
        } else {
            OtterType::I32
        },
    }
}

/// The places of the runtime helpers that interpolated strings call.
pub struct FStringHelpers {
    pub format_float: usize,
    pub format_int: usize,
    pub concat: usize,
    pub free: usize,
}

/// The type of the helper that formats a float.
pub open spec fn format_float_type() -> FnTypeView {
    FnTypeView { params: seq![IrType::F64], ret: Some(IrType::Ptr) }
}

/// The type of the helper that formats an integer.
pub open spec fn format_int_type() -> FnTypeView {
    FnTypeView { params: seq![IrType::I64], ret: Some(IrType::Ptr) }
}

/// The type of the helper that joins two strings.
pub open spec fn concat_type() -> FnTypeView {
    FnTypeView { params: seq![IrType::Ptr, IrType::Ptr], ret: Some(IrType::Ptr) }
}

/// The type of the helper that releases a string.
pub open spec fn free_type() -> FnTypeView {
    FnTypeView { params: seq![IrType::Ptr], ret: None }
}

/// Does the module declare each of the four runtime helpers that
/// interpolated strings call?
pub open spec fn helpers_declared(module: ModuleView) -> bool {
    &&& module.declares("otter_format_float"@)
    &&& module.declares("otter_format_int"@)
    &&& module.declares("otter_concat_strings"@)
    &&& module.declares("otter_free_string_ptr"@)
}

/// Does the module hold exactly one declaration of each of the four
/// runtime helpers?
pub open spec fn helpers_declared_once(module: ModuleView) -> bool {
    &&& count_named(module.functions, "otter_format_float"@) == 1
    &&& count_named(module.functions, "otter_format_int"@) == 1
    &&& count_named(module.functions, "otter_concat_strings"@) == 1
    &&& count_named(module.functions, "otter_free_string_ptr"@) == 1
}

/// The runtime helpers stay declared while the session continues.
pub proof fn lemma_helpers_still_declared(before: CompilerView, after: CompilerView)
    requires
        before.positioned(),
        after.continues(before),
        helpers_declared(before.module),
    ensures
        helpers_declared(after.module),
{
    lemma_still_declared(before, after, "otter_format_float"@);
    lemma_still_declared(before, after, "otter_format_int"@);
    lemma_still_declared(before, after, "otter_concat_strings"@);
    lemma_still_declared(before, after, "otter_free_string_ptr"@);
}

/// In a module without double names, each runtime helper that is declared
/// is declared exactly once.
pub proof fn lemma_helpers_declared_once(module: ModuleView)
    requires
        module.unique_names(),
        helpers_declared(module),
    ensures
        helpers_declared_once(module),
{
    lemma_declared_once(module.functions, "otter_format_float"@);
    lemma_declared_once(module.functions, "otter_format_int"@);
    lemma_declared_once(module.functions, "otter_concat_strings"@);
    lemma_declared_once(module.functions, "otter_free_string_ptr"@);
}

/// The session after the four runtime helpers were found or declared, and
/// their places.
pub open spec fn spec_declare_helpers(c: CompilerView) -> (CompilerView, FStringHelpers) {
    let (c, format_float) = spec_get_or_declare(c, "otter_format_float"@, format_float_type());
    let (c, format_int) = spec_get_or_declare(c, "otter_format_int"@, format_int_type());
    let (c, concat) = spec_get_or_declare(c, "otter_concat_strings"@, concat_type());
    let (c, free) = spec_get_or_declare(c, "otter_free_string_ptr"@, free_type());
    (c, FStringHelpers { format_float, format_int, concat, free })
}

/// The session and the value after the variable `name` was read.
pub open spec fn spec_eval_identifier(c: CompilerView, env: Env, name: Seq<char>) -> Lowered<EvaluatedValue> {
    match env.get(name) {
        None => Err(failed(c, ErrorCode::UnknownIdentifier, name)),
        Some(variable) => match ir_type_of(variable.ty) {
            None => Err(failed(c, ErrorCode::UnitRepresentation, Seq::empty())),
            Some(ty) => Ok(
                (
                    c.emit(InstrView::Load { ty, ptr: variable.slot, name }),
                    EvaluatedValue::with_value(c.next_value(), variable.ty),
                ),
            ),
        },
    }
}

/// The session and the value after a call of function `callee` whose
/// result the caller needs.
pub open spec fn spec_value_call(c: CompilerView, callee: usize, args: Seq<Operand>, label: Seq<char>) -> Lowered<
    Operand,
> {
    if c.module.functions[callee as int].ret is Some {
        Ok((c.emit(InstrView::Call { callee, args, name: label }), c.next_value()))
    } else {
        Err(failed(c, ErrorCode::CallWithoutValue, label))
    }
}

/// The session and the value after a call of a host function: the result
/// has the type that the registry gives.
pub open spec fn spec_call_result(
    c: CompilerView,
    callee: usize,
    args: Seq<Operand>,
    name: Seq<char>,
    ty: OtterType,
) -> Lowered<EvaluatedValue> {
    let after = c.emit(InstrView::Call { callee, args, name: call_label(name) });
    if ty == OtterType::Unit {
        Ok((after, EvaluatedValue::unit()))
    } else if c.module.functions[callee as int].ret is Some {
        Ok((after, EvaluatedValue::with_value(c.next_value(), ty)))
    } else {
        Err(failed(after, ErrorCode::CallWithoutValue, name))
    }
}

/// The session and the value after the clock, declared at `callee`, was
/// called: its result is converted to a float where it is an integer.
pub open spec fn spec_clock_result(c: CompilerView, callee: usize) -> Lowered<EvaluatedValue> {
    let called = c.emit(InstrView::Call { callee, args: Seq::empty(), name: "call_time_now"@ });
    let value = EvaluatedValue::with_value(c.next_value(), OtterType::I64);
    match c.module.functions[callee as int].ret {
        None => Err(failed(called, ErrorCode::CallWithoutValue, "time.now"@)),
        Some(ty) => if ty.is_int() {
            Ok(spec_int_to_float(called, value, "int_to_float"@))
        } else if ty.is_float() {
            Ok((called, EvaluatedValue::with_value(c.next_value(), OtterType::F64)))
        } else {
            Err(failed(called, ErrorCode::UnexpectedReturnType, "time.now"@))
        },
    }
}

/// The session and the value after the clock was found or declared and
/// called.
pub open spec fn spec_time_now(c: CompilerView) -> Lowered<EvaluatedValue> {
    match spec_declare_symbol(c, "std.time.now"@) {
        Err(e) => Err(e),
        Ok((c, callee)) => spec_clock_result(c, callee),
    }
}

/// The session and the value after `print` or `println` was applied to an
/// evaluated argument: both print a string and a newline.
pub open spec fn spec_lower_print(c: CompilerView, name: Seq<char>, arg: EvaluatedValue) -> Lowered<
    EvaluatedValue,
> {
    if arg.ty != OtterType::Str {
        Err(failed(c, ErrorCode::PrintNotString(arg.ty), name))
    } else {
        match spec_call_symbol(c, "std.io.println"@, seq![arg.value.unwrap()]) {
            Err(e) => Err(e),
            Ok((c, _)) => Ok((c, EvaluatedValue::unit())),
        }
    }
}

/// The argument of a user function after coercion to the type of its
/// parameter: a float for an integer parameter is converted to a 64-bit
/// integer, a 64-bit integer for a float parameter to a float.
pub open spec fn spec_coerce_argument(c: CompilerView, value: EvaluatedValue, param: Option<IrType>) -> (
    CompilerView,
    EvaluatedValue,
) {
    match param {
        Some(ty) => if ty.is_int() && value.ty == OtterType::F64 {
            (
                c.emit(
                    InstrView::Unary {
                        kind: UnaryKind::FloatToSigned,
                        value: value.value.unwrap(),
                        name: "float_to_int"@,
                    },
                ),
                EvaluatedValue::with_value(c.next_value(), OtterType::I64),
            )
        } else if ty.is_float() && value.ty == OtterType::I64 {
            spec_int_to_float(c, value, "int_to_float"@)
        } else {
            (c, value)
        },
        None => (c, value),
    }
}

/// The type of parameter `index` of function `callee`, if it has so many.
pub open spec fn spec_param_at(c: CompilerView, callee: usize, index: int) -> Option<IrType> {
    let params = c.module.functions[callee as int].params;
    if 0 <= index < params.len() {
        Some(params[index])
    } else {
        None
    }
}

/// The session and the text after one embedded value of an interpolated
/// string was formatted.
pub open spec fn spec_format_part(c: CompilerView, value: EvaluatedValue, helpers: FStringHelpers) -> Lowered<
    Operand,
> {
    match value.ty {
        OtterType::F64 => spec_value_call(
            c,
            helpers.format_float,
            seq![value.value.unwrap()],
            "format_float"@,
        ),
        OtterType::I64 => spec_value_call(
            c,
            helpers.format_int,
            seq![value.value.unwrap()],
            "format_int"@,
        ),
        OtterType::Str => Ok((c, value.value.unwrap())),
        _ => Err(failed(c, ErrorCode::FStringType(value.ty), Seq::empty())),
    }
}

/// The session after the text of an embedded value was released, where it
/// was made by formatting.
pub open spec fn spec_release_part(
    c: CompilerView,
    value: EvaluatedValue,
    formatted: Operand,
    helpers: FStringHelpers,
) -> CompilerView {
    if value.ty == OtterType::F64 || value.ty == OtterType::I64 {
        c.emit(InstrView::Call { callee: helpers.free, args: seq![formatted], name: "free"@ })
    } else {
        c
    }
}

/// The session and the value after member `field` of module `module` was
/// read, which calls it without arguments; no value where the registry
/// knows no such member.
pub open spec fn spec_member_value(c: CompilerView, module: Seq<char>, field: Seq<char>) -> Lowered<
    Option<EvaluatedValue>,
> {
    if is_time_now(module, field) {
        match spec_time_now(c) {
            Err(e) => Err(e),
            Ok((c, value)) => Ok((c, Some(value))),
        }
    } else {
        let name = canonical_member(module, field);
        match c.registry.get(name) {
            None => Ok((c, None)),
            Some(symbol) => match spec_declare_symbol(c, name) {
                Err(e) => Err(e),
                Ok((c, callee)) => match spec_call_result(
                    c,
                    callee,
                    Seq::empty(),
                    name,
                    semantic_type(symbol.signature.result),
                ) {
                    Err(e) => Err(e),
                    Ok((c, value)) => Ok((c, Some(value))),
                },
            },
        }
    }
}

/// Does lowering this expression insert no instruction? Literals and
/// interpolated strings without parts do not.
pub open spec fn inserts_nothing(expr: Expr) -> bool {
    match expr {
        Expr::Literal(_) => true,
        Expr::FString { parts } => parts@.len() == 0,
        _ => false,
    }
}

/// The session and the value after an expression was lowered.
pub open spec fn spec_eval_expr(c: CompilerView, env: Env, expr: Expr) -> Lowered<EvaluatedValue>
    decreases expr, 0nat,
{
    match expr {
        Expr::Literal(literal) => Ok(spec_eval_literal(c, literal)),
        Expr::Identifier(name) => spec_eval_identifier(c, env, name@),
        Expr::Binary { left, op, right } => match spec_eval_expr(c, env, *left) {
            Err(e) => Err(e),
            Ok((c, lhs)) => match spec_eval_expr(c, env, *right) {
                Err(e) => Err(e),
                Ok((c, rhs)) => spec_lower_binary(c, op, lhs, rhs),
            },
        },
        Expr::Unary { op, expr } => match spec_eval_expr(c, env, *expr) {
            Err(e) => Err(e),
            Ok((c, operand)) => spec_lower_unary(c, op, operand),
        },
        Expr::Call { func, args } => match *func {
            Expr::Identifier(name) => if is_print(name@) {
                spec_eval_print(c, env, name@, args@)
            } else {
                spec_eval_call(c, env, *func, args@)
            },
            Expr::Member { object, field } => match *object {
                Expr::Identifier(module) => match spec_eval_member(c, env, module@, field@, args@) {
                    Err(e) => Err(e),
                    Ok((c, Some(value))) => Ok((c, value)),
                    Ok((c, None)) => Err(failed(c, ErrorCode::UnknownMember, module@ + "."@ + field@)),
                },
                _ => spec_eval_call(c, env, *func, args@),
            },
            _ => spec_eval_call(c, env, *func, args@),
        },
        Expr::If { .. } => Err(failed(c, ErrorCode::Unsupported(Feature::IfExpression), Seq::empty())),
        Expr::Range { .. } => Err(failed(c, ErrorCode::Unsupported(Feature::RangeOutsideFor), Seq::empty()),
        ),
        Expr::FString { parts } => spec_eval_fstring(c, env, parts@),
        Expr::Member { object, field } => match *object {
            Expr::Identifier(module) => match spec_member_value(c, module@, field@) {
                Err(e) => Err(e),
                Ok((c, Some(value))) => Ok((c, value)),
                Ok((c, None)) => Err(failed(c, ErrorCode::UnknownMember, module@ + "."@ + field@),
                ),
            },
            _ => Err(failed(c, ErrorCode::Unsupported(Feature::MemberOnNonModule), Seq::empty())),
        },
        Expr::Await(_) => Err(failed(c, ErrorCode::Unsupported(Feature::Await), Seq::empty())),
        Expr::Spawn(_) => Err(failed(c, ErrorCode::Unsupported(Feature::Spawn), Seq::empty())),
    }
}

/// The session and the value after a call of `print` or `println`.
pub open spec fn spec_eval_print(c: CompilerView, env: Env, name: Seq<char>, args: Seq<Expr>) -> Lowered<
    EvaluatedValue,
>
    decreases args, args.len() + 1,
{
    if args.len() != 1 {
        Err(failed(c, ErrorCode::PrintArity, name))
    } else {
        match spec_eval_expr(c, env, args[0]) {
            Err(e) => Err(e),
            Ok((c, arg)) => spec_lower_print(c, name, arg),
        }
    }
}

/// The session and the operands after the arguments from `from` on were
/// lowered, each of which must be a value.
pub open spec fn spec_eval_args(
    c: CompilerView,
    env: Env,
    args: Seq<Expr>,
    from: int,
    done: Seq<Operand>,
) -> Lowered<Seq<Operand>>
    decreases args, args.len() - from,
{
    if 0 <= from < args.len() {
        match spec_eval_expr(c, env, args[from]) {
            Err(e) => Err(e),
            Ok((c, value)) => match value.value {
                None => Err(failed(c, ErrorCode::UnitArgument, Seq::empty())),
                Some(operand) => spec_eval_args(c, env, args, from + 1, done.push(operand)),
            },
        }
    } else {
        Ok((c, done))
    }
}

/// The session and the operands after the arguments from `from` on were
/// lowered and checked against the parameter types of a host function.
pub open spec fn spec_eval_typed_args(
    c: CompilerView,
    env: Env,
    args: Seq<Expr>,
    params: Seq<FfiType>,
    name: Seq<char>,
    from: int,
    done: Seq<Operand>,
) -> Lowered<Seq<Operand>>
    decreases args, args.len() - from,
{
    if 0 <= from < args.len() && from < params.len() {
        match spec_eval_expr(c, env, args[from]) {
            Err(e) => Err(e),
            Ok((c, value)) => {
                let expected = semantic_type(params[from]);
                if value.ty != expected {
                    Err(failed(c, ErrorCode::ArgumentTypeMismatch { expected, found: value.ty }, name))
                } else {
                    match value.value {
                        None => Err(failed(c, ErrorCode::UnitArgument, Seq::empty())),
                        Some(operand) => spec_eval_typed_args(
                            c,
                            env,
                            args,
                            params,
                            name,
                            from + 1,
                            done.push(operand),
                        ),
                    }
                }
            },
        }
    } else {
        Ok((c, done))
    }
}

/// The session and the operands after the arguments from `from` on were
/// lowered and coerced to the parameter types of user function `callee`.
pub open spec fn spec_eval_coerced_args(
    c: CompilerView,
    env: Env,
    args: Seq<Expr>,
    callee: usize,
    from: int,
    done: Seq<Operand>,
) -> Lowered<Seq<Operand>>
    decreases args, args.len() - from,
{
    if 0 <= from < args.len() {
        match spec_eval_expr(c, env, args[from]) {
            Err(e) => Err(e),
            Ok((c, value)) => {
                let (c, value) = spec_coerce_argument(c, value, spec_param_at(c, callee, from));
                match value.value {
                    None => Err(failed(c, ErrorCode::UnitArgument, Seq::empty())),
                    Some(operand) => spec_eval_coerced_args(
                        c,
                        env,
                        args,
                        callee,
                        from + 1,
                        done.push(operand),
                    ),
                }
            },
        }
    } else {
        Ok((c, done))
    }
}

/// The session and the value after a call of the host function `symbol`,
/// which the source calls `name`.
pub open spec fn spec_registry_call(
    c: CompilerView,
    env: Env,
    name: Seq<char>,
    symbol: FfiFunction,
    args: Seq<Expr>,
) -> Lowered<EvaluatedValue>
    decreases args, args.len() + 1,
{
    let params = symbol.signature.params@;
    if params.len() != args.len() {
        Err(failed(c, 
                ErrorCode::ArityMismatch { params: params.len() as usize, args: args.len() as usize },
                name,
            ),
        )
    } else {
        match spec_declare_symbol(c, name) {
            Err(e) => Err(e),
            Ok((c, callee)) => match spec_eval_typed_args(c, env, args, params, name, 0, Seq::empty()) {
                Err(e) => Err(e),
                Ok((c, operands)) => spec_call_result(
                    c,
                    callee,
                    operands,
                    name,
                    semantic_type(symbol.signature.result),
                ),
            },
        }
    }
}

/// The session and the value after a call of user function `callee`,
/// which the source calls `name`.
pub open spec fn spec_user_call(c: CompilerView, env: Env, name: Seq<char>, callee: usize, args: Seq<Expr>) -> Lowered<
    EvaluatedValue,
>
    decreases args, args.len() + 1,
{
    match spec_eval_coerced_args(c, env, args, callee, 0, Seq::empty()) {
        Err(e) => Err(e),
        Ok((c, operands)) => {
            let ty = user_return_type(c.module.functions[callee as int].ret);
            let after = c.emit(
                InstrView::Call { callee, args: operands, name: user_call_label(name) },
            );
            if ty == OtterType::Unit {
                Ok((after, EvaluatedValue::unit()))
            } else {
                Ok((after, EvaluatedValue::with_value(c.next_value(), ty)))
            }
        },
    }
}

/// The session and the value after a call of the function that a bare
/// name refers to: a host function of the registry, or else a function of
/// the module.
pub open spec fn spec_call_named(c: CompilerView, env: Env, name: Seq<char>, args: Seq<Expr>) -> Lowered<
    EvaluatedValue,
>
    decreases args, args.len() + 2,
{
    match c.registry.get(name) {
        Some(symbol) => spec_registry_call(c, env, name, symbol, args),
        None => match c.module.find_function(name) {
            Some(callee) => spec_user_call(c, env, name, callee as usize, args),
            None => Err(failed(c, ErrorCode::UnknownFunction, name)),
        },
    }
}

/// The session and the value after `callee` was called with `args`: only
/// a bare name can be called.
pub open spec fn spec_eval_call(c: CompilerView, env: Env, callee: Expr, args: Seq<Expr>) -> Lowered<
    EvaluatedValue,
>
    decreases args, args.len() + 3,
{
    match callee {
        Expr::Identifier(name) => spec_call_named(c, env, name@, args),
        _ => Err(failed(c, ErrorCode::Unsupported(Feature::NonIdentifierCallee), Seq::empty())),
    }
}

/// The session and the value after member `field` of module `module` was
/// called with `args`; no value where the registry knows no such member.
pub open spec fn spec_eval_member(
    c: CompilerView,
    env: Env,
    module: Seq<char>,
    field: Seq<char>,
    args: Seq<Expr>,
) -> Lowered<Option<EvaluatedValue>>
    decreases args, args.len() + 1,
{
    if is_time_now(module, field) {
        match spec_time_now(c) {
            Err(e) => Err(e),
            Ok((c, value)) => Ok((c, Some(value))),
        }
    } else {
        let name = canonical_member(module, field);
        match c.registry.get(name) {
            None => Ok((c, None)),
            Some(symbol) => match spec_declare_symbol(c, name) {
                Err(e) => Err(e),
                Ok((c, callee)) => match spec_eval_args(c, env, args, 0, Seq::empty()) {
                    Err(e) => Err(e),
                    Ok((c, operands)) => match spec_call_result(
                        c,
                        callee,
                        operands,
                        name,
                        semantic_type(symbol.signature.result),
                    ) {
                        Err(e) => Err(e),
                        Ok((c, value)) => Ok((c, Some(value))),
                    },
                },
            },
        }
    }
}

/// The session and the value after an interpolated string was lowered:
/// starting from the empty string, each part is joined on in turn.
pub open spec fn spec_eval_fstring(c: CompilerView, env: Env, parts: Seq<FStringPart>) -> Lowered<
    EvaluatedValue,
>
    decreases parts, parts.len() + 1,
{
    let (c, helpers) = spec_declare_helpers(c);
    let start = c.next_string();
    let c = c.add_string("empty_str"@, Seq::empty());
    spec_fstring_parts(c, env, parts, 0, start, helpers)
}

/// The session and the value after the parts from `from` on were joined
/// onto the text `done`.
pub open spec fn spec_fstring_parts(
    c: CompilerView,
    env: Env,
    parts: Seq<FStringPart>,
    from: int,
    done: Operand,
    helpers: FStringHelpers,
) -> Lowered<EvaluatedValue>
    decreases parts, parts.len() - from,
{
    if 0 <= from < parts.len() {
        match parts[from] {
            FStringPart::Text(text) => {
                let piece = c.next_string();
                let c = c.add_string("fstr_text"@, text@);
                match spec_value_call(c, helpers.concat, seq![done, piece], "concat"@) {
                    Err(e) => Err(e),
                    Ok((c, joined)) => spec_fstring_parts(c, env, parts, from + 1, joined, helpers),
                }
            },
            FStringPart::Expr(expr) => match spec_eval_expr(c, env, *expr) {
                Err(e) => Err(e),
                Ok((c, value)) => match spec_format_part(c, value, helpers) {
                    Err(e) => Err(e),
                    Ok((c, formatted)) => match spec_value_call(
                        c,
                        helpers.concat,
                        seq![done, formatted],
                        "concat"@,
                    ) {
                        Err(e) => Err(e),
                        Ok((c, joined)) => spec_fstring_parts(
                            spec_release_part(c, value, formatted, helpers),
                            env,
                            parts,
                            from + 1,
                            joined,
                            helpers,
                        ),
                    },
                },
            },
        }
    } else {
        Ok((c, EvaluatedValue::with_value(done, OtterType::Str)))
    }
}

/// The operands are what `lowered` says, code at the cursor can use them,
/// and the session continues with the cursor where it was.
pub open spec fn operands_match(
    lowered: Lowered<Seq<Operand>>,
    before: CompilerView,
    after: CompilerView,
    result: Result<Vec<Operand>, CodegenError>,
) -> bool {
    match lowered {
        Ok((state, operands)) => {
            &&& result matches Ok(v) && v@ == operands
            &&& after == state
            &&& after.appends_to(before)
            &&& after.sees_all(operands)
        },
        Err(stopped) => result matches Err(x) && x@ == stopped.error && after == stopped.state,
    }
}

/// The value is what `lowered` says, it is well-formed, code at the cursor
/// can use it, and the session continues with the cursor where it was.
pub open spec fn value_matches(
    lowered: Lowered<EvaluatedValue>,
    before: CompilerView,
    after: CompilerView,
    result: Result<EvaluatedValue, CodegenError>,
) -> bool {
    &&& lowering_matches(lowered, after, result)
    &&& result matches Ok(v) ==> v.wf() && after.appends_to(before) && after.sees_value(v)
}

/// The operand of a value that is passed on: a unit value cannot be.
pub fn value_to_metadata(value: &EvaluatedValue) -> (r: Result<Operand, CodegenError>)
    ensures
        match value.value {
            Some(operand) => r == Ok::<Operand, CodegenError>(operand),
            None => r matches Err(e) && e@ == failure(ErrorCode::UnitArgument, Seq::empty()),
        },
{
    match value.value {
        Some(operand) => Ok(operand),
        None => Err(CodegenError::bare(ErrorCode::UnitArgument)),
    }
}

/// The label of a call of the user function `name`.
fn make_user_call_label(name: &str) -> (label: String)
    ensures
        label@ == user_call_label(name@),
{
    String::from_str("call_").concat(name)
}

/// The error for a member that the registry does not know, whether it is
/// read or called.
fn unknown_member(module: &str, field: &str) -> (e: CodegenError)
    ensures
        e@ == failure(ErrorCode::UnknownMember, module@ + "."@ + field@),
{
    let subject = String::from_str(module).concat(".").concat(field);
    CodegenError::new(ErrorCode::UnknownMember, subject.as_str())
}

/// The dotted registry name of member `field` of module `module`.
pub fn canonical_member_name(module: &str, field: &str) -> (name: String)
    ensures
        name@ == canonical_member(module@, field@),
{
    let prefix = if str_equal(module, "time") {
        String::from_str("std.time")
    } else {
        String::from_str(module)
    };
    prefix.concat(".").concat(field)
}

impl<'a> Compiler<'a> {
    /// Looks member `field` of module `module` up in the registry, under its
    /// dotted registry name.
    pub fn resolve_member(&self, module: &str, field: &str) -> (found: Option<&'a FfiFunction>)
        ensures
            match found {
                Some(entry) => self@.registry.get(canonical_member(module@, field@)) == Some(*entry),
                None => self@.registry.get(canonical_member(module@, field@)) is None,
            },
    {
        let name = canonical_member_name(module, field);
        self.resolve(name.as_str())
    }

    /// Reads the variable `name`.
    pub fn eval_identifier(&mut self, name: &str, ctx: &FunctionContext) -> (r: Result<
        EvaluatedValue,
        CodegenError,
    >)
        requires
            old(self)@.positioned(),
        ensures
            value_matches(spec_eval_identifier(old(self)@, ctx@, name@), old(self)@, final(self)@, r),
            r is Ok && old(self)@.grounded() && old(self)@.sees_env(ctx@)
                ==> final(self)@.grounded(),
            r is Ok ==> final(self)@.inserts_after(old(self)@),
    {
        match ctx.get(name) {
            Some(variable) => {
                let ty = Compiler::basic_type(variable.ty)?;
                let loaded = self.emit(Instr::Load { ty, ptr: variable.slot, name: name.to_owned() });
                Ok(EvaluatedValue::with_value(loaded, variable.ty))
            },
            None => Err(CodegenError::new(ErrorCode::UnknownIdentifier, name)),
        }
    }

    /// Calls function `callee` for its result.
    pub fn value_call(&mut self, callee: usize, args: Vec<Operand>, label: &str) -> (r: Result<
        Operand,
        CodegenError,
    >)
        requires
            old(self)@.positioned(),
            callee < old(self)@.module.functions.len(),
        ensures
            lowering_matches(spec_value_call(old(self)@, callee, args@, label@), final(self)@, r),
            r is Ok ==> final(self)@.appends_to(old(self)@),
            r matches Ok(v) ==> final(self)@.sees(v),
            r is Ok && old(self)@.grounded() && old(self)@.sees_all(args@)
                ==> final(self)@.grounded(),
            r is Ok ==> final(self)@.inserts_after(old(self)@),
    {
        if self.return_type(callee).is_none() {
            return Err(CodegenError::new(ErrorCode::CallWithoutValue, label));
        }
        Ok(self.emit(Instr::Call { callee, args, name: label.to_owned() }))
    }

    /// Calls the host function at `callee`, which the source calls `name`
    /// and whose result has type `ty`.
    pub fn call_result(&mut self, callee: usize, args: Vec<Operand>, name: &str, ty: OtterType) -> (r: Result<
        EvaluatedValue,
        CodegenError,
    >)
        requires
            old(self)@.positioned(),
            callee < old(self)@.module.functions.len(),
        ensures
            value_matches(
                spec_call_result(old(self)@, callee, args@, name@, ty),
                old(self)@,
                final(self)@,
                r,
            ),
            r is Ok && old(self)@.grounded() && old(self)@.sees_all(args@)
                ==> final(self)@.grounded(),
            r is Ok ==> final(self)@.inserts_after(old(self)@),
    {
        let yields = self.return_type(callee).is_some();
        let call = self.emit(Instr::Call { callee, args, name: make_call_label(name) });
        match ty {
            OtterType::Unit => Ok(EvaluatedValue::unit()),
            _ => if yields {
                Ok(EvaluatedValue::with_value(call, ty))
            } else {
                Err(CodegenError::new(ErrorCode::CallWithoutValue, name))
            },
        }
    }

    /// Calls the clock and converts its result to a float.
    pub fn time_now(&mut self) -> (r: Result<EvaluatedValue, CodegenError>)
        requires
            old(self)@.positioned(),
        ensures
            value_matches(spec_time_now(old(self)@), old(self)@, final(self)@, r),
            r is Ok && old(self)@.grounded() ==> final(self)@.grounded(),
            r is Ok ==> final(self)@.inserts_after(old(self)@),
    {
        let function = self.declare_symbol_function("std.time.now")?;
        let ret = self.return_type(function);
        let call = self.emit(
            Instr::Call { callee: function, args: Vec::new(), name: "call_time_now".to_owned() },
        );
        match ret {
            None => Err(CodegenError::new(ErrorCode::CallWithoutValue, "time.now")),
            Some(ty) => if ty.is_int() {
                Ok(self.int_to_float(EvaluatedValue::with_value(call, OtterType::I64), "int_to_float"))
            } else if ty.is_float() {
                Ok(EvaluatedValue::with_value(call, OtterType::F64))
            } else {
                Err(CodegenError::new(ErrorCode::UnexpectedReturnType, "time.now"))
            },
        }
    }

    /// Applies `print` or `println` to an evaluated argument.
    pub fn lower_print(&mut self, name: &str, arg: EvaluatedValue) -> (r: Result<EvaluatedValue, CodegenError>)
        requires
            old(self)@.positioned(),
            arg.wf(),
        ensures
            value_matches(spec_lower_print(old(self)@, name@, arg), old(self)@, final(self)@, r),
            r is Ok && old(self)@.grounded() && old(self)@.sees_value(arg)
                ==> final(self)@.grounded(),
            r is Ok ==> final(self)@.inserts_after(old(self)@),
    {
        if arg.ty != OtterType::Str {
            return Err(CodegenError::new(ErrorCode::PrintNotString(arg.ty), name));
        }
        let mut args: Vec<Operand> = Vec::new();
        args.push(arg.value.unwrap());
        assert(args@ =~= seq![arg.value.unwrap()]);
        self.call_symbol("std.io.println", args)?;
        Ok(EvaluatedValue::unit())
    }

    /// Coerces an argument of a user function to the type of its parameter.
    pub fn coerce_argument(&mut self, value: EvaluatedValue, param: Option<IrType>) -> (coerced: EvaluatedValue)
        requires
            old(self)@.positioned(),
            value.wf(),
        ensures
            (final(self)@, coerced) == spec_coerce_argument(old(self)@, value, param),
            coerced.wf(),
            final(self)@.appends_to(old(self)@),
            old(self)@.sees_value(value) ==> final(self)@.sees_value(coerced),
            old(self)@.grounded() && old(self)@.sees_value(value) ==> final(self)@.grounded(),
    {
        match param {
            Some(ty) => {
                if ty.is_int() && value.ty == OtterType::F64 {
                    let converted = self.emit(
                        Instr::Unary {
                            kind: UnaryKind::FloatToSigned,
                            value: value.value.unwrap(),
                            name: "float_to_int".to_owned(),
                        },
                    );
                    EvaluatedValue::with_value(converted, OtterType::I64)
                } else if ty.is_float() && value.ty == OtterType::I64 {
                    self.int_to_float(value, "int_to_float")
                } else {
                    value
                }
            },
            None => value,
        }
    }

    /// The type of parameter `index` of function `callee`, if it has so many.
    pub fn param_at(&self, callee: usize, index: usize) -> (ty: Option<IrType>)
        requires
            callee < self@.module.functions.len(),
        ensures
            ty == spec_param_at(self@, callee, index as int),
    {
        if index < self.param_count(callee) {
            Some(self.param_type(callee, index))
        } else {
            None
        }
    }

    /// Finds or declares the runtime helpers that interpolated strings call.
    pub fn declare_helpers(&mut self) -> (helpers: FStringHelpers)
        requires
            old(self)@.positioned(),
        ensures
            (final(self)@, helpers) == spec_declare_helpers(old(self)@),
            final(self)@.appends_to(old(self)@),
            final(self)@.current_fn().blocks == old(self)@.current_fn().blocks,
            helpers.format_float < final(self)@.module.functions.len(),
            helpers.format_int < final(self)@.module.functions.len(),
            helpers.concat < final(self)@.module.functions.len(),
            helpers.free < final(self)@.module.functions.len(),
            old(self)@.grounded() ==> final(self)@.grounded(),
            helpers_declared(final(self)@.module),
    {
        let float_params = vec![IrType::F64];
        let int_params = vec![IrType::I64];
        let concat_params = vec![IrType::Ptr, IrType::Ptr];
        let free_params = vec![IrType::Ptr];
        proof {
            assert(float_params@ =~= format_float_type().params);
            assert(int_params@ =~= format_int_type().params);
            assert(concat_params@ =~= concat_type().params);
            assert(free_params@ =~= free_type().params);
        }
        let format_float = self.get_or_declare(
            "otter_format_float",
            FnType { params: float_params, ret: Some(IrType::Ptr) },
        );
        let ghost first = self@;
        let format_int = self.get_or_declare(
            "otter_format_int",
            FnType { params: int_params, ret: Some(IrType::Ptr) },
        );
        let ghost second = self@;
        let concat = self.get_or_declare(
            "otter_concat_strings",
            FnType { params: concat_params, ret: Some(IrType::Ptr) },
        );
        let ghost third = self@;
        let free = self.get_or_declare("otter_free_string_ptr", FnType { params: free_params, ret: None });
        proof {
            assert(first.module.declares("otter_format_float"@)) by {
                assert(first.module.functions[format_float as int].name == "otter_format_float"@);
            }
            assert(second.module.declares("otter_format_int"@)) by {
                assert(second.module.functions[format_int as int].name == "otter_format_int"@);
            }
            assert(third.module.declares("otter_concat_strings"@)) by {
                assert(third.module.functions[concat as int].name == "otter_concat_strings"@);
            }
            assert(self@.module.declares("otter_free_string_ptr"@)) by {
                assert(self@.module.functions[free as int].name == "otter_free_string_ptr"@);
            }
            lemma_still_declared(first, second, "otter_format_float"@);
            lemma_still_declared(second, third, "otter_format_float"@);
            lemma_still_declared(third, self@, "otter_format_float"@);
            lemma_still_declared(second, third, "otter_format_int"@);
            lemma_still_declared(third, self@, "otter_format_int"@);
            lemma_still_declared(third, self@, "otter_concat_strings"@);
        }
        FStringHelpers { format_float, format_int, concat, free }
    }

    /// Formats one embedded value of an interpolated string.
    pub fn format_part(&mut self, value: EvaluatedValue, helpers: &FStringHelpers) -> (r: Result<
        Operand,
        CodegenError,
    >)
        requires
            old(self)@.positioned(),
            value.wf(),
            helpers.format_float < old(self)@.module.functions.len(),
            helpers.format_int < old(self)@.module.functions.len(),
        ensures
            lowering_matches(spec_format_part(old(self)@, value, *helpers), final(self)@, r),
            r is Ok ==> final(self)@.appends_to(old(self)@),
            r matches Ok(v) ==> (old(self)@.sees_value(value) ==> final(self)@.sees(v)),
            r is Ok && old(self)@.grounded() && old(self)@.sees_value(value)
                ==> final(self)@.grounded(),
    {
        match value.ty {
            OtterType::F64 => {
                let mut args: Vec<Operand> = Vec::new();
                args.push(value.value.unwrap());
                assert(args@ =~= seq![value.value.unwrap()]);
                self.value_call(helpers.format_float, args, "format_float")
            },
            OtterType::I64 => {
                let mut args: Vec<Operand> = Vec::new();
                args.push(value.value.unwrap());
                assert(args@ =~= seq![value.value.unwrap()]);
                self.value_call(helpers.format_int, args, "format_int")
            },
            OtterType::Str => Ok(value.value.unwrap()),
            _ => Err(CodegenError::bare(ErrorCode::FStringType(value.ty))),
        }
    }

    /// Joins the text `piece` onto the text `done`.
    pub fn concat_part(&mut self, done: Operand, piece: Operand, helpers: &FStringHelpers) -> (r: Result<
        Operand,
        CodegenError,
    >)
        requires
            old(self)@.positioned(),
            helpers.concat < old(self)@.module.functions.len(),
        ensures
            lowering_matches(
                spec_value_call(old(self)@, helpers.concat, seq![done, piece], "concat"@),
                final(self)@,
                r,
            ),
            r is Ok ==> final(self)@.appends_to(old(self)@),
            r matches Ok(v) ==> final(self)@.sees(v),
            r is Ok && old(self)@.grounded() && old(self)@.sees(done) && old(self)@.sees(piece)
                ==> final(self)@.grounded(),
            r is Ok ==> final(self)@.inserts_after(old(self)@),
    {
        let mut args: Vec<Operand> = Vec::new();
        args.push(done);
        args.push(piece);
        assert(args@ =~= seq![done, piece]);
        self.value_call(helpers.concat, args, "concat")
    }

    /// Releases the text of an embedded value where it was made by formatting.
    pub fn release_part(&mut self, value: EvaluatedValue, formatted: Operand, helpers: &FStringHelpers)
        requires
            old(self)@.positioned(),
        ensures
            final(self)@ == spec_release_part(old(self)@, value, formatted, *helpers),
            final(self)@.appends_to(old(self)@),
            old(self)@.grounded() && old(self)@.sees(formatted)
                && helpers.free < old(self)@.module.functions.len()
                ==> final(self)@.grounded(),
    {
        if value.ty == OtterType::F64 || value.ty == OtterType::I64 {
            let mut args: Vec<Operand> = Vec::new();
            args.push(formatted);
            assert(args@ =~= seq![formatted]);
            self.emit(Instr::Call { callee: helpers.free, args, name: "free".to_owned() });
        }
    }
}

impl<'a> Compiler<'a> {
    /// Lowers an expression at the cursor and yields its typed value.
    pub fn eval_expr(&mut self, expr: &Expr, ctx: &FunctionContext) -> (r: Result<
        EvaluatedValue,
        CodegenError,
    >)
        requires
            old(self)@.positioned(),
        ensures
            value_matches(spec_eval_expr(old(self)@, ctx@, *expr), old(self)@, final(self)@, r),
            r is Ok && inserts_nothing(*expr)
                ==> final(self)@.current_fn().blocks == old(self)@.current_fn().blocks,
            r is Ok && old(self)@.grounded() && old(self)@.sees_env(ctx@)
                ==> final(self)@.grounded(),
            r is Ok && !inserts_nothing(*expr) ==> final(self)@.inserts_after(old(self)@),
        decreases expr, 0nat,
    {
        match expr {
            Expr::Literal(literal) => self.eval_literal(literal),
            Expr::Identifier(name) => self.eval_identifier(name.as_str(), ctx),
            Expr::Binary { left, op, right } => {
                let lhs = self.eval_expr(&**left, ctx)?;
                let rhs = self.eval_expr(&**right, ctx)?;
                self.lower_binary(*op, lhs, rhs)
            },
            Expr::Unary { op, expr } => {
                let operand = self.eval_expr(&**expr, ctx)?;
                self.lower_unary(*op, operand)
            },
            Expr::Call { func, args } => {
                match &**func {
                    Expr::Identifier(name) => {
                        if str_equal(name.as_str(), "print") || str_equal(name.as_str(), "println") {
                            return self.eval_print(name.as_str(), args, ctx);
                        }
                    },
                    Expr::Member { object, field } => {
                        if let Expr::Identifier(module) = &**object {
                            return match self.eval_member(module.as_str(), field.as_str(), args, ctx)? {
                                Some(value) => Ok(value),
                                None => Err(unknown_member(module.as_str(), field.as_str())),
                            };
                        }
                    },
                    _ => {},
                }
                self.eval_call(&**func, args, ctx)
            },
            Expr::If { .. } => Err(CodegenError::bare(ErrorCode::Unsupported(Feature::IfExpression))),
            Expr::Range { .. } => Err(
                CodegenError::bare(ErrorCode::Unsupported(Feature::RangeOutsideFor)),
            ),
            Expr::FString { parts } => self.eval_fstring(parts, ctx),
            Expr::Member { object, field } => {
                if let Expr::Identifier(module) = &**object {
                    match self.member_value(module.as_str(), field.as_str())? {
                        Some(value) => Ok(value),
                        None => Err(unknown_member(module.as_str(), field.as_str())),
                    }
                } else {
                    Err(CodegenError::bare(ErrorCode::Unsupported(Feature::MemberOnNonModule)))
                }
            },
            Expr::Await(_) => Err(CodegenError::bare(ErrorCode::Unsupported(Feature::Await))),
            Expr::Spawn(_) => Err(CodegenError::bare(ErrorCode::Unsupported(Feature::Spawn))),
        }
    }

    /// Lowers a call of `print` or `println`.
    pub fn eval_print(&mut self, name: &str, args: &Vec<Expr>, ctx: &FunctionContext) -> (r: Result<
        EvaluatedValue,
        CodegenError,
    >)
        requires
            old(self)@.positioned(),
        ensures
            value_matches(spec_eval_print(old(self)@, ctx@, name@, args@), old(self)@, final(self)@, r),
            r is Ok && old(self)@.grounded() && old(self)@.sees_env(ctx@)
                ==> final(self)@.grounded(),
            r is Ok ==> final(self)@.inserts_after(old(self)@),
        decreases args@, args@.len() + 1,
    {
        if args.len() != 1 {
            return Err(CodegenError::new(ErrorCode::PrintArity, name));
        }
        let evaluated = self.eval_expr(&args[0], ctx)?;
        self.lower_print(name, evaluated)
    }

    /// Lowers the arguments of a call, each of which must be a value.
    pub fn eval_args(&mut self, args: &Vec<Expr>, ctx: &FunctionContext) -> (r: Result<
        Vec<Operand>,
        CodegenError,
    >)
        requires
            old(self)@.positioned(),
        ensures
            operands_match(
                spec_eval_args(old(self)@, ctx@, args@, 0, Seq::empty()),
                old(self)@,
                final(self)@,
                r,
            ),
            r is Ok && old(self)@.grounded() && old(self)@.sees_env(ctx@)
                ==> final(self)@.grounded(),
        decreases args@, args@.len(),
    {
        let ghost start = self@;
        let mut lowered: Vec<Operand> = Vec::new();
        let mut i: usize = 0;
        while i < args.len()
            invariant
                self@.sees_all(lowered@),
                start.grounded() && start.sees_env(ctx@) ==> self@.grounded(),
                i <= args.len(),
                start == old(self)@,
                self@.appends_to(start),
                spec_eval_args(start, ctx@, args@, 0, Seq::empty()) == spec_eval_args(
                    self@,
                    ctx@,
                    args@,
                    i as int,
                    lowered@,
                ),
            decreases args.len() - i,
        {
            let value = self.eval_expr(&args[i], ctx)?;
            lowered.push(value_to_metadata(&value)?);
            i += 1;
        }
        Ok(lowered)
    }

    /// Lowers the arguments of a call of a host function and checks each
    /// against the type of its parameter.
    pub fn eval_typed_args(
        &mut self,
        args: &Vec<Expr>,
        params: &Vec<FfiType>,
        name: &str,
        ctx: &FunctionContext,
    ) -> (r: Result<Vec<Operand>, CodegenError>)
        requires
            old(self)@.positioned(),
            args@.len() == params@.len(),
        ensures
            operands_match(
                spec_eval_typed_args(old(self)@, ctx@, args@, params@, name@, 0, Seq::empty()),
                old(self)@,
                final(self)@,
                r,
            ),
            r is Ok && old(self)@.grounded() && old(self)@.sees_env(ctx@)
                ==> final(self)@.grounded(),
        decreases args@, args@.len(),
    {
        let ghost start = self@;
        let mut lowered: Vec<Operand> = Vec::new();
        let mut i: usize = 0;
        while i < args.len()
            invariant
                self@.sees_all(lowered@),
                start.grounded() && start.sees_env(ctx@) ==> self@.grounded(),
                i <= args.len(),
                start == old(self)@,
                args@.len() == params@.len(),
                self@.appends_to(start),
                spec_eval_typed_args(start, ctx@, args@, params@, name@, 0, Seq::empty())
                    == spec_eval_typed_args(self@, ctx@, args@, params@, name@, i as int, lowered@),
            decreases args.len() - i,
        {
            let value = self.eval_expr(&args[i], ctx)?;
            let expected: OtterType = OtterType::from(params[i]);
            if value.ty != expected {
                return Err(
                    CodegenError::new(
                        ErrorCode::ArgumentTypeMismatch { expected, found: value.ty },
                        name,
                    ),
                );
            }
            lowered.push(value_to_metadata(&value)?);
            i += 1;
        }
        Ok(lowered)
    }

    /// Lowers the arguments of a call of user function `callee` and coerces
    /// each to the type of its parameter.
    pub fn eval_coerced_args(&mut self, args: &Vec<Expr>, callee: usize, ctx: &FunctionContext) -> (r: Result<
        Vec<Operand>,
        CodegenError,
    >)
        requires
            old(self)@.positioned(),
            callee < old(self)@.module.functions.len(),
        ensures
            operands_match(
                spec_eval_coerced_args(old(self)@, ctx@, args@, callee, 0, Seq::empty()),
                old(self)@,
                final(self)@,
                r,
            ),
            r is Ok && old(self)@.grounded() && old(self)@.sees_env(ctx@)
                ==> final(self)@.grounded(),
        decreases args@, args@.len(),
    {
        let ghost start = self@;
        let mut lowered: Vec<Operand> = Vec::new();
        let mut i: usize = 0;
        while i < args.len()
            invariant
                self@.sees_all(lowered@),
                start.grounded() && start.sees_env(ctx@) ==> self@.grounded(),
                i <= args.len(),
                start == old(self)@,
                self@.appends_to(start),
                callee < start.module.functions.len(),
                spec_eval_coerced_args(start, ctx@, args@, callee, 0, Seq::empty())
                    == spec_eval_coerced_args(self@, ctx@, args@, callee, i as int, lowered@),
            decreases args.len() - i,
        {
            let value = self.eval_expr(&args[i], ctx)?;
            let param = self.param_at(callee, i);
            let value = self.coerce_argument(value, param);
            lowered.push(value_to_metadata(&value)?);
            i += 1;
        }
        Ok(lowered)
    }

    /// Lowers a call of the host function `symbol`, which the source calls
    /// `name`.
    pub fn registry_call(
        &mut self,
        name: &str,
        symbol: &FfiFunction,
        args: &Vec<Expr>,
        ctx: &FunctionContext,
    ) -> (r: Result<EvaluatedValue, CodegenError>)
        requires
            old(self)@.positioned(),
        ensures
            value_matches(
                spec_registry_call(old(self)@, ctx@, name@, *symbol, args@),
                old(self)@,
                final(self)@,
                r,
            ),
            r is Ok && old(self)@.grounded() && old(self)@.sees_env(ctx@)
                ==> final(self)@.grounded(),
            r is Ok ==> final(self)@.inserts_after(old(self)@),
        decreases args@, args@.len() + 1,
    {
        if symbol.signature.params.len() != args.len() {
            return Err(
                CodegenError::new(
                    ErrorCode::ArityMismatch { params: symbol.signature.params.len(), args: args.len() },
                    name,
                ),
            );
        }
        let function = self.declare_symbol_function(name)?;
        let lowered = self.eval_typed_args(args, &symbol.signature.params, name, ctx)?;
        self.call_result(function, lowered, name, OtterType::from(symbol.signature.result))
    }

    /// Lowers a call of user function `callee`, which the source calls `name`.
    pub fn user_call(&mut self, name: &str, callee: usize, args: &Vec<Expr>, ctx: &FunctionContext) -> (r: Result<
        EvaluatedValue,
        CodegenError,
    >)
        requires
            old(self)@.positioned(),
            callee < old(self)@.module.functions.len(),
        ensures
            value_matches(
                spec_user_call(old(self)@, ctx@, name@, callee, args@),
                old(self)@,
                final(self)@,
                r,
            ),
            r is Ok && old(self)@.grounded() && old(self)@.sees_env(ctx@)
                ==> final(self)@.grounded(),
            r is Ok ==> final(self)@.inserts_after(old(self)@),
        decreases args@, args@.len() + 1,
    {
        let lowered = self.eval_coerced_args(args, callee, ctx)?;
        let ret = self.return_type(callee);
        let call = self.emit(Instr::Call { callee, args: lowered, name: make_user_call_label(name) });
        match ret {
            None => Ok(EvaluatedValue::unit()),
            Some(ty) => {
                let otter_ty = if ty.is_float() {
                    OtterType::F64
                } else if ty.is_int() {
                    OtterType::I64
                } else {
                    OtterType::I32
                };
                Ok(EvaluatedValue::with_value(call, otter_ty))
            },
        }
    }

    /// Lowers a call: `callee` must be a bare name, of a host function of
    /// the registry or else of a function of the module.
    pub fn eval_call(&mut self, callee: &Expr, args: &Vec<Expr>, ctx: &FunctionContext) -> (r: Result<
        EvaluatedValue,
        CodegenError,
    >)
        requires
            old(self)@.positioned(),
        ensures
            value_matches(
                spec_eval_call(old(self)@, ctx@, *callee, args@),
                old(self)@,
                final(self)@,
                r,
            ),
            r is Ok && old(self)@.grounded() && old(self)@.sees_env(ctx@)
                ==> final(self)@.grounded(),
            r is Ok ==> final(self)@.inserts_after(old(self)@),
        decreases args@, args@.len() + 3,
    {
        match callee {
            Expr::Identifier(name) => {
                if let Some(symbol) = self.resolve(name.as_str()) {
                    self.registry_call(name.as_str(), symbol, args, ctx)
                } else if let Some(function) = self.get_function(name.as_str()) {
                    self.user_call(name.as_str(), function, args, ctx)
                } else {
                    Err(CodegenError::new(ErrorCode::UnknownFunction, name.as_str()))
                }
            },
            _ => Err(CodegenError::bare(ErrorCode::Unsupported(Feature::NonIdentifierCallee))),
        }
    }

    /// Lowers a call of member `field` of module `module`; no value where
    /// the registry knows no such member.
    pub fn eval_member(&mut self, module: &str, field: &str, args: &Vec<Expr>, ctx: &FunctionContext) -> (r: Result<
        Option<EvaluatedValue>,
        CodegenError,
    >)
        requires
            old(self)@.positioned(),
        ensures
            lowering_matches(
                spec_eval_member(old(self)@, ctx@, module@, field@, args@),
                final(self)@,
                r,
            ),
            r matches Ok(found) ==> final(self)@.appends_to(old(self)@) && (found matches Some(v)
                ==> v.wf() && final(self)@.sees_value(v)),
            r is Ok && old(self)@.grounded() && old(self)@.sees_env(ctx@)
                ==> final(self)@.grounded(),
            r matches Ok(Some(_)) ==> final(self)@.inserts_after(old(self)@),
        decreases args@, args@.len() + 1,
    {
        if str_equal(module, "time") && str_equal(field, "now") {
            return Ok(Some(self.time_now()?));
        }
        let result = match self.resolve_member(module, field) {
            Some(entry) => entry.signature.result,
            None => {
                return Ok(None);
            },
        };
        let name = canonical_member_name(module, field);
        let function = self.declare_symbol_function(name.as_str())?;
        let lowered = self.eval_args(args, ctx)?;
        Ok(Some(self.call_result(function, lowered, name.as_str(), OtterType::from(result))?))
    }

    /// Reads member `field` of module `module`, which calls it without
    /// arguments; no value where the registry knows no such member.
    pub fn member_value(&mut self, module: &str, field: &str) -> (r: Result<
        Option<EvaluatedValue>,
        CodegenError,
    >)
        requires
            old(self)@.positioned(),
        ensures
            lowering_matches(spec_member_value(old(self)@, module@, field@), final(self)@, r),
            r matches Ok(found) ==> final(self)@.appends_to(old(self)@) && (found matches Some(v)
                ==> v.wf() && final(self)@.sees_value(v)),
            r is Ok && old(self)@.grounded() ==> final(self)@.grounded(),
            r matches Ok(Some(_)) ==> final(self)@.inserts_after(old(self)@),
    {
        if str_equal(module, "time") && str_equal(field, "now") {
            return Ok(Some(self.time_now()?));
        }
        let result = match self.resolve_member(module, field) {
            Some(entry) => entry.signature.result,
            None => {
                return Ok(None);
            },
        };
        let name = canonical_member_name(module, field);
        let function = self.declare_symbol_function(name.as_str())?;
        Ok(Some(self.call_result(function, Vec::new(), name.as_str(), OtterType::from(result))?))
    }

    /// Lowers an interpolated string to calls of the runtime helpers.
    #[verifier::rlimit(40)]
    pub fn eval_fstring(&mut self, parts: &Vec<FStringPart>, ctx: &FunctionContext) -> (r: Result<
        EvaluatedValue,
        CodegenError,
    >)
        requires
            old(self)@.positioned(),
        ensures
            value_matches(spec_eval_fstring(old(self)@, ctx@, parts@), old(self)@, final(self)@, r),
            r is Ok && parts@.len() == 0
                ==> final(self)@.current_fn().blocks == old(self)@.current_fn().blocks,
            r is Ok && old(self)@.grounded() && old(self)@.sees_env(ctx@)
                ==> final(self)@.grounded(),
            r is Ok && parts@.len() > 0 ==> final(self)@.inserts_after(old(self)@),
            r is Ok ==> helpers_declared(final(self)@.module),
            r is Ok && old(self)@.module.unique_names() ==> helpers_declared_once(final(self)@.module),
        decreases parts@, parts@.len() + 1,
    {
        let ghost start = self@;
        let helpers = self.declare_helpers();
        let ghost declared = self@;
        let mut result = self.add_string("empty_str", "");
        proof {
            lemma_helpers_still_declared(declared, self@);
        }
        proof {
            reveal_strlit("");
            assert(""@ =~= Seq::<char>::empty());
        }
        let ghost begun = self@;
        let ghost first = result;
        let mut i: usize = 0;
        while i < parts.len()
            invariant
                i > 0 ==> self@.inserts_after(start),
                helpers_declared(self@.module),
                self@.sees(result),
                start.grounded() && start.sees_env(ctx@) ==> self@.grounded(),
                i <= parts.len(),
                start == old(self)@,
                i == 0 ==> self@.current_fn().blocks == start.current_fn().blocks,
                (begun, helpers) == (spec_declare_helpers(start).0.add_string("empty_str"@, Seq::empty()), spec_declare_helpers(start).1),
                first == spec_declare_helpers(start).0.next_string(),
                self@.appends_to(start),
                helpers.format_float < self@.module.functions.len(),
                helpers.format_int < self@.module.functions.len(),
                helpers.concat < self@.module.functions.len(),
                helpers.free < self@.module.functions.len(),
                spec_fstring_parts(begun, ctx@, parts@, 0, first, helpers) == spec_fstring_parts(
                    self@,
                    ctx@,
                    parts@,
                    i as int,
                    result,
                    helpers,
                ),
            decreases parts.len() - i,
        {
            let ghost before = self@;
            match &parts[i] {
                FStringPart::Text(text) => {
                    let piece = self.add_string("fstr_text", text.as_str());
                    result = self.concat_part(result, piece, &helpers)?;
                },
                FStringPart::Expr(expr) => {
                    let evaluated = self.eval_expr(&**expr, ctx)?;
                    let formatted = self.format_part(evaluated, &helpers)?;
                    let joined = self.concat_part(result, formatted, &helpers)?;
                    self.release_part(evaluated, formatted, &helpers);
                    result = joined;
                },
            }
            proof {
                assert(self@.continues(before));
                lemma_helpers_still_declared(before, self@);
            }
            i += 1;
        }
        proof {
            if start.module.unique_names() {
                lemma_helpers_declared_once(self@.module);
            }
        }
        Ok(EvaluatedValue::with_value(result, OtterType::Str))
    }
}

} // verus!
