//! What holds of lowering in general, stated over the functions that say
//! what lowering yields.

use crate::ast::{BinaryOp, Expr, Function, Statement};
use crate::error::ErrorCode;
use crate::eval::{
    canonical_member, is_time_now, spec_call_named, spec_call_result, spec_clock_result, spec_member_value,
    spec_user_call, Env,
};
use crate::expr::{failed, spec_lower_binary, Failed};
use crate::ffi::{ffi_ir_type, spec_declare_symbol, spec_ffi_fn_type, spec_get_or_declare, FnTypeView};
use crate::ir::{
    count_named, lemma_count_named, lemma_first_named, lemma_first_named_push, BinaryKind,
    FunctionView, InstrView, Operand, UnaryKind,
};
use crate::program::{
    default_return, spec_declare_all, spec_declare_function, spec_finish_function, spec_return_type,
};
use crate::state::{CompilerView, EvaluatedValue};
use crate::symbols::semantic_type;
use crate::types::{ir_type_of, OtterType};
use vstd::prelude::*;

verus! {

/// Declaration is idempotent: a function that was found or declared under
/// a name is found again, at the same place, with the module unchanged;
/// and if the module had no function of that name, it has exactly one
/// afterwards.
pub proof fn lemma_get_or_declare_idempotent(c: CompilerView, name: Seq<char>, ty: FnTypeView)
    ensures
        ({
            let (once, place) = spec_get_or_declare(c, name, ty);
            &&& spec_get_or_declare(once, name, ty) == (once, place)
            &&& count_named(c.module.functions, name) == 0 ==> count_named(
                once.module.functions,
                name,
            ) == 1
            &&& count_named(c.module.functions, name) > 0 ==> once == c
        }),
{
    let functions = c.module.functions;
    let (once, place) = spec_get_or_declare(c, name, ty);
    lemma_first_named(functions, name, 0);
    lemma_count_named(functions, name);
    match c.module.find_function(name) {
        Some(i) => {},
        None => {
            let added = FunctionView::declaration(name, ty.params, ty.ret);
            lemma_first_named_push(functions, added, name, 0);
            assert(once.module.functions == functions.push(added));
            assert(functions.push(added).drop_last() =~= functions);
        },
    }
}

/// The session after the host function that `name` resolves to was
/// referred to `times` times.
pub open spec fn spec_declare_repeatedly(c: CompilerView, name: Seq<char>, times: nat) -> Result<
    (CompilerView, usize),
    Failed,
>
    decreases times,
{
    if times <= 1 {
        spec_declare_symbol(c, name)
    } else {
        match spec_declare_symbol(c, name) {
            Err(e) => Err(e),
            Ok((c, _)) => spec_declare_repeatedly(c, name, (times - 1) as nat),
        }
    }
}

/// A host function that is referred to once or many times is declared
/// once: every reference yields the same session and the same place as
/// the first, and a module that did not hold the symbol holds exactly one
/// function of that name afterwards.
pub proof fn lemma_declared_once(c: CompilerView, name: Seq<char>, times: nat)
    requires
        times >= 1,
    ensures
        spec_declare_repeatedly(c, name, times) == spec_declare_symbol(c, name),
        match spec_declare_symbol(c, name) {
            Ok((after, place)) => {
                let symbol = c.registry[name].symbol@;
                &&& count_named(c.module.functions, symbol) == 0 ==> count_named(
                    after.module.functions,
                    symbol,
                ) == 1
                &&& count_named(c.module.functions, symbol) > 0 ==> after == c
            },
            Err(_) => true,
        },
    decreases times,
{
    match spec_declare_symbol(c, name) {
        Err(_) => {},
        Ok((after, place)) => {
            let symbol = c.registry[name].symbol@;
            lemma_first_named(c.module.functions, symbol, 0);
            lemma_count_named(c.module.functions, symbol);
            if c.module.find_function(symbol) is None {
                let ty = spec_ffi_fn_type(c.registry[name].signature)->Ok_0;
                lemma_get_or_declare_idempotent(c, symbol, ty);
            }
            assert(spec_declare_symbol(after, name) == spec_declare_symbol(c, name));
            if times > 1 {
                lemma_declared_once(after, name, (times - 1) as nat);
            }
        },
    }
}

/// A host function that the module did not hold is declared with exactly
/// the type that its registry signature maps to: parameter by parameter,
/// and the result, under the name of its symbol.
pub proof fn lemma_declaration_matches_signature(c: CompilerView, name: Seq<char>)
    requires
        c.module.functions.len() <= usize::MAX,
        c.registry.contains_key(name),
        c.module.find_function(c.registry[name].symbol@) is None,
        spec_declare_symbol(c, name) is Ok,
    ensures
        ({
            let entry = c.registry[name];
            let (after, place) = spec_declare_symbol(c, name)->Ok_0;
            let declared = after.module.functions[place as int];
            &&& place == c.module.functions.len()
            &&& declared.name == entry.symbol@
            &&& declared.params.len() == entry.signature.params@.len()
            &&& forall|i: int|
                0 <= i < declared.params.len() ==> Some(#[trigger] declared.params[i])
                    == ffi_ir_type(entry.signature.params@[i])
            &&& declared.ret == ffi_ir_type(entry.signature.result)
            &&& declared.blocks.len() == 0
        }),
{
    let entry = c.registry[name];
    let (after, place) = spec_declare_symbol(c, name)->Ok_0;
    let ty = spec_ffi_fn_type(entry.signature)->Ok_0;
    assert(entry.signature.wf());
    assert(after.module.functions == c.module.functions.push(
        FunctionView::declaration(entry.symbol@, ty.params, ty.ret),
    ));
    assert forall|i: int| 0 <= i < ty.params.len() implies Some(#[trigger] ty.params[i]) == ffi_ir_type(
        entry.signature.params@[i],
    ) by {
        assert(entry.signature.params@[i] != crate::symbols::FfiType::Unit);
    }
}

/// Mixed addition is coerced to float addition whichever side the integer
/// stands on: the integer is converted to a float, and the float sum of
/// the converted value and the other operand is built, in the order of the
/// operands.
pub proof fn lemma_mixed_addition(c: CompilerView, a: EvaluatedValue, b: EvaluatedValue)
    requires
        a.ty == OtterType::I64,
        b.ty == OtterType::F64,
        a.wf(),
        b.wf(),
    ensures
        ({
            let converted = InstrView::Unary {
                kind: UnaryKind::SignedToFloat,
                value: a.value->0,
                name: "inttofloat"@,
            };
            let as_float = c.next_value();
            let sum = c.emit(converted).next_value();
            &&& spec_lower_binary(c, BinaryOp::Add, a, b) == Ok::<
                (CompilerView, EvaluatedValue),
                Failed,
            >(
                (
                    c.emit(converted).emit(
                        InstrView::Binary {
                            kind: BinaryKind::FloatAdd,
                            lhs: as_float,
                            rhs: b.value->0,
                            name: "addtmp"@,
                        },
                    ),
                    EvaluatedValue::with_value(sum, OtterType::F64),
                ),
            )
            &&& spec_lower_binary(c, BinaryOp::Add, b, a) == Ok::<
                (CompilerView, EvaluatedValue),
                Failed,
            >(
                (
                    c.emit(converted).emit(
                        InstrView::Binary {
                            kind: BinaryKind::FloatAdd,
                            lhs: b.value->0,
                            rhs: as_float,
                            name: "addtmp"@,
                        },
                    ),
                    EvaluatedValue::with_value(sum, OtterType::F64),
                ),
            )
        }),
{
}

/// Is `value` what a function of result type `ty` returns by default:
/// nothing for `Unit`, and else the zero of the machine type of `ty`?
pub open spec fn is_default_of(value: Option<Operand>, ty: OtterType) -> bool {
    match value {
        None => ty == OtterType::Unit,
        Some(Operand::ConstInt { ty: t, value }) => value == 0 && ir_type_of(ty) == Some(t) && t.is_int(),
        Some(Operand::ConstFloat { bits }) => bits == 0 && ty == OtterType::F64,
        Some(Operand::Null) => ty == OtterType::Str,
        _ => false,
    }
}

/// A function whose body leaves the block under the cursor without a
/// terminator returns by default: the block then ends in a return of
/// nothing for `Unit`, and of zero of the declared result type otherwise.
/// Either way the block under the cursor ends in a terminator, and
/// finishing succeeds wherever the result type is known.
pub proof fn lemma_default_return(c: CompilerView, function: Function)
    requires
        c.positioned(),
        spec_finish_function(c, function) is Ok,
    ensures
        ({
            let after = spec_finish_function(c, function)->Ok_0.0;
            &&& after.terminated()
            &&& c.terminated() ==> after == c
            &&& !c.terminated() ==> {
                &&& spec_return_type(function) is Ok
                &&& after.current_block().instrs == c.current_block().instrs.push(
                    after.current_block().instrs.last(),
                )
                &&& after.current_block().instrs.last() matches InstrView::Return { value }
                &&& is_default_of(value, spec_return_type(function)->Ok_0)
            }
        }),
{
    if !c.terminated() {
        let ty = spec_return_type(function)->Ok_0;
        let value = default_return(ty);
        let after = c.emit(InstrView::Return { value });
        assert(after.current_block().instrs == c.current_block().instrs.push(
            InstrView::Return { value },
        ));
    }
}

/// The registry name of the clock is `std.time.now`.
pub proof fn lemma_clock_name()
    ensures
        canonical_member("time"@, "now"@) == "std.time.now"@,
{
    reveal_strlit("time");
    reveal_strlit("now");
    reveal_strlit("std.time");
    reveal_strlit(".");
    reveal_strlit("std.time.now");
    assert(canonical_member("time"@, "now"@) =~= "std.time.now"@);
}

/// A member access resolves as the registry lookup of its dotted name
/// does. Where the registry does not know the name, the access yields no
/// value (for the clock, which must be known, that is an error). Where it
/// knows the name, the function that is called is the one that a
/// reference to the dotted name finds or declares.
pub proof fn lemma_member_resolves_by_dotted_name(c: CompilerView, module: Seq<char>, field: Seq<char>)
    ensures
        ({
            let name = canonical_member(module, field);
            let resolved = spec_member_value(c, module, field);
            match c.registry.get(name) {
                None => resolved == if is_time_now(module, field) {
                    Err::<(CompilerView, Option<EvaluatedValue>), Failed>(
                        failed(c, ErrorCode::UnresolvedSymbol, name),
                    )
                } else {
                    Ok::<(CompilerView, Option<EvaluatedValue>), Failed>((c, None))
                },
                Some(entry) => match spec_declare_symbol(c, name) {
                    Err(e) => resolved == Err::<(CompilerView, Option<EvaluatedValue>), Failed>(
                        e,
                    ),
                    Ok((declared, callee)) => {
                        let called = if is_time_now(module, field) {
                            spec_clock_result(declared, callee)
                        } else {
                            spec_call_result(
                                declared,
                                callee,
                                Seq::empty(),
                                name,
                                semantic_type(entry.signature.result),
                            )
                        };
                        match called {
                            Err(e) => resolved == Err::<
                                (CompilerView, Option<EvaluatedValue>),
                                Failed,
                            >(e),
                            Ok((after, value)) => resolved == Ok::<
                                (CompilerView, Option<EvaluatedValue>),
                                Failed,
                            >((after, Some(value))),
                        }
                    },
                },
            }
        }),
{
    lemma_clock_name();
}

/// A name that is declared stays declared through the declaration pass.
pub proof fn lemma_declaration_pass_keeps(c: CompilerView, statements: Seq<Statement>, from: int, name: Seq<char>)
    requires
        0 <= from,
        c.module.declares(name),
        spec_declare_all(c, statements, from) is Ok,
    ensures
        spec_declare_all(c, statements, from)->Ok_0.0.module.declares(name),
    decreases statements.len() - from,
{
    if from < statements.len() {
        let i = choose|i: int| 0 <= i < c.module.functions.len() && (#[trigger] c.module.functions[i]).name == name;
        match statements[from] {
            Statement::Function(function) => {
                let next = spec_declare_function(c, function)->Ok_0.0;
                assert(next.module.functions[i] == c.module.functions[i]);
                lemma_declaration_pass_keeps(next, statements, from + 1, name);
            },
            _ => {
                lemma_declaration_pass_keeps(c, statements, from + 1, name);
            },
        }
    }
}

/// The order in which functions are defined does not matter to calls:
/// once the declaration pass is through, every function of the program is
/// found by its name, wherever it is defined, before any body is lowered.
pub proof fn lemma_declared_before_bodies(c: CompilerView, statements: Seq<Statement>, from: int, at: int)
    requires
        0 <= from <= at < statements.len(),
        statements[at] is Function,
        spec_declare_all(c, statements, from) is Ok,
    ensures
        ({
            let declared = spec_declare_all(c, statements, from)->Ok_0.0;
            let name = statements[at]->Function_0.name@;
            declared.module.declares(name) && declared.module.find_function(name) is Some
        }),
    decreases statements.len() - from,
{
    let name = statements[at]->Function_0.name@;
    match statements[from] {
        Statement::Function(function) => {
            let next = spec_declare_function(c, function)->Ok_0.0;
            if from == at {
                assert(next.module.functions[c.module.functions.len() as int].name == name);
                lemma_declaration_pass_keeps(next, statements, from + 1, name);
            } else {
                lemma_declared_before_bodies(next, statements, from + 1, at);
            }
        },
        _ => {
            lemma_declared_before_bodies(c, statements, from + 1, at);
        },
    }
    lemma_first_named(spec_declare_all(c, statements, from)->Ok_0.0.module.functions, name, 0);
}

/// A call of a name that the module declares is never refused as a call
/// of an unknown function: where the registry does not know the name, it
/// is a call of the first function so named.
pub proof fn lemma_declared_name_is_called(c: CompilerView, env: Env, name: Seq<char>, args: Seq<Expr>)
    requires
        c.module.declares(name),
        c.registry.get(name) is None,
    ensures
        c.module.find_function(name) matches Some(callee) && spec_call_named(c, env, name, args) == spec_user_call(
            c,
            env,
            name,
            callee as usize,
            args,
        ),
{
    lemma_first_named(c.module.functions, name, 0);
}

} // verus!
