//! Lowering of functions and of whole programs.
//!
//! Functions are declared in a first pass and their bodies lowered in a
//! second, so that a call may refer to a function that is defined later.

use crate::ast::{Function, Param, Program, Statement};
use crate::error::{failure, CodegenError, CodegenErrorView, ErrorCode};
use crate::eval::{holds_values, Env};
use crate::expr::{failed, lowering_matches, Failed, Lowered};
use crate::ir::{Instr, InstrView, ModuleIr, ModuleView, Operand};
use crate::state::{Compiler, CompilerView, FunctionContext, Variable};
use crate::stmt::{returns_from, spec_lower_statements, tidy_from};
use crate::symbols::SymbolRegistry;
use crate::types::{ir_type_of, named_type, str_equal, IrType, OtterType};
use vstd::prelude::*;

verus! {

/// The type that an optional annotation stands for: the named type, or
/// `default` where nothing is written.
pub open spec fn annotated_type(annotation: Option<String>, default: OtterType) -> Result<
    OtterType,
    CodegenErrorView,
> {
    match annotation {
        None => Ok(default),
        Some(name) => match named_type(name@) {
            Some(ty) => Ok(ty),
            None => Err(failure(ErrorCode::UnknownType, name@)),
        },
    }
}

/// The type of a parameter: a float where nothing is written.
pub open spec fn spec_param_type(param: Param) -> Result<OtterType, CodegenErrorView> {
    annotated_type(param.ty, OtterType::F64)
}

/// The result type of a function: a 32-bit integer where nothing is written.
pub open spec fn spec_return_type(function: Function) -> Result<OtterType, CodegenErrorView> {
    annotated_type(function.ret_ty, OtterType::I32)
}

/// The machine types of the parameters from `from` on, behind `done`.
pub open spec fn spec_param_types(params: Seq<Param>, from: int, done: Seq<IrType>) -> Result<
    Seq<IrType>,
    CodegenErrorView,
>
    decreases params.len() - from,
{
    if 0 <= from < params.len() {
        match spec_param_type(params[from]) {
            Err(e) => Err(e),
            Ok(ty) => match ir_type_of(ty) {
                None => Err(failure(ErrorCode::UnitRepresentation, Seq::empty())),
                Some(t) => spec_param_types(params, from + 1, done.push(t)),
            },
        }
    } else {
        Ok(done)
    }
}

/// The session after `function` was declared, and the place of the
/// declaration.
pub open spec fn spec_declare_function(c: CompilerView, function: Function) -> Lowered<usize> {
    match spec_param_types(function.params@, 0, Seq::empty()) {
        Err(e) => Err(Failed { state: c, error: e }),
        Ok(params) => match spec_return_type(function) {
            Err(e) => Err(Failed { state: c, error: e }),
            Ok(ret) => Ok((c.declare(function.name@, params, ir_type_of(ret)), c.next_function())),
        },
    }
}

/// The session and the variables after the parameters from `from` on were
/// spilled to stack slots.
pub open spec fn spec_spill_params(c: CompilerView, env: Env, function: Function, from: int) -> Lowered<Env>
    decreases function.params@.len() - from,
{
    if 0 <= from < function.params@.len() {
        if from >= c.current_fn().params.len() {
            Err(failed(c, ErrorCode::MissingParameter(from as usize), function.name@))
        } else {
            match spec_param_type(function.params@[from]) {
                Err(e) => Err(Failed { state: c, error: e }),
                Ok(ty) => match ir_type_of(ty) {
                    None => Err(failed(c, ErrorCode::UnitRepresentation, Seq::empty())),
                    Some(t) => {
                        let name = function.params@[from].name@;
                        let slot = c.next_value();
                        let c = c.emit(InstrView::Alloca { ty: t, name }).emit(
                            InstrView::Store { ptr: slot, value: Operand::Param { index: from as usize } },
                        );
                        spec_spill_params(c, env.insert(name, Variable { slot, ty }), function, from + 1)
                    },
                },
            }
        }
    } else {
        Ok((c, env))
    }
}

/// The session and the variables after the body of `function` was entered:
/// the cursor stands in a new block `entry` of the declared function, and
/// every parameter has its slot.
pub open spec fn spec_enter_function(c: CompilerView, function: Function) -> Lowered<Env> {
    match c.module.find_function(function.name@) {
        None => Err(failed(c, ErrorCode::FunctionNotDeclared, function.name@)),
        Some(f) => spec_spill_params(c.enter(f as usize, "entry"@), Map::empty(), function, 0),
    }
}

/// The value that a function of result type `ty` returns where its body
/// does not say: nothing for `Unit`, and else the zero of the type, which
/// for a string is the null pointer.
pub open spec fn default_return(ty: OtterType) -> Option<Operand> {
    match ty {
        OtterType::Unit => None,
        OtterType::I32 => Some(Operand::ConstInt { ty: IrType::I32, value: 0 }),
        OtterType::I64 => Some(Operand::ConstInt { ty: IrType::I64, value: 0 }),
        OtterType::F64 => Some(Operand::ConstFloat { bits: 0 }),
        OtterType::Bool => Some(Operand::ConstInt { ty: IrType::I1, value: 0 }),
        OtterType::Str => Some(Operand::Null),
    }
}

/// The session after the body of `function` was finished: where the block
/// under the cursor does not end in a terminator, the default return of
/// the declared result type is inserted.
pub open spec fn spec_finish_function(c: CompilerView, function: Function) -> Lowered<()> {
    if c.terminated() {
        Ok((c, ()))
    } else {
        match spec_return_type(function) {
            Err(e) => Err(Failed { state: c, error: e }),
            Ok(ty) => Ok((c.emit(InstrView::Return { value: default_return(ty) }), ())),
        }
    }
}

/// The session after the body of `function` was lowered.
pub open spec fn spec_lower_function_body(c: CompilerView, function: Function) -> Lowered<()> {
    match spec_enter_function(c, function) {
        Err(e) => Err(e),
        Ok((c, env)) => match spec_lower_statements(c, env, function.body.statements@, 0) {
            Err(e) => Err(Failed { state: e.state, error: e.error }),
            Ok((c, _)) => spec_finish_function(c, function),
        },
    }
}

/// The session after the functions among the statements from `from` on
/// were declared.
pub open spec fn spec_declare_all(c: CompilerView, statements: Seq<Statement>, from: int) -> Lowered<()>
    decreases statements.len() - from,
{
    if 0 <= from < statements.len() {
        match statements[from] {
            Statement::Function(function) => match spec_declare_function(c, function) {
                Err(e) => Err(e),
                Ok((c, _)) => spec_declare_all(c, statements, from + 1),
            },
            _ => spec_declare_all(c, statements, from + 1),
        }
    } else {
        Ok((c, ()))
    }
}

/// The session after the bodies of the functions among the statements from
/// `from` on were lowered.
pub open spec fn spec_lower_all(c: CompilerView, statements: Seq<Statement>, from: int) -> Lowered<()>
    decreases statements.len() - from,
{
    if 0 <= from < statements.len() {
        match statements[from] {
            Statement::Function(function) => match spec_lower_function_body(c, function) {
                Err(e) => Err(e),
                Ok((c, _)) => spec_lower_all(c, statements, from + 1),
            },
            _ => spec_lower_all(c, statements, from + 1),
        }
    } else {
        Ok((c, ()))
    }
}

/// Is one of the statements a function?
pub open spec fn has_function(statements: Seq<Statement>) -> bool {
    exists|i: int| 0 <= i < statements.len() && #[trigger] statements[i] is Function
}

/// Is `statement` a function called `name`?
pub open spec fn is_function_named(statement: Statement, name: Seq<char>) -> bool {
    statement matches Statement::Function(f) && f.name@ == name
}

/// Is one of the statements a function called `main`?
pub open spec fn has_main(statements: Seq<Statement>) -> bool {
    exists|i: int| 0 <= i < statements.len() && is_function_named(#[trigger] statements[i], "main"@)
}

/// The session after a program was lowered: it must hold a function; all
/// functions are declared, then all bodies lowered; and one of them must
/// be called `main`.
pub open spec fn spec_lower_program(c: CompilerView, program: Program) -> Lowered<()> {
    let statements = program.statements@;
    if !has_function(statements) {
        Err(failed(c, ErrorCode::NoFunctions, Seq::empty()))
    } else {
        match spec_declare_all(c, statements, 0) {
            Err(e) => Err(e),
            Ok((c, _)) => match spec_lower_all(c, statements, 0) {
                Err(e) => Err(e),
                Ok((c, _)) => if has_main(statements) {
                    Ok((c, ()))
                } else {
                    Err(failed(c, ErrorCode::MissingMain, Seq::empty()))
                },
            },
        }
    }
}

/// The names of the functions among the first `upto` statements, in order.
pub open spec fn function_names(statements: Seq<Statement>, upto: int) -> Seq<Seq<char>>
    decreases upto,
{
    if upto <= 0 || upto > statements.len() {
        Seq::empty()
    } else {
        match statements[upto - 1] {
            Statement::Function(function) => function_names(statements, upto - 1).push(function.name@),
            _ => function_names(statements, upto - 1),
        }
    }
}

/// Do the functions of the program all have different names?
pub open spec fn distinct_functions(program: Program) -> bool {
    function_names(program.statements@, program.statements@.len() as int).no_duplicates()
}

/// The functions of the module have the names `names`, in order.
pub open spec fn named_as(module: ModuleView, names: Seq<Seq<char>>) -> bool {
    &&& module.functions.len() == names.len()
    &&& forall|i: int| 0 <= i < names.len() ==> (#[trigger] module.functions[i]).name == names[i]
}

/// Is every function of the program tidy: in each of its blocks nothing
/// but silent statements follows a return, and no loop body returns?
pub open spec fn tidy_program(program: Program) -> bool {
    forall|i: int|
        0 <= i < program.statements@.len() ==> match #[trigger] program.statements@[i] {
            Statement::Function(function) => tidy_from(function.body.statements@, 0, false),
            _ => true,
        }
}

/// Is every function among the first `upto` statements tidy?
pub open spec fn tidy_until(statements: Seq<Statement>, upto: int) -> bool {
    forall|i: int|
        0 <= i < upto && i < statements.len() ==> match #[trigger] statements[i] {
            Statement::Function(function) => tidy_from(function.body.statements@, 0, false),
            _ => true,
        }
}

/// A body that was entered, lowered from tidy statements and finished
/// leaves every block of the module ending in exactly one terminator, if
/// every block did so before.
pub proof fn lemma_body_well_terminated(
    before: CompilerView,
    entered: CompilerView,
    lowered: CompilerView,
    finished: CompilerView,
    function: usize,
    returned: bool,
)
    requires
        before.module.well_terminated(),
        function < before.module.functions.len(),
        entered.entered(before, function),
        lowered.flows_from(entered, returned),
        finished.ends_block_of(lowered),
        lowered.current_block().closed() ==> finished == lowered,
    ensures
        finished.module.well_terminated(),
{
    assert forall|f: int| 0 <= f < finished.module.functions.len() implies (
    #[trigger] finished.module.functions[f]).well_terminated() by {
        let blocks = finished.module.functions[f].blocks;
        if f == function {
            assert forall|b: int| 0 <= b < blocks.len() implies (#[trigger] blocks[b]).closed() by {
                if b == finished.block {
                } else if b == entered.block {
                    assert(lowered.current_fn().blocks[b].closed());
                    assert(finished.current_fn().blocks[b] == lowered.current_fn().blocks[b]);
                } else if b < entered.current_fn().blocks.len() {
                    assert(before.module.functions[f].well_terminated());
                    assert(before.module.functions[f].blocks[b].closed());
                    assert(entered.current_fn().blocks[b] == before.module.functions[f].blocks[b]);
                    assert(lowered.current_fn().blocks[b] == entered.current_fn().blocks[b]);
                    assert(finished.current_fn().blocks[b] == lowered.current_fn().blocks[b]);
                } else {
                    assert(lowered.current_fn().blocks[b].closed());
                    assert(finished.current_fn().blocks[b] == lowered.current_fn().blocks[b]);
                }
            }
        } else if f < before.module.functions.len() {
            assert(before.module.functions[f].well_terminated());
            assert(entered.module.functions[f] == before.module.functions[f]);
            assert(lowered.module.functions[f] == entered.module.functions[f]);
            assert(finished.module.functions[f] == lowered.module.functions[f]);
        } else {
            if f < lowered.module.functions.len() {
                assert(lowered.module.functions[f].blocks.len() == 0);
                assert(finished.module.functions[f] == lowered.module.functions[f]);
            } else {
                assert(finished.module.functions[f].blocks.len() == 0);
            }
        }
    }
}

/// A body that was entered, lowered and finished leaves the last
/// instruction of every block of the module a terminator, if it was so
/// before.
pub proof fn lemma_body_all_terminated(
    before: CompilerView,
    entered: CompilerView,
    lowered: CompilerView,
    finished: CompilerView,
    function: usize,
)
    requires
        before.module.all_terminated(),
        function < before.module.functions.len(),
        entered.entered(before, function),
        lowered.advances_from(entered),
        finished.ends_block_of(lowered),
        finished.current_block().terminated(),
    ensures
        finished.module.all_terminated(),
{
    assert forall|f: int| 0 <= f < finished.module.functions.len() implies (
    #[trigger] finished.module.functions[f]).all_terminated() by {
        let blocks = finished.module.functions[f].blocks;
        if f == function {
            assert forall|b: int| 0 <= b < blocks.len() implies (#[trigger] blocks[b]).terminated() by {
                if b == finished.block {
                } else if b == entered.block {
                    assert(lowered.current_fn().blocks[b].terminated());
                    assert(finished.current_fn().blocks[b] == lowered.current_fn().blocks[b]);
                } else if b < entered.current_fn().blocks.len() {
                    assert(before.module.functions[f].all_terminated());
                    assert(before.module.functions[f].blocks[b].terminated());
                    assert(entered.current_fn().blocks[b] == before.module.functions[f].blocks[b]);
                    assert(lowered.current_fn().blocks[b] == entered.current_fn().blocks[b]);
                    assert(finished.current_fn().blocks[b] == lowered.current_fn().blocks[b]);
                } else {
                    assert(lowered.current_fn().blocks[b].terminated());
                    assert(finished.current_fn().blocks[b] == lowered.current_fn().blocks[b]);
                }
            }
        } else if f < before.module.functions.len() {
            assert(before.module.functions[f].all_terminated());
            assert(entered.module.functions[f] == before.module.functions[f]);
            assert(lowered.module.functions[f] == entered.module.functions[f]);
            assert(finished.module.functions[f] == lowered.module.functions[f]);
        } else {
            if f < lowered.module.functions.len() {
                assert(lowered.module.functions[f].blocks.len() == 0);
                assert(finished.module.functions[f] == lowered.module.functions[f]);
            } else {
                assert(finished.module.functions[f].blocks.len() == 0);
            }
        }
    }
}

/// The module that a program is lowered to, with the host functions of
/// `registry`.
pub open spec fn spec_lowered_module(registry: Map<Seq<char>, crate::symbols::FfiFunction>, program: Program) -> Result<
    ModuleView,
    CodegenErrorView,
> {
    match spec_lower_program(CompilerView::initial(registry), program) {
        Err(e) => Err(e.error),
        Ok((c, _)) => Ok(c.module),
    }
}

/// The type that an optional annotation stands for.
fn type_of_annotation(annotation: &Option<String>, default: OtterType) -> (r: Result<OtterType, CodegenError>)
    ensures
        match annotated_type(*annotation, default) {
            Ok(ty) => r == Ok::<OtterType, CodegenError>(ty),
            Err(e) => r matches Err(x) && x@ == e,
        },
{
    match annotation {
        Some(name) => Compiler::type_from_name(name.as_str()),
        None => Ok(default),
    }
}

impl<'a> Compiler<'a> {
    /// Declares `function`, without a body, and says where the declaration
    /// stands.
    pub fn declare_function(&mut self, function: &Function) -> (r: Result<usize, CodegenError>)
        ensures
            lowering_matches(spec_declare_function(old(self)@, *function), final(self)@, r),
            r is Ok && old(self)@.module.well_terminated()
                ==> final(self)@.module.well_terminated(),
            r is Ok && old(self)@.grounded() ==> final(self)@.grounded(),
            r is Ok && old(self)@.module.all_terminated() ==> final(self)@.module.all_terminated(),
            r is Ok && old(self)@.module.has_spoiled() ==> final(self)@.module.has_spoiled(),
    {
        let mut param_types: Vec<IrType> = Vec::new();
        let mut i: usize = 0;
        while i < function.params.len()
            invariant
                i <= function.params.len(),
                self@ == old(self)@,
                spec_param_types(function.params@, 0, Seq::empty()) == spec_param_types(
                    function.params@,
                    i as int,
                    param_types@,
                ),
            decreases function.params.len() - i,
        {
            let ty = type_of_annotation(&function.params[i].ty, OtterType::F64)?;
            param_types.push(Compiler::basic_type(ty)?);
            i += 1;
        }
        let ret_type = type_of_annotation(&function.ret_ty, OtterType::I32)?;
        let ret = match ret_type {
            OtterType::Unit => None,
            OtterType::Bool => Some(IrType::I1),
            OtterType::I32 => Some(IrType::I32),
            OtterType::I64 => Some(IrType::I64),
            OtterType::F64 => Some(IrType::F64),
            OtterType::Str => Some(IrType::Ptr),
        };
        let index = self.add_function(function.name.as_str(), param_types, ret);
        proof {
            if old(self)@.module.has_spoiled() {
                let f = choose|f: int|
                    0 <= f < old(self)@.module.functions.len() && (
                    #[trigger] old(self)@.module.functions[f]).has_spoiled();
                assert(self@.module.functions[f] == old(self)@.module.functions[f]);
                assert(self@.module.functions[f].has_spoiled());
            }
            if old(self)@.module.all_terminated() {
                assert forall|f: int| 0 <= f < self@.module.functions.len() implies (
                #[trigger] self@.module.functions[f]).all_terminated() by {
                    if f < old(self)@.module.functions.len() {
                        assert(old(self)@.module.functions[f].all_terminated());
                    }
                }
            }
            if old(self)@.module.well_terminated() {
                assert forall|f: int| 0 <= f < self@.module.functions.len() implies (
                #[trigger] self@.module.functions[f]).well_terminated() by {
                    if f < old(self)@.module.functions.len() {
                        assert(old(self)@.module.functions[f].well_terminated());
                    }
                }
            }
        }
        Ok(index)
    }

    /// Enters the body of `function`: moves the cursor into a new block
    /// `entry` of the declared function and spills every parameter to a
    /// stack slot.
    pub fn enter_function(&mut self, function: &Function) -> (r: Result<FunctionContext, CodegenError>)
        ensures
            match spec_enter_function(old(self)@, *function) {
                Ok((c, env)) => r matches Ok(ctx) && ctx@ == env && final(self)@ == c
                    && c.positioned(),
                Err(stopped) => r matches Err(x) && x@ == stopped.error && final(self)@
                    == stopped.state,
            },
            r is Ok
                ==> final(self)@.function < old(self)@.module.functions.len()
                && final(self)@.entered(old(self)@, final(self)@.function),
            r matches Ok(ctx) ==> holds_values(ctx@),
            r matches Ok(ctx)
                ==> (old(self)@.grounded() ==> final(self)@.grounded()
                && final(self)@.sees_env(ctx@)),
            r is Ok && old(self)@.module.has_spoiled() ==> final(self)@.module.has_spoiled(),
    {
        let declared = match self.get_function(function.name.as_str()) {
            Some(f) => f,
            None => {
                return Err(CodegenError::new(ErrorCode::FunctionNotDeclared, function.name.as_str()));
            },
        };
        self.enter(declared, "entry");
        let mut ctx = FunctionContext::new();
        let ghost start = self@;
        proof {
            if old(self)@.module.has_spoiled() {
                crate::state::lemma_spoiled_entered(old(self)@, start, declared);
            }
        }
        let mut i: usize = 0;
        while i < function.params.len()
            invariant
                old(self)@.module.has_spoiled() ==> self@.module.has_spoiled(),
                old(self)@.grounded() ==> self@.grounded() && self@.sees_env(ctx@),
                i <= function.params.len(),
                self@.continues(start),
                self@.function == declared,
                declared < old(self)@.module.functions.len(),
                self@.entered(old(self)@, declared),
                holds_values(ctx@),
                start == old(self)@.enter(declared, "entry"@),
                old(self)@.module.find_function(function.name@) == Some(declared as int),
                spec_spill_params(start, Map::empty(), *function, 0) == spec_spill_params(
                    self@,
                    ctx@,
                    *function,
                    i as int,
                ),
            decreases function.params.len() - i,
        {
            if i >= self.param_count(declared) {
                return Err(
                    CodegenError::new(ErrorCode::MissingParameter(i), function.name.as_str()),
                );
            }
            let param = &function.params[i];
            let param_ty = type_of_annotation(&param.ty, OtterType::F64)?;
            let ty = Compiler::basic_type(param_ty)?;
            let ghost before = self@;
            let alloca = self.emit(Instr::Alloca { ty, name: param.name.clone() });
            self.emit(Instr::Store { ptr: alloca, value: Operand::Param { index: i } });
            ctx.insert(param.name.clone(), Variable { slot: alloca, ty: param_ty });
            proof {
                if before.module.has_spoiled() {
                    crate::state::lemma_spoiled_stays(before, self@);
                }
            }
            i += 1;
        }
        Ok(ctx)
    }

    /// Finishes the body of `function`: where the block under the cursor
    /// does not end in a terminator, inserts the default return.
    pub fn finish_function(&mut self, function: &Function) -> (r: Result<(), CodegenError>)
        requires
            old(self)@.positioned(),
        ensures
            lowering_matches(spec_finish_function(old(self)@, *function), final(self)@, r),
            r is Ok ==> final(self)@.ends_block_of(old(self)@),
            r is Ok && old(self)@.current_block().closed() ==> final(self)@ == old(self)@,
            r is Ok && old(self)@.grounded() ==> final(self)@.grounded(),
            r is Ok ==> final(self)@.current_block().terminated(),
    {
        if !self.terminated() {
            let ret_type = type_of_annotation(&function.ret_ty, OtterType::I32)?;
            let value = match ret_type {
                OtterType::Unit => None,
                OtterType::I32 => Some(Operand::ConstInt { ty: IrType::I32, value: 0 }),
                OtterType::I64 => Some(Operand::ConstInt { ty: IrType::I64, value: 0 }),
                OtterType::F64 => Some(Operand::ConstFloat { bits: 0 }),
                OtterType::Bool => Some(Operand::ConstInt { ty: IrType::I1, value: 0 }),
                OtterType::Str => Some(Operand::Null),
            };
            self.emit(Instr::Return { value });
        }
        Ok(())
    }

    /// Lowers the body of `function` into its declaration.
    pub fn lower_function_body(&mut self, function: &Function) -> (r: Result<(), CodegenError>)
        ensures
            lowering_matches(spec_lower_function_body(old(self)@, *function), final(self)@, r),
            r is Ok && tidy_from(function.body.statements@, 0, false)
                && old(self)@.module.well_terminated()
                ==> final(self)@.module.well_terminated(),
            r is Ok && old(self)@.module.unique_names() ==> final(self)@.module.unique_names(),
            r is Ok && old(self)@.grounded() ==> final(self)@.grounded(),
            r is Ok && old(self)@.module.all_terminated() ==> final(self)@.module.all_terminated(),
            r is Ok && old(self)@.module.has_spoiled() ==> final(self)@.module.has_spoiled(),
            r is Ok && !tidy_from(function.body.statements@, 0, false)
                ==> final(self)@.module.has_spoiled(),
            r is Ok ==> final(self)@.module.keeps_declared(old(self)@.module),
    {
        let mut ctx = self.enter_function(function)?;
        let ghost entered = self@;
        self.lower_statements(&function.body.statements, &mut ctx)?;
        let ghost lowered = self@;
        self.finish_function(function)?;
        proof {
            assert forall|name: Seq<char>| #[trigger] old(self)@.module.declares(name) implies self@.module.declares(
                name,
            ) by {
                crate::state::lemma_declared_entered(old(self)@, entered, entered.function, name);
                crate::state::lemma_still_declared(entered, lowered, name);
                crate::state::lemma_still_declared(lowered, self@, name);
            }
            if lowered.module.has_spoiled() {
                crate::state::lemma_spoiled_stays(lowered, self@);
            } else if entered.module.has_spoiled() {
                crate::state::lemma_spoiled_stays(entered, lowered);
            }
            if old(self)@.module.all_terminated() {
                lemma_body_all_terminated(old(self)@, entered, lowered, self@, entered.function);
            }
            if tidy_from(function.body.statements@, 0, false) && old(self)@.module.well_terminated() {
                lemma_body_well_terminated(
                    old(self)@,
                    entered,
                    lowered,
                    self@,
                    entered.function,
                    returns_from(function.body.statements@, 0, false),
                );
            }
        }
        Ok(())
    }

    /// Lowers a program into the module of this session.
    pub fn lower_program(&mut self, program: &Program) -> (r: Result<(), CodegenError>)
        ensures
            lowering_matches(spec_lower_program(old(self)@, *program), final(self)@, r),
            r is Ok && tidy_program(*program) && old(self)@.module.well_terminated()
                ==> final(self)@.module.well_terminated(),
            r is Ok && distinct_functions(*program) && old(self)@.module.functions.len() == 0
                ==> final(self)@.module.unique_names(),
            r is Ok && old(self)@.grounded() ==> final(self)@.grounded(),
            r is Ok && old(self)@.module.all_terminated() ==> final(self)@.module.all_terminated(),
            r is Ok && !tidy_program(*program) ==> final(self)@.module.has_spoiled(),
            r is Ok ==> forall|i: int|
                0 <= i < program.statements@.len() && (#[trigger] program.statements@[i]) is Function
                    ==> final(self)@.module.declares(program.statements@[i]->Function_0.name@),
    {
        let statements = &program.statements;
        let mut any = false;
        let mut main = false;
        let mut i: usize = 0;
        while i < statements.len()
            invariant
                i <= statements.len(),
                any == has_function(statements@.take(i as int)),
                main == has_main(statements@.take(i as int)),
            decreases statements.len() - i,
        {
            let ghost before = statements@.take(i as int);
            let ghost after = statements@.take(i + 1);
            let mut is_function = false;
            let mut is_main = false;
            if let Statement::Function(function) = &statements[i] {
                is_function = true;
                is_main = str_equal(function.name.as_str(), "main");
            }
            proof {
                assert(after[i as int] == statements@[i as int]);
                assert(forall|j: int| 0 <= j < i ==> after[j] == before[j]);
                if has_function(before) {
                    let j = choose|j: int| 0 <= j < before.len() && #[trigger] before[j] is Function;
                    assert(after[j] is Function);
                }
                if has_function(after) && !is_function {
                    let j = choose|j: int| 0 <= j < after.len() && #[trigger] after[j] is Function;
                    assert(before[j] is Function);
                }
                if has_main(before) {
                    let j = choose|j: int|
                        0 <= j < before.len() && is_function_named(#[trigger] before[j], "main"@);
                    assert(is_function_named(after[j], "main"@));
                }
                if has_main(after) && !is_main {
                    let j = choose|j: int|
                        0 <= j < after.len() && is_function_named(#[trigger] after[j], "main"@);
                    assert(is_function_named(before[j], "main"@));
                }
            }
            any = any || is_function;
            main = main || is_main;
            i += 1;
        }
        proof {
            assert(statements@.take(i as int) =~= statements@);
        }
        if !any {
            return Err(CodegenError::bare(ErrorCode::NoFunctions));
        }
        let mut i: usize = 0;
        while i < statements.len()
            invariant
                old(self)@.module.all_terminated() ==> self@.module.all_terminated(),
                old(self)@.grounded() ==> self@.grounded(),
                i <= statements.len(),
                statements == &program.statements,
                has_function(statements@),
                old(self)@.module.well_terminated() ==> self@.module.well_terminated(),
                old(self)@.module.functions.len() == 0 ==> named_as(
                    self@.module,
                    function_names(statements@, i as int),
                ),
                spec_declare_all(old(self)@, statements@, 0) == spec_declare_all(
                    self@,
                    statements@,
                    i as int,
                ),
            decreases statements.len() - i,
        {
            if let Statement::Function(function) = &statements[i] {
                self.declare_function(function)?;
            }
            i += 1;
        }
        let ghost declared = self@;
        proof {
            if distinct_functions(*program) && old(self)@.module.functions.len() == 0 {
                let names = function_names(statements@, statements@.len() as int);
                assert forall|a: int, b: int| 0 <= a < b < declared.module.functions.len() implies (
                #[trigger] declared.module.functions[a]).name != (
                #[trigger] declared.module.functions[b]).name by {
                    assert(names[a] != names[b]);
                }
            }
        }
        let mut i: usize = 0;
        while i < statements.len()
            invariant
                !tidy_until(statements@, i as int) ==> self@.module.has_spoiled(),
                old(self)@.module.all_terminated() ==> self@.module.all_terminated(),
                old(self)@.grounded() ==> self@.grounded(),
                i <= statements.len(),
                statements == &program.statements,
                has_function(statements@),
                tidy_program(*program) && old(self)@.module.well_terminated()
                    ==> self@.module.well_terminated(),
                declared.module.unique_names() ==> self@.module.unique_names(),
                self@.module.keeps_declared(declared.module),
                spec_declare_all(old(self)@, statements@, 0) == Ok::<
                    (CompilerView, ()),
                    Failed,
                >((declared, ())),
                spec_lower_all(declared, statements@, 0) == spec_lower_all(
                    self@,
                    statements@,
                    i as int,
                ),
            decreases statements.len() - i,
        {
            if let Statement::Function(function) = &statements[i] {
                self.lower_function_body(function)?;
            }
            proof {
                assert(tidy_until(statements@, i + 1) ==> tidy_until(statements@, i as int));
                if tidy_until(statements@, i as int) && !tidy_until(statements@, i + 1) {
                    let j = choose|j: int|
                        0 <= j < i + 1 && j < statements@.len() && !(match #[trigger] statements@[j] {
                            Statement::Function(function) => tidy_from(function.body.statements@, 0, false),
                            _ => true,
                        });
                    assert(j == i);
                }
            }
            i += 1;
        }
        if !main {
            return Err(CodegenError::bare(ErrorCode::MissingMain));
        }
        proof {
            assert(tidy_until(statements@, statements@.len() as int) == tidy_program(*program));
            assert forall|i: int|
                0 <= i < statements@.len() && (#[trigger] statements@[i]) is Function implies self@.module.declares(
                statements@[i]->Function_0.name@,
            ) by {
                crate::laws::lemma_declared_before_bodies(old(self)@, statements@, 0, i);
            }
        }
        Ok(())
    }
}

/// Lowers a program to a module of the intermediate representation, with
/// the host functions of `registry`.
///
/// The module is the one that `spec_lowered_module` describes. Whatever
/// the program, every reference of every instruction leads somewhere and
/// every block ends in a terminator. Every block ends in exactly one
/// terminator if, and only if, the program is tidy; and no name is
/// declared twice if the functions of the program have different names.
/// Every function of the program is declared in the module, wherever in
/// the program it is defined.
pub fn lower_program(program: &Program, registry: &SymbolRegistry) -> (r: Result<ModuleIr, CodegenError>)
    ensures
        match spec_lowered_module(registry@, *program) {
            Ok(module) => r matches Ok(m) && m@ == module,
            Err(e) => r matches Err(x) && x@ == e,
        },
        r matches Ok(m) ==> m@.well_indexed(),
        r matches Ok(m) ==> m@.all_terminated(),
        r matches Ok(m) ==> (m@.well_terminated() <==> tidy_program(*program)),
        distinct_functions(*program) ==> (r matches Ok(m) ==> m@.unique_names()),
        r matches Ok(m) ==> forall|i: int|
            0 <= i < program.statements@.len() && (#[trigger] program.statements@[i]) is Function
                ==> m@.declares(program.statements@[i]->Function_0.name@),
{
    let mut compiler = Compiler::new(registry);
    compiler.lower_program(program)?;
    proof {
        if !tidy_program(*program) {
            crate::ir::lemma_spoiled_module(compiler@.module);
        }
    }
    Ok(compiler.into_module())
}

} // verus!
