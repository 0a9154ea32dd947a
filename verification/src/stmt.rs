//! Lowering of statements: bindings, conditionals, range loops and returns.

use crate::ast::{Block, Expr, Statement};
use crate::error::{failure, CodegenError, CodegenErrorView, ErrorCode, Feature};
use crate::eval::{holds_values, inserts_nothing, spec_eval_expr, Env};
use crate::expr::{failed, spec_int_to_float, spec_widen, Failed, Lowered};
use crate::ir::{BinaryKind, Instr, InstrView, Operand};
use crate::state::{Compiler, CompilerView, EvaluatedValue, FunctionContext, Variable};
use crate::types::{ir_type_of, IrType, OtterType};
use vstd::prelude::*;

verus! {

/// The lowering of a statement that was stopped: the error, and the
/// session and the variables as they stood when the error was raised.
pub struct FailedStatement {
    pub state: CompilerView,
    pub env: Env,
    pub error: CodegenErrorView,
}

/// A statement stopped in session `state`, with the variables `env`, by
/// the error with this code and subject.
pub open spec fn failed_statement(state: CompilerView, env: Env, code: ErrorCode, subject: Seq<char>) -> FailedStatement {
    FailedStatement { state, env, error: failure(code, subject) }
}

/// A statement stopped, with the variables `env`, where the lowering of an
/// expression was stopped.
pub open spec fn stopped_in(stopped: Failed, env: Env) -> FailedStatement {
    FailedStatement { state: stopped.state, env, error: stopped.error }
}

/// What lowering a statement yields: the session and the variables
/// afterwards; or the error that stopped it, and the session and the
/// variables with which it did.
pub type LoweredStmt = Result<(CompilerView, Env), FailedStatement>;

/// The session `after` and the variables `env` are what `lowered` says, and
/// the session continues.
pub open spec fn statement_matches(
    lowered: LoweredStmt,
    before: CompilerView,
    after: CompilerView,
    env: Env,
    result: Result<(), CodegenError>,
) -> bool {
    match lowered {
        Ok((state, variables)) => {
            &&& result is Ok
            &&& after == state
            &&& env == variables
            &&& after.continues(before)
        },
        Err(stopped) => {
            &&& result matches Err(x) && x@ == stopped.error
            &&& after == stopped.state
            &&& env == stopped.env
        },
    }
}

/// The bit pattern of the float 1.
pub const FLOAT_ONE: u64 = 0x3FF0_0000_0000_0000;

/// The session and the variables after a new slot for `name` was reserved
/// and `value` stored in it.
pub open spec fn spec_declare_variable(c: CompilerView, env: Env, name: Seq<char>, value: EvaluatedValue) -> (
    CompilerView,
    Env,
) {
    let slot = c.next_value();
    (
        c.emit(InstrView::Alloca { ty: ir_type_of(value.ty).unwrap(), name }).emit(
            InstrView::Store { ptr: slot, value: value.value.unwrap() },
        ),
        env.insert(name, Variable { slot, ty: value.ty }),
    )
}

/// The session and the variables after `let name = value`.
pub open spec fn spec_lower_let(c: CompilerView, env: Env, name: Seq<char>, value: EvaluatedValue) -> LoweredStmt {
    if value.ty == OtterType::Unit {
        Err(failed_statement(c, env, ErrorCode::UnitDeclared, name))
    } else {
        Ok(spec_declare_variable(c, env, name, value))
    }
}

/// The session and the variables after `name = value`: an existing
/// variable keeps its slot and its type, a new name is declared.
pub open spec fn spec_lower_assign(c: CompilerView, env: Env, name: Seq<char>, value: EvaluatedValue) -> LoweredStmt {
    if value.ty == OtterType::Unit {
        Err(failed_statement(c, env, ErrorCode::UnitAssigned, name))
    } else {
        match env.get(name) {
            Some(variable) => if variable.ty != value.ty {
                Err(failed_statement(c, env, 
                        ErrorCode::AssignTypeMismatch { existing: variable.ty, new: value.ty },
                        name,
                    ),
                )
            } else {
                Ok((c.emit(InstrView::Store { ptr: variable.slot, value: value.value.unwrap() }), env))
            },
            None => Ok(spec_declare_variable(c, env, name, value)),
        }
    }
}

/// The session after a return of `value`, or of nothing.
pub open spec fn spec_lower_return(c: CompilerView, value: Option<EvaluatedValue>) -> CompilerView {
    c.emit(
        InstrView::Return {
            value: match value {
                Some(v) => v.value,
                None => None,
            },
        },
    )
}

/// The session after a branch to `target` was inserted, unless the block
/// under the cursor already ends in a terminator.
pub open spec fn spec_branch_if_open(c: CompilerView, target: usize) -> CompilerView {
    if c.terminated() {
        c
    } else {
        c.emit(InstrView::Branch { target })
    }
}

/// The blocks of a conditional.
pub struct IfBlocks {
    pub then_block: usize,
    pub else_block: usize,
    pub merge: usize,
}

/// The session after the blocks of a conditional were added, the branch on
/// `cond` inserted and the cursor moved into the `then` block.
pub open spec fn spec_open_if(c: CompilerView, cond: Operand) -> (CompilerView, IfBlocks) {
    let then_block = c.next_block();
    let c = c.append_block("then"@);
    let else_block = c.next_block();
    let c = c.append_block("else"@);
    let merge = c.next_block();
    let c = c.append_block("ifcont"@);
    (
        c.emit(InstrView::CondBranch { cond, then_block, else_block }).position_at_end(then_block),
        IfBlocks { then_block, else_block, merge },
    )
}

/// The bounds of a range loop after coercion, and whether it counts in
/// floats.
pub struct LoopRange {
    pub start: Operand,
    pub end: Operand,
    pub float: bool,
}

/// The bounds of a range loop after coercion: two 64-bit integers stay as
/// they are, two 32-bit integers are each widened to 64 bits, two floats
/// stay floats, and a 64-bit integer beside a float is converted to a
/// float.
pub open spec fn spec_range_bounds(c: CompilerView, start: EvaluatedValue, end: EvaluatedValue) -> Lowered<
    LoopRange,
> {
    if start.ty == OtterType::F64 && end.ty == OtterType::F64 {
        Ok((c, LoopRange { start: start.value.unwrap(), end: end.value.unwrap(), float: true }))
    } else if start.ty == OtterType::I64 && end.ty == OtterType::I64 {
        Ok((c, LoopRange { start: start.value.unwrap(), end: end.value.unwrap(), float: false }))
    } else if start.ty == OtterType::I32 && end.ty == OtterType::I32 {
        let (c, start) = spec_widen(c, start, "start_to_i64"@);
        let (c, end) = spec_widen(c, end, "end_to_i64"@);
        Ok((c, LoopRange { start: start.value.unwrap(), end: end.value.unwrap(), float: false }))
    } else if start.ty == OtterType::F64 && end.ty == OtterType::I64 {
        let (c, end) = spec_int_to_float(c, end, "end_to_float"@);
        Ok((c, LoopRange { start: start.value.unwrap(), end: end.value.unwrap(), float: true }))
    } else if start.ty == OtterType::I64 && end.ty == OtterType::F64 {
        let (c, start) = spec_int_to_float(c, start, "start_to_float"@);
        Ok((c, LoopRange { start: start.value.unwrap(), end: end.value.unwrap(), float: true }))
    } else {
        Err(failed(c, ErrorCode::RangeNotNumeric, Seq::empty()))
    }
}

/// The blocks and the counter of a range loop.
pub struct LoopFrame {
    pub header: usize,
    pub body: usize,
    pub end: usize,
    pub slot: Operand,
    pub float: bool,
}

/// The machine type of the counter of a loop.
pub open spec fn counter_type(float: bool) -> IrType {
    if float {
        IrType::F64
    } else {
        IrType::I64
    }
}

/// The semantic type of the counter of a loop.
pub open spec fn counter_otter_type(float: bool) -> OtterType {
    if float {
        OtterType::F64
    } else {
        OtterType::I64
    }
}

/// The step of a loop: the constant one.
pub open spec fn counter_step(float: bool) -> Operand {
    if float {
        Operand::ConstFloat { bits: FLOAT_ONE }
    } else {
        Operand::ConstInt { ty: IrType::I64, value: 1 }
    }
}

/// The session and the variables after the head of a range loop was
/// lowered: the counter is set to the start, the header compares it with
/// the end, and the cursor stands in the body.
pub open spec fn spec_open_loop(c: CompilerView, env: Env, var: Seq<char>, range: LoopRange) -> (
    CompilerView,
    Env,
    LoopFrame,
) {
    let header = c.next_block();
    let c = c.append_block("loop_header"@);
    let body = c.next_block();
    let c = c.append_block("loop_body"@);
    let end = c.next_block();
    let c = c.append_block("loop_end"@);
    let ty = counter_type(range.float);
    let slot = c.next_value();
    let c = c.emit(InstrView::Alloca { ty, name: var }).emit(
        InstrView::Store { ptr: slot, value: range.start },
    );
    let env = env.insert(var, Variable { slot, ty: counter_otter_type(range.float) });
    let c = c.emit(InstrView::Branch { target: header }).position_at_end(header);
    let current = c.next_value();
    let c = c.emit(InstrView::Load { ty, ptr: slot, name: "current"@ });
    let cond = c.next_value();
    let c = c.emit(
        InstrView::Binary {
            kind: if range.float {
                BinaryKind::FloatLt
            } else {
                BinaryKind::IntLt
            },
            lhs: current,
            rhs: range.end,
            name: "loop_cond"@,
        },
    );
    let c = c.emit(InstrView::CondBranch { cond, then_block: body, else_block: end }).position_at_end(
        body,
    );
    (c, env, LoopFrame { header, body, end, slot, float: range.float })
}

/// The session after the tail of a range loop was lowered: the counter is
/// stepped, control goes back to the header, and the cursor stands behind
/// the loop.
pub open spec fn spec_close_loop(c: CompilerView, frame: LoopFrame) -> CompilerView {
    let current = c.next_value();
    let c = c.emit(InstrView::Load { ty: counter_type(frame.float), ptr: frame.slot, name: "current"@ });
    let next = c.next_value();
    let c = c.emit(
        InstrView::Binary {
            kind: if frame.float {
                BinaryKind::FloatAdd
            } else {
                BinaryKind::IntAdd
            },
            lhs: current,
            rhs: counter_step(frame.float),
            name: "next"@,
        },
    );
    c.emit(InstrView::Store { ptr: frame.slot, value: next }).emit(
        InstrView::Branch { target: frame.header },
    ).position_at_end(frame.end)
}

/// Does lowering this statement insert no instruction?
pub open spec fn is_silent(statement: Statement) -> bool {
    match statement {
        Statement::Function(_) => true,
        Statement::Use { .. } => true,
        Statement::Expr(expr) => inserts_nothing(expr),
        _ => false,
    }
}

/// Does control reach the end of every block of this statement: nothing
/// but silent statements follows a return, and no loop body returns?
pub open spec fn tidy_statement(statement: Statement) -> bool
    decreases statement, 0nat,
{
    match statement {
        Statement::If { then_block, else_block, .. } => {
            &&& tidy_from(then_block.statements@, 0, false)
            &&& match else_block {
                Some(block) => tidy_from(block.statements@, 0, false),
                None => true,
            }
        },
        Statement::For { body, .. } => {
            &&& tidy_from(body.statements@, 0, false)
            &&& !returns_from(body.statements@, 0, false)
        },
        _ => true,
    }
}

/// Are the statements from `from` on tidy, and silent once a return was
/// lowered?
pub open spec fn tidy_from(statements: Seq<Statement>, from: int, returned: bool) -> bool
    decreases statements, statements.len() - from,
{
    if 0 <= from < statements.len() {
        &&& if returned {
            is_silent(statements[from])
        } else {
            tidy_statement(statements[from])
        }
        &&& tidy_from(statements, from + 1, returned || statements[from] is Return)
    } else {
        true
    }
}

/// Was a return lowered before `from`, or is one among the statements
/// from `from` on?
pub open spec fn returns_from(statements: Seq<Statement>, from: int, returned: bool) -> bool
    decreases statements.len() - from,
{
    if 0 <= from < statements.len() {
        returns_from(statements, from + 1, returned || statements[from] is Return)
    } else {
        returned
    }
}

/// The session and the variables after a conditional was lowered: the
/// condition must be a boolean; each branch is lowered into its own block
/// and ends in a branch to the block behind the conditional, unless it
/// ends in a terminator of its own.
pub open spec fn spec_lower_if(c: CompilerView, env: Env, statement: Statement) -> LoweredStmt
    decreases statement, 0nat,
{
    match statement {
        Statement::If { cond, then_block, elif_blocks, else_block } => match spec_eval_expr(c, env, cond) {
            Err(e) => Err(stopped_in(e, env)),
            Ok((c, value)) => if value.ty != OtterType::Bool {
                Err(failed_statement(c, env, ErrorCode::ConditionNotBool(value.ty), Seq::empty()))
            } else {
                let (c, blocks) = spec_open_if(c, value.value.unwrap());
                match spec_lower_statements(c, env, then_block.statements@, 0) {
                    Err(e) => Err(e),
                    Ok((c, env)) => {
                        let c = spec_branch_if_open(c, blocks.merge).position_at_end(blocks.else_block);
                        match spec_lower_else(c, env, else_block) {
                            Err(e) => Err(e),
                            Ok((c, env)) => Ok(
                                (spec_branch_if_open(c, blocks.merge).position_at_end(blocks.merge), env),
                            ),
                        }
                    },
                }
            },
        },
        _ => Ok((c, env)),
    }
}

/// The session and the variables after a loop over a range was lowered.
pub open spec fn spec_lower_for(c: CompilerView, env: Env, statement: Statement) -> LoweredStmt
    decreases statement, 0nat,
{
    match statement {
        Statement::For { var, iterable, body } => match iterable {
            Expr::Range { start, end } => match spec_eval_expr(c, env, *start) {
                Err(e) => Err(stopped_in(e, env)),
                Ok((c, first)) => match spec_eval_expr(c, env, *end) {
                    Err(e) => Err(stopped_in(e, env)),
                    Ok((c, last)) => match spec_range_bounds(c, first, last) {
                        Err(e) => Err(stopped_in(e, env)),
                        Ok((c, range)) => {
                            let (c, env, frame) = spec_open_loop(c, env, var@, range);
                            match spec_lower_statements(c, env, body.statements@, 0) {
                                Err(e) => Err(e),
                                Ok((c, env)) => Ok((spec_close_loop(c, frame), env)),
                            }
                        },
                    },
                },
            },
            _ => Err(failed_statement(c, env, ErrorCode::Unsupported(Feature::NonRangeIterable), Seq::empty())),
        },
        _ => Ok((c, env)),
    }
}

/// The session and the variables after a statement was lowered.
pub open spec fn spec_lower_statement(c: CompilerView, env: Env, statement: Statement) -> LoweredStmt
    decreases statement, 1nat,
{
    match statement {
        Statement::Expr(expr) => match spec_eval_expr(c, env, expr) {
            Err(e) => Err(stopped_in(e, env)),
            Ok((c, _)) => Ok((c, env)),
        },
        Statement::Let { name, expr } => match spec_eval_expr(c, env, expr) {
            Err(e) => Err(stopped_in(e, env)),
            Ok((c, value)) => spec_lower_let(c, env, name@, value),
        },
        Statement::Assignment { name, expr } => match spec_eval_expr(c, env, expr) {
            Err(e) => Err(stopped_in(e, env)),
            Ok((c, value)) => spec_lower_assign(c, env, name@, value),
        },
        Statement::If { .. } => spec_lower_if(c, env, statement),
        Statement::For { .. } => spec_lower_for(c, env, statement),
        Statement::While { .. } => Err(failed_statement(c, env, ErrorCode::Unsupported(Feature::While), Seq::empty())),
        Statement::Break => Err(failed_statement(c, env, ErrorCode::Unsupported(Feature::Break), Seq::empty())),
        Statement::Continue => Err(failed_statement(c, env, ErrorCode::Unsupported(Feature::Continue), Seq::empty())),
        Statement::Function(_) => Ok((c, env)),
        Statement::Use { .. } => Ok((c, env)),
        Statement::Block(_) => Err(failed_statement(c, env, ErrorCode::Unsupported(Feature::Block), Seq::empty())),
        Statement::Return(expr) => match expr {
            Some(expr) => match spec_eval_expr(c, env, expr) {
                Err(e) => Err(stopped_in(e, env)),
                Ok((c, value)) => Ok((spec_lower_return(c, Some(value)), env)),
            },
            None => Ok((spec_lower_return(c, None), env)),
        },
    }
}

/// The session and the variables after the `else` block of a conditional
/// was lowered, if it has one.
pub open spec fn spec_lower_else(c: CompilerView, env: Env, else_block: Option<Block>) -> LoweredStmt
    decreases else_block, 0nat,
{
    match else_block {
        Some(block) => spec_lower_statements(c, env, block.statements@, 0),
        None => Ok((c, env)),
    }
}

/// The session and the variables after the statements from `from` on were
/// lowered in order.
pub open spec fn spec_lower_statements(c: CompilerView, env: Env, statements: Seq<Statement>, from: int) -> LoweredStmt
    decreases statements, statements.len() - from,
{
    if 0 <= from < statements.len() {
        match spec_lower_statement(c, env, statements[from]) {
            Err(e) => Err(e),
            Ok((c, env)) => spec_lower_statements(c, env, statements, from + 1),
        }
    } else {
        Ok((c, env))
    }
}

impl<'a> Compiler<'a> {
    /// Reserves a new slot for `name` and stores `value` in it.
    pub fn declare_variable(&mut self, ctx: &mut FunctionContext, name: &str, value: EvaluatedValue)
        requires
            old(self)@.positioned(),
            value.wf(),
            value.ty != OtterType::Unit,
        ensures
            (final(self)@, final(ctx)@) == spec_declare_variable(old(self)@, old(ctx)@, name@, value),
            final(self)@.appends_to(old(self)@),
            holds_values(old(ctx)@) ==> holds_values(final(ctx)@),
            old(self)@.grounded() && old(self)@.sees_env(old(ctx)@) && old(self)@.sees_value(value)
                ==> final(self)@.grounded() && final(self)@.sees_env(final(ctx)@),
            final(self)@.inserts_after(old(self)@),
    {
        let ty = match value.ty {
            OtterType::Bool => IrType::I1,
            OtterType::I32 => IrType::I32,
            OtterType::I64 => IrType::I64,
            OtterType::F64 => IrType::F64,
            _ => IrType::Ptr,
        };
        let slot = self.emit(Instr::Alloca { ty, name: name.to_owned() });
        self.emit(Instr::Store { ptr: slot, value: value.value.unwrap() });
        ctx.insert(name.to_owned(), Variable { slot, ty: value.ty });
    }

    /// Lowers `let name = value`.
    pub fn lower_let(&mut self, ctx: &mut FunctionContext, name: &str, value: EvaluatedValue) -> (r: Result<
        (),
        CodegenError,
    >)
        requires
            old(self)@.positioned(),
            value.wf(),
        ensures
            statement_matches(
                spec_lower_let(old(self)@, old(ctx)@, name@, value),
                old(self)@,
                final(self)@,
                final(ctx)@,
                r,
            ),
            r is Ok ==> final(self)@.appends_to(old(self)@),
            r is Ok && holds_values(old(ctx)@) ==> holds_values(final(ctx)@),
            r is Ok && old(self)@.grounded() && old(self)@.sees_env(old(ctx)@)
                && old(self)@.sees_value(value)
                ==> final(self)@.grounded() && final(self)@.sees_env(final(ctx)@),
            r is Ok ==> final(self)@.inserts_after(old(self)@),
    {
        if value.ty == OtterType::Unit {
            return Err(CodegenError::new(ErrorCode::UnitDeclared, name));
        }
        self.declare_variable(ctx, name, value);
        Ok(())
    }

    /// Lowers `name = value`.
    pub fn lower_assign(&mut self, ctx: &mut FunctionContext, name: &str, value: EvaluatedValue) -> (r: Result<
        (),
        CodegenError,
    >)
        requires
            old(self)@.positioned(),
            value.wf(),
        ensures
            statement_matches(
                spec_lower_assign(old(self)@, old(ctx)@, name@, value),
                old(self)@,
                final(self)@,
                final(ctx)@,
                r,
            ),
            r is Ok ==> final(self)@.appends_to(old(self)@),
            r is Ok && holds_values(old(ctx)@) ==> holds_values(final(ctx)@),
            r is Ok && old(self)@.grounded() && old(self)@.sees_env(old(ctx)@)
                && old(self)@.sees_value(value)
                ==> final(self)@.grounded() && final(self)@.sees_env(final(ctx)@),
            r is Ok ==> final(self)@.inserts_after(old(self)@),
    {
        if value.ty == OtterType::Unit {
            return Err(CodegenError::new(ErrorCode::UnitAssigned, name));
        }
        match ctx.get(name) {
            Some(variable) => {
                if variable.ty != value.ty {
                    return Err(
                        CodegenError::new(
                            ErrorCode::AssignTypeMismatch { existing: variable.ty, new: value.ty },
                            name,
                        ),
                    );
                }
                self.emit(Instr::Store { ptr: variable.slot, value: value.value.unwrap() });
            },
            None => {
                self.declare_variable(ctx, name, value);
            },
        }
        Ok(())
    }

    /// Inserts a return of `value`, or of nothing.
    pub fn lower_return(&mut self, value: Option<EvaluatedValue>)
        requires
            old(self)@.positioned(),
        ensures
            final(self)@ == spec_lower_return(old(self)@, value),
            final(self)@.ends_block_of(old(self)@),
            old(self)@.grounded() && (value matches Some(v)
                ==> old(self)@.sees_value(v)) ==> final(self)@.grounded(),
            final(self)@.current_block().terminated(),
            final(self)@.inserts_after(old(self)@),
    {
        let operand = match value {
            Some(v) => v.value,
            None => None,
        };
        self.emit(Instr::Return { value: operand });
    }

    /// Inserts a branch to `target` unless the block under the cursor
    /// already ends in a terminator.
    pub fn branch_if_open(&mut self, target: usize)
        requires
            old(self)@.positioned(),
        ensures
            final(self)@ == spec_branch_if_open(old(self)@, target),
            final(self)@.ends_block_of(old(self)@),
            old(self)@.current_block().closed() ==> final(self)@ == old(self)@,
            old(self)@.grounded() && target < old(self)@.current_fn().blocks.len()
                ==> final(self)@.grounded(),
            final(self)@.current_block().terminated(),
    {
        if !self.terminated() {
            self.emit(Instr::Branch { target });
        }
    }

    /// Adds the blocks of a conditional, branches on `cond` and moves the
    /// cursor into the `then` block.
    pub fn open_if(&mut self, cond: Operand) -> (blocks: IfBlocks)
        requires
            old(self)@.positioned(),
        ensures
            (final(self)@, blocks) == spec_open_if(old(self)@, cond),
            final(self)@.continues(old(self)@),
            final(self)@.keeps_others(old(self)@),
            final(self)@.keeps_blocks(old(self)@),
            final(self)@.current_fn().blocks.len() == old(self)@.current_fn().blocks.len() + 3,
            blocks.then_block == old(self)@.current_fn().blocks.len(),
            blocks.else_block == blocks.then_block + 1,
            blocks.merge == blocks.then_block + 2,
            final(self)@.block == blocks.then_block,
            final(self)@.current_fn().blocks[blocks.then_block as int].instrs.len() == 0,
            final(self)@.current_fn().blocks[blocks.else_block as int].instrs.len() == 0,
            final(self)@.current_fn().blocks[blocks.merge as int].instrs.len() == 0,
            old(self)@.current_block().open()
                ==> final(self)@.current_fn().blocks[old(self)@.block as int].closed(),
            old(self)@.grounded() && old(self)@.sees(cond) ==> final(self)@.grounded(),
            final(self)@.current_fn().blocks[old(self)@.block as int].terminated(),
            final(self)@.inserts_after(old(self)@),
    {
        let then_block = self.append_basic_block("then");
        let else_block = self.append_basic_block("else");
        let merge = self.append_basic_block("ifcont");
        self.emit(Instr::CondBranch { cond, then_block, else_block });
        self.position_at_end(then_block);
        IfBlocks { then_block, else_block, merge }
    }

    /// Coerces the bounds of a range loop.
    pub fn range_bounds(&mut self, start: EvaluatedValue, end: EvaluatedValue) -> (r: Result<
        LoopRange,
        CodegenError,
    >)
        requires
            old(self)@.positioned(),
            start.wf(),
            end.wf(),
        ensures
            crate::expr::lowering_matches(
                spec_range_bounds(old(self)@, start, end),
                final(self)@,
                r,
            ),
            r is Ok ==> final(self)@.appends_to(old(self)@),
            r matches Ok(range)
                ==> (old(self)@.sees_value(start)
                && old(self)@.sees_value(end) ==> final(self)@.sees(range.start)
                && final(self)@.sees(range.end)),
            r is Ok && old(self)@.grounded() && old(self)@.sees_value(start)
                && old(self)@.sees_value(end)
                ==> final(self)@.grounded(),
    {
        if start.ty == OtterType::F64 && end.ty == OtterType::F64 {
            Ok(LoopRange { start: start.value.unwrap(), end: end.value.unwrap(), float: true })
        } else if start.ty == OtterType::I64 && end.ty == OtterType::I64 {
            Ok(LoopRange { start: start.value.unwrap(), end: end.value.unwrap(), float: false })
        } else if start.ty == OtterType::I32 && end.ty == OtterType::I32 {
            let start = self.widen(start, "start_to_i64");
            let end = self.widen(end, "end_to_i64");
            Ok(LoopRange { start: start.value.unwrap(), end: end.value.unwrap(), float: false })
        } else if start.ty == OtterType::F64 && end.ty == OtterType::I64 {
            let end = self.int_to_float(end, "end_to_float");
            Ok(LoopRange { start: start.value.unwrap(), end: end.value.unwrap(), float: true })
        } else if start.ty == OtterType::I64 && end.ty == OtterType::F64 {
            let start = self.int_to_float(start, "start_to_float");
            Ok(LoopRange { start: start.value.unwrap(), end: end.value.unwrap(), float: true })
        } else {
            Err(CodegenError::bare(ErrorCode::RangeNotNumeric))
        }
    }

    /// Lowers the head of a range loop and moves the cursor into its body.
    #[verifier::rlimit(40)]
    pub fn open_loop(&mut self, ctx: &mut FunctionContext, var: &str, range: LoopRange) -> (frame: LoopFrame)
        requires
            old(self)@.positioned(),
        ensures
            (final(self)@, final(ctx)@, frame) == spec_open_loop(old(self)@, old(ctx)@, var@, range),
            holds_values(old(ctx)@) ==> holds_values(final(ctx)@),
            final(self)@.continues(old(self)@),
            final(self)@.keeps_others(old(self)@),
            final(self)@.keeps_blocks(old(self)@),
            final(self)@.current_fn().blocks.len() == old(self)@.current_fn().blocks.len() + 3,
            frame.header == old(self)@.current_fn().blocks.len(),
            frame.body == frame.header + 1,
            frame.end == frame.header + 2,
            final(self)@.block == frame.body,
            final(self)@.current_fn().blocks[frame.header as int].closed(),
            final(self)@.current_fn().blocks[frame.body as int].instrs.len() == 0,
            final(self)@.current_fn().blocks[frame.end as int].instrs.len() == 0,
            old(self)@.current_block().open()
                ==> final(self)@.current_fn().blocks[old(self)@.block as int].closed(),
            final(self)@.sees(frame.slot),
            old(self)@.grounded() && old(self)@.sees_env(old(ctx)@) && old(self)@.sees(range.start)
                && old(self)@.sees(range.end)
                ==> final(self)@.grounded() && final(self)@.sees_env(final(ctx)@),
            final(self)@.current_fn().blocks[old(self)@.block as int].terminated(),
            final(self)@.current_fn().blocks[frame.header as int].terminated(),
            final(self)@.inserts_after(old(self)@),
    {
        let header = self.append_basic_block("loop_header");
        let body = self.append_basic_block("loop_body");
        let end = self.append_basic_block("loop_end");
        let (ty, loop_ty) = if range.float {
            (IrType::F64, OtterType::F64)
        } else {
            (IrType::I64, OtterType::I64)
        };
        let slot = self.emit(Instr::Alloca { ty, name: var.to_owned() });
        self.emit(Instr::Store { ptr: slot, value: range.start });
        ctx.insert(var.to_owned(), Variable { slot, ty: loop_ty });
        self.emit(Instr::Branch { target: header });
        self.position_at_end(header);
        let current = self.emit(Instr::Load { ty, ptr: slot, name: "current".to_owned() });
        let kind = if range.float {
            BinaryKind::FloatLt
        } else {
            BinaryKind::IntLt
        };
        let cond = self.emit(
            Instr::Binary { kind, lhs: current, rhs: range.end, name: "loop_cond".to_owned() },
        );
        self.emit(Instr::CondBranch { cond, then_block: body, else_block: end });
        self.position_at_end(body);
        LoopFrame { header, body, end, slot, float: range.float }
    }

    /// Lowers the tail of a range loop and moves the cursor behind the loop.
    pub fn close_loop(&mut self, frame: &LoopFrame)
        requires
            old(self)@.positioned(),
            frame.end < old(self)@.current_fn().blocks.len(),
        ensures
            final(self)@ == spec_close_loop(old(self)@, *frame),
            final(self)@.continues(old(self)@),
            final(self)@.keeps_others(old(self)@),
            final(self)@.keeps_blocks(old(self)@),
            final(self)@.current_fn().blocks.len() == old(self)@.current_fn().blocks.len(),
            final(self)@.block == frame.end,
            old(self)@.current_block().open()
                ==> final(self)@.current_fn().blocks[old(self)@.block as int].closed(),
            old(self)@.grounded() && old(self)@.sees(frame.slot)
                && frame.header < old(self)@.current_fn().blocks.len()
                ==> final(self)@.grounded(),
            final(self)@.current_fn().blocks[old(self)@.block as int].terminated(),
            final(self)@.inserts_after(old(self)@),
    {
        let ty = if frame.float {
            IrType::F64
        } else {
            IrType::I64
        };
        let current = self.emit(Instr::Load { ty, ptr: frame.slot, name: "current".to_owned() });
        let (kind, one) = if frame.float {
            (BinaryKind::FloatAdd, Operand::ConstFloat { bits: FLOAT_ONE })
        } else {
            (BinaryKind::IntAdd, Operand::ConstInt { ty: IrType::I64, value: 1 })
        };
        let next = self.emit(Instr::Binary { kind, lhs: current, rhs: one, name: "next".to_owned() });
        self.emit(Instr::Store { ptr: frame.slot, value: next });
        self.emit(Instr::Branch { target: frame.header });
        self.position_at_end(frame.end);
    }

    /// Lowers a conditional.
    #[verifier::rlimit(40)]
    pub fn lower_if(&mut self, statement: &Statement, ctx: &mut FunctionContext) -> (r: Result<(), CodegenError>)
        requires
            old(self)@.positioned(),
        ensures
            statement_matches(
                spec_lower_if(old(self)@, old(ctx)@, *statement),
                old(self)@,
                final(self)@,
                final(ctx)@,
                r,
            ),
            r is Ok && statement is If && tidy_statement(*statement) && old(self)@.current_block().open()
                ==> final(self)@.flows_from(old(self)@, false),
            r is Ok && holds_values(old(ctx)@) ==> holds_values(final(ctx)@),
            r is Ok && old(self)@.grounded() && old(self)@.sees_env(old(ctx)@)
                ==> final(self)@.grounded() && final(self)@.sees_env(final(ctx)@),
            r is Ok ==> final(self)@.advances_from(old(self)@),
            r is Ok && statement is If ==> final(self)@.inserts_after(old(self)@),
            r is Ok && statement is If && !tidy_statement(*statement)
                ==> final(self)@.module.has_spoiled(),
        decreases statement, 0nat,
    {
        if let Statement::If { cond, then_block, elif_blocks, else_block } = statement {
            let cond_value = self.eval_expr(cond, ctx)?;
            if cond_value.ty != OtterType::Bool {
                return Err(CodegenError::bare(ErrorCode::ConditionNotBool(cond_value.ty)));
            }
            let blocks = self.open_if(cond_value.value.unwrap());
            self.lower_statements(&then_block.statements, ctx)?;
            let ghost then_done = self@;
            self.branch_if_open(blocks.merge);
            self.position_at_end(blocks.else_block);
            let ghost else_begun = self@;
            if let Some(else_block) = else_block {
                self.lower_statements(&else_block.statements, ctx)?;
            }
            let ghost else_done = self@;
            self.branch_if_open(blocks.merge);
            let ghost branched = self@;
            self.position_at_end(blocks.merge);
            proof {
                if then_done.module.has_spoiled() {
                    crate::state::lemma_spoiled_stays(then_done, else_begun);
                }
                if else_begun.module.has_spoiled() {
                    crate::state::lemma_spoiled_stays(else_begun, else_done);
                }
                if else_done.module.has_spoiled() {
                    crate::state::lemma_spoiled_stays(else_done, branched);
                    crate::state::lemma_spoiled_stays(branched, self@);
                }
            }
        }
        Ok(())
    }

    /// Lowers a loop over a range.
    #[verifier::rlimit(40)]
    pub fn lower_for(&mut self, statement: &Statement, ctx: &mut FunctionContext) -> (r: Result<(), CodegenError>)
        requires
            old(self)@.positioned(),
        ensures
            statement_matches(
                spec_lower_for(old(self)@, old(ctx)@, *statement),
                old(self)@,
                final(self)@,
                final(ctx)@,
                r,
            ),
            r is Ok && statement is For && tidy_statement(*statement) && old(self)@.current_block().open()
                ==> final(self)@.flows_from(old(self)@, false),
            r is Ok && holds_values(old(ctx)@) ==> holds_values(final(ctx)@),
            r is Ok && old(self)@.grounded() && old(self)@.sees_env(old(ctx)@)
                ==> final(self)@.grounded() && final(self)@.sees_env(final(ctx)@),
            r is Ok ==> final(self)@.advances_from(old(self)@),
            r is Ok && statement is For ==> final(self)@.inserts_after(old(self)@),
            r is Ok && statement is For && !tidy_statement(*statement)
                ==> final(self)@.module.has_spoiled(),
        decreases statement, 0nat,
    {
        if let Statement::For { var, iterable, body } = statement {
            if let Expr::Range { start, end } = iterable {
                let start_val = self.eval_expr(&**start, ctx)?;
                let end_val = self.eval_expr(&**end, ctx)?;
                let range = self.range_bounds(start_val, end_val)?;
                let frame = self.open_loop(ctx, var.as_str(), range);
                let ghost body_begun = self@;
                self.lower_statements(&body.statements, ctx)?;
                let ghost body_done = self@;
                self.close_loop(&frame);
                proof {
                    if body_done.module.has_spoiled() {
                        crate::state::lemma_spoiled_stays(body_done, self@);
                    } else if !tidy_statement(*statement) {
                        assert(body_done.flows_from(body_begun, true));
                        crate::state::lemma_spoils(body_done, self@);
                    }
                }
            } else {
                return Err(CodegenError::bare(ErrorCode::Unsupported(Feature::NonRangeIterable)));
            }
        }
        Ok(())
    }

    /// Lowers a statement at the cursor.
    pub fn lower_statement(&mut self, statement: &Statement, ctx: &mut FunctionContext) -> (r: Result<
        (),
        CodegenError,
    >)
        requires
            old(self)@.positioned(),
        ensures
            statement_matches(
                spec_lower_statement(old(self)@, old(ctx)@, *statement),
                old(self)@,
                final(self)@,
                final(ctx)@,
                r,
            ),
            r is Ok && is_silent(*statement) ==> final(self)@.appends_to(old(self)@)
                && final(self)@.current_fn().blocks == old(self)@.current_fn().blocks,
            r is Ok && tidy_statement(*statement) && old(self)@.current_block().open()
                ==> final(self)@.flows_from(old(self)@, *statement is Return),
            r is Ok && holds_values(old(ctx)@) ==> holds_values(final(ctx)@),
            r is Ok && old(self)@.grounded() && old(self)@.sees_env(old(ctx)@)
                ==> final(self)@.grounded() && final(self)@.sees_env(final(ctx)@),
            r is Ok ==> final(self)@.advances_from(old(self)@),
            r is Ok && !is_silent(*statement) ==> final(self)@.inserts_after(old(self)@),
            r is Ok && !tidy_statement(*statement) ==> final(self)@.module.has_spoiled(),
        decreases statement, 1nat,
    {
        match statement {
            Statement::Expr(expr) => {
                self.eval_expr(expr, ctx)?;
                Ok(())
            },
            Statement::Let { name, expr } => {
                let evaluated = self.eval_expr(expr, ctx)?;
                self.lower_let(ctx, name.as_str(), evaluated)
            },
            Statement::Assignment { name, expr } => {
                let evaluated = self.eval_expr(expr, ctx)?;
                self.lower_assign(ctx, name.as_str(), evaluated)
            },
            Statement::If { .. } => self.lower_if(statement, ctx),
            Statement::For { .. } => self.lower_for(statement, ctx),
            Statement::While { .. } => Err(CodegenError::bare(ErrorCode::Unsupported(Feature::While))),
            Statement::Break => Err(CodegenError::bare(ErrorCode::Unsupported(Feature::Break))),
            Statement::Continue => Err(CodegenError::bare(ErrorCode::Unsupported(Feature::Continue))),
            Statement::Function(_) => Ok(()),
            Statement::Use { .. } => Ok(()),
            Statement::Block(_) => Err(CodegenError::bare(ErrorCode::Unsupported(Feature::Block))),
            Statement::Return(expr) => {
                if let Some(expr) = expr {
                    let evaluated = self.eval_expr(expr, ctx)?;
                    self.lower_return(Some(evaluated));
                } else {
                    self.lower_return(None);
                }
                Ok(())
            },
        }
    }

    /// Lowers a list of statements in order.
    #[verifier::rlimit(40)]
    pub fn lower_statements(&mut self, statements: &Vec<Statement>, ctx: &mut FunctionContext) -> (r: Result<
        (),
        CodegenError,
    >)
        requires
            old(self)@.positioned(),
        ensures
            statement_matches(
                spec_lower_statements(old(self)@, old(ctx)@, statements@, 0),
                old(self)@,
                final(self)@,
                final(ctx)@,
                r,
            ),
            r is Ok && tidy_from(statements@, 0, false) && old(self)@.current_block().open()
                ==> final(self)@.flows_from(old(self)@, returns_from(statements@, 0, false)),
            r is Ok && holds_values(old(ctx)@) ==> holds_values(final(ctx)@),
            r is Ok && old(self)@.grounded() && old(self)@.sees_env(old(ctx)@)
                ==> final(self)@.grounded() && final(self)@.sees_env(final(ctx)@),
            r is Ok ==> final(self)@.advances_from(old(self)@),
            r is Ok && !tidy_from(statements@, 0, false) && old(self)@.current_block().open()
                ==> final(self)@.module.has_spoiled(),
        decreases statements@, statements@.len(),
    {
        let ghost start = self@;
        let ghost start_env = ctx@;
        let ghost mut returned = false;
        let ghost mut tidy = true;
        let mut i: usize = 0;
        while i < statements.len()
            invariant
                i <= statements.len(),
                start == old(self)@,
                start_env == old(ctx)@,
                start.positioned(),
                self@.continues(start),
                self@.advances_from(start),
                holds_values(start_env) ==> holds_values(ctx@),
                start.grounded() && start.sees_env(start_env)
                    ==> self@.grounded() && self@.sees_env(ctx@),
                spec_lower_statements(start, start_env, statements@, 0) == spec_lower_statements(
                    self@,
                    ctx@,
                    statements@,
                    i as int,
                ),
                tidy_from(statements@, 0, false) == (tidy && tidy_from(statements@, i as int, returned)),
                returns_from(statements@, 0, false) == returns_from(statements@, i as int, returned),
                tidy && start.current_block().open() ==> self@.flows_from(start, returned),
                !tidy && start.current_block().open() ==> self@.module.has_spoiled(),
            decreases statements.len() - i,
        {
            let ghost before = self@;
            self.lower_statement(&statements[i], ctx)?;
            proof {
                let statement = statements@[i as int];
                let fits = if returned {
                    is_silent(statement)
                } else {
                    tidy_statement(statement)
                };
                crate::state::lemma_advances_on(start, before, self@);
                if start.current_block().open() {
                    if !tidy {
                        crate::state::lemma_spoiled_stays(before, self@);
                    } else if !fits {
                        if returned {
                            crate::state::lemma_spoils(before, self@);
                        }
                    } else if returned {
                        crate::state::lemma_flows_on_silently(start, before, self@);
                    } else {
                        crate::state::lemma_flows_on(start, before, self@, statement is Return);
                    }
                }
                tidy = tidy && fits;
                returned = returned || statement is Return;
            }
            i += 1;
        }
        Ok(())
    }
}

} // verus!
