//! Lowering of expressions to typed values of the intermediate
//! representation.

use crate::ast::{BinaryOp, Literal, UnaryOp};
use crate::error::{failure, CodegenError, CodegenErrorView, ErrorCode, Feature};
use crate::ffi::spec_declare_symbol;
use crate::ir::{BinaryKind, Instr, InstrView, Operand, UnaryKind};
use crate::state::{Compiler, CompilerView, EvaluatedValue};
use crate::types::{ir_type_of, named_type, str_equal, IrType, OtterType};
use vstd::prelude::*;
use vstd::string::{StrSliceExecFns, StringExecFns};

verus! {

/// Lowering that was stopped: the error, and the session as it stood when
/// the error was raised.
pub struct Failed {
    pub state: CompilerView,
    pub error: CodegenErrorView,
}

/// Lowering stopped in session `state` by the error with this code and
/// subject.
pub open spec fn failed(state: CompilerView, code: ErrorCode, subject: Seq<char>) -> Failed {
    Failed { state, error: failure(code, subject) }
}

/// What lowering yields: the session afterwards and a result; or the error
/// that stopped it, and the session in which it did.
pub type Lowered<T> = Result<(CompilerView, T), Failed>;

/// The session `after` and the result `result` are what `lowered` says:
/// the session and the value of a success, or the session and the error
/// of a failure.
pub open spec fn lowering_matches<T>(
    lowered: Lowered<T>,
    after: CompilerView,
    result: Result<T, CodegenError>,
) -> bool {
    match lowered {
        Ok((state, value)) => result == Ok::<T, CodegenError>(value) && after == state,
        Err(stopped) => result matches Err(x) && x@ == stopped.error && after == stopped.state,
    }
}

/// The character that stands for `c` in a label: a dot becomes an underscore.
pub open spec fn label_char(c: char) -> char {
    if c == '.' {
        '_'
    } else {
        c
    }
}

/// The text `name` with every dot replaced by an underscore.
pub open spec fn dots_replaced(name: Seq<char>) -> Seq<char> {
    name.map_values(|c: char| label_char(c))
}

/// The label of a call of the function that the source calls `name`.
pub open spec fn call_label(name: Seq<char>) -> Seq<char> {
    "call_"@ + dots_replaced(name)
}

/// Replaces each dot of `name` by an underscore.
fn replace_dots(name: &str) -> (label: String)
    ensures
        label@ == dots_replaced(name@),
{
    let length = name.unicode_len();
    let mut label = String::new();
    let mut i: usize = 0;
    while i < length
        invariant
            i <= length,
            length == name@.len(),
            label@ == dots_replaced(name@.take(i as int)),
        decreases length - i,
    {
        let piece = name.substring_char(i, i + 1);
        let ghost before = label@;
        if str_equal(piece, ".") {
            label.append("_");
        } else {
            label.append(piece);
        }
        proof {
            reveal_strlit(".");
            reveal_strlit("_");
            assert(piece@ =~= seq![name@[i as int]]);
            assert("."@ =~= seq!['.']);
            assert("_"@ =~= seq!['_']);
            assert(piece@ == "."@ <==> name@[i as int] == '.') by {
                assert(piece@[0] == name@[i as int]);
            }
            assert(label@ =~= before.push(label_char(name@[i as int])));
            assert(dots_replaced(name@.take(i + 1)) =~= dots_replaced(name@.take(i as int)).push(
                label_char(name@[i as int]),
            ));
        }
        i += 1;
    }
    proof {
        assert(name@.take(i as int) =~= name@);
    }
    label
}

/// The label of a call of the function that the source calls `name`.
pub fn make_call_label(name: &str) -> (label: String)
    ensures
        label@ == call_label(name@),
{
    let mangled = replace_dots(name);
    String::from_str("call_").concat(mangled.as_str())
}

/// How a binary operator is lowered.
pub enum BinaryLowering {
    /// To a float operation that yields a float.
    Arithmetic(BinaryKind),
    /// To an ordered float comparison that yields a boolean.
    Comparison(BinaryKind),
    /// Not at all.
    Unsupported(Feature),
}

/// How each binary operator is lowered.
pub open spec fn binary_lowering(op: BinaryOp) -> BinaryLowering {
    match op {
        BinaryOp::Add => BinaryLowering::Arithmetic(BinaryKind::FloatAdd),
        BinaryOp::Sub => BinaryLowering::Arithmetic(BinaryKind::FloatSub),
        BinaryOp::Mul => BinaryLowering::Arithmetic(BinaryKind::FloatMul),
        BinaryOp::Div => BinaryLowering::Arithmetic(BinaryKind::FloatDiv),
        BinaryOp::Mod => BinaryLowering::Arithmetic(BinaryKind::FloatRem),
        BinaryOp::Eq => BinaryLowering::Comparison(BinaryKind::FloatEq),
        BinaryOp::Ne => BinaryLowering::Comparison(BinaryKind::FloatNe),
        BinaryOp::Lt => BinaryLowering::Comparison(BinaryKind::FloatLt),
        BinaryOp::Gt => BinaryLowering::Comparison(BinaryKind::FloatGt),
        BinaryOp::LtEq => BinaryLowering::Comparison(BinaryKind::FloatLe),
        BinaryOp::GtEq => BinaryLowering::Comparison(BinaryKind::FloatGe),
        BinaryOp::And => BinaryLowering::Unsupported(Feature::LogicalAnd),
        BinaryOp::Or => BinaryLowering::Unsupported(Feature::LogicalOr),
    }
}

/// The label of the value that a binary operator yields.
pub open spec fn binary_label(op: BinaryOp) -> Seq<char> {
    match op {
        BinaryOp::Add => "addtmp"@,
        BinaryOp::Sub => "subtmp"@,
        BinaryOp::Mul => "multmp"@,
        BinaryOp::Div => "divtmp"@,
        BinaryOp::Mod => "modtmp"@,
        BinaryOp::Eq => "eqtmp"@,
        BinaryOp::Ne => "neqtmp"@,
        BinaryOp::Lt => "lttmp"@,
        BinaryOp::Gt => "gttmp"@,
        BinaryOp::LtEq => "letmp"@,
        BinaryOp::GtEq => "getmp"@,
        BinaryOp::And => "andtmp"@,
        BinaryOp::Or => "ortmp"@,
    }
}

/// The session and the value after a literal was lowered: a string becomes
/// a constant of the module, a number a float constant, a boolean a one-bit
/// constant.
pub open spec fn spec_eval_literal(c: CompilerView, literal: Literal) -> (CompilerView, EvaluatedValue) {
    match literal {
        Literal::String(text) => (
            c.add_string("str"@, text@),
            EvaluatedValue::with_value(c.next_string(), OtterType::Str),
        ),
        Literal::Number(bits) => (
            c,
            EvaluatedValue::with_value(Operand::ConstFloat { bits }, OtterType::F64),
        ),
        Literal::Bool(value) => (
            c,
            EvaluatedValue::with_value(
                Operand::ConstInt { ty: IrType::I1, value: if value { 1 } else { 0 } },
                OtterType::Bool,
            ),
        ),
    }
}

/// The conversion of `value` to a float, inserted at the cursor.
pub open spec fn spec_int_to_float(c: CompilerView, value: EvaluatedValue, label: Seq<char>) -> (
    CompilerView,
    EvaluatedValue,
) {
    (
        c.emit(InstrView::Unary { kind: UnaryKind::SignedToFloat, value: value.value.unwrap(), name: label }),
        EvaluatedValue::with_value(c.next_value(), OtterType::F64),
    )
}

/// The widening of the integer `value` to 64 bits, by sign extension,
/// inserted at the cursor.
pub open spec fn spec_widen(c: CompilerView, value: EvaluatedValue, label: Seq<char>) -> (
    CompilerView,
    EvaluatedValue,
) {
    (
        c.emit(InstrView::Unary { kind: UnaryKind::SignExtend, value: value.value.unwrap(), name: label }),
        EvaluatedValue::with_value(c.next_value(), OtterType::I64),
    )
}

/// The operands of a binary operator after coercion: where exactly one is a
/// 64-bit integer and the other a float, the integer is converted to a float.
pub open spec fn spec_coerce_operands(c: CompilerView, lhs: EvaluatedValue, rhs: EvaluatedValue) -> (
    CompilerView,
    EvaluatedValue,
    EvaluatedValue,
) {
    if lhs.ty == OtterType::I64 && rhs.ty == OtterType::F64 {
        let (c, lhs) = spec_int_to_float(c, lhs, "inttofloat"@);
        (c, lhs, rhs)
    } else if lhs.ty == OtterType::F64 && rhs.ty == OtterType::I64 {
        let (c, rhs) = spec_int_to_float(c, rhs, "inttofloat"@);
        (c, lhs, rhs)
    } else {
        (c, lhs, rhs)
    }
}

/// The session and the value after a binary operator was applied to two
/// evaluated operands: after coercion both must be floats; arithmetic
/// yields a float, comparison a boolean.
pub open spec fn spec_lower_binary(
    c: CompilerView,
    op: BinaryOp,
    lhs: EvaluatedValue,
    rhs: EvaluatedValue,
) -> Lowered<EvaluatedValue> {
    let (c, lhs, rhs) = spec_coerce_operands(c, lhs, rhs);
    if lhs.ty != rhs.ty {
        Err(failed(c, ErrorCode::BinaryTypeMismatch(lhs.ty, rhs.ty), Seq::empty()))
    } else if lhs.ty != OtterType::F64 {
        Err(failed(c, ErrorCode::BinaryNotFloat(lhs.ty), Seq::empty()))
    } else {
        match binary_lowering(op) {
            BinaryLowering::Arithmetic(kind) => Ok(
                (
                    c.emit(
                        InstrView::Binary {
                            kind,
                            lhs: lhs.value.unwrap(),
                            rhs: rhs.value.unwrap(),
                            name: binary_label(op),
                        },
                    ),
                    EvaluatedValue::with_value(c.next_value(), OtterType::F64),
                ),
            ),
            BinaryLowering::Comparison(kind) => Ok(
                (
                    c.emit(
                        InstrView::Binary {
                            kind,
                            lhs: lhs.value.unwrap(),
                            rhs: rhs.value.unwrap(),
                            name: binary_label(op),
                        },
                    ),
                    EvaluatedValue::with_value(c.next_value(), OtterType::Bool),
                ),
            ),
            BinaryLowering::Unsupported(feature) => Err(failed(c, ErrorCode::Unsupported(feature), Seq::empty()),
            ),
        }
    }
}

/// The session and the value after a unary operator was applied to an
/// evaluated operand: `-` negates a float, `!` complements a boolean.
pub open spec fn spec_lower_unary(c: CompilerView, op: UnaryOp, operand: EvaluatedValue) -> Lowered<
    EvaluatedValue,
> {
    match op {
        UnaryOp::Neg => if operand.ty != OtterType::F64 {
            Err(failed(c, ErrorCode::NegationNotFloat, Seq::empty()))
        } else {
            Ok(
                (
                    c.emit(
                        InstrView::Unary {
                            kind: UnaryKind::FloatNeg,
                            value: operand.value.unwrap(),
                            name: "negtmp"@,
                        },
                    ),
                    EvaluatedValue::with_value(c.next_value(), OtterType::F64),
                ),
            )
        },
        UnaryOp::Not => if operand.ty != OtterType::Bool {
            Err(failed(c, ErrorCode::NotNotBool, Seq::empty()))
        } else {
            Ok(
                (
                    c.emit(
                        InstrView::Unary {
                            kind: UnaryKind::Not,
                            value: operand.value.unwrap(),
                            name: "nottmp"@,
                        },
                    ),
                    EvaluatedValue::with_value(c.next_value(), OtterType::Bool),
                ),
            )
        },
    }
}

/// The session after a call of the host function that `name` resolves to
/// was inserted at the cursor.
pub open spec fn spec_call_symbol(c: CompilerView, name: Seq<char>, args: Seq<Operand>) -> Lowered<()> {
    match spec_declare_symbol(c, name) {
        Err(e) => Err(e),
        Ok((c, callee)) => Ok((c.emit(InstrView::Call { callee, args, name: call_label(name) }), ())),
    }
}

/// An operation on two floats, labelled as the operator that it lowers.
fn binary_instr(kind: BinaryKind, op: BinaryOp, lhs: Operand, rhs: Operand) -> (i: Instr)
    ensures
        i@ == (InstrView::Binary { kind, lhs, rhs, name: binary_label(op) }),
{
    let name = match op {
        BinaryOp::Add => "addtmp",
        BinaryOp::Sub => "subtmp",
        BinaryOp::Mul => "multmp",
        BinaryOp::Div => "divtmp",
        BinaryOp::Mod => "modtmp",
        BinaryOp::Eq => "eqtmp",
        BinaryOp::Ne => "neqtmp",
        BinaryOp::Lt => "lttmp",
        BinaryOp::Gt => "gttmp",
        BinaryOp::LtEq => "letmp",
        BinaryOp::GtEq => "getmp",
        BinaryOp::And => "andtmp",
        BinaryOp::Or => "ortmp",
    };
    Instr::Binary { kind, lhs, rhs, name: name.to_owned() }
}

impl<'a> Compiler<'a> {
    /// The semantic type that a type annotation names.
    pub fn type_from_name(name: &str) -> (r: Result<OtterType, CodegenError>)
        ensures
            match named_type(name@) {
                Some(ty) => r == Ok::<OtterType, CodegenError>(ty),
                None => r matches Err(e) && e@ == failure(ErrorCode::UnknownType, name@),
            },
    {
        if str_equal(name, "int") {
            Ok(OtterType::I64)
        } else if str_equal(name, "float") {
            Ok(OtterType::F64)
        } else if str_equal(name, "bool") {
            Ok(OtterType::Bool)
        } else if str_equal(name, "str") {
            Ok(OtterType::Str)
        } else {
            Err(CodegenError::new(ErrorCode::UnknownType, name))
        }
    }

    /// The machine type that represents a semantic type; `Unit` has none.
    pub fn basic_type(ty: OtterType) -> (r: Result<IrType, CodegenError>)
        ensures
            match ir_type_of(ty) {
                Some(t) => r == Ok::<IrType, CodegenError>(t),
                None => r matches Err(e) && e@ == failure(ErrorCode::UnitRepresentation, Seq::empty()),
            },
    {
        match ty {
            OtterType::Unit => Err(CodegenError::bare(ErrorCode::UnitRepresentation)),
            OtterType::Bool => Ok(IrType::I1),
            OtterType::I32 => Ok(IrType::I32),
            OtterType::I64 => Ok(IrType::I64),
            OtterType::F64 => Ok(IrType::F64),
            OtterType::Str => Ok(IrType::Ptr),
        }
    }

    /// Lowers a literal.
    pub fn eval_literal(&mut self, literal: &Literal) -> (r: Result<EvaluatedValue, CodegenError>)
        ensures
            r == Ok::<EvaluatedValue, CodegenError>(spec_eval_literal(old(self)@, *literal).1),
            final(self)@ == spec_eval_literal(old(self)@, *literal).0,
            old(self)@.positioned()
                ==> final(self)@.appends_to(old(self)@)
                && final(self)@.current_fn().blocks == old(self)@.current_fn().blocks,
            r matches Ok(v) ==> final(self)@.sees_value(v),
            old(self)@.grounded() ==> final(self)@.grounded(),
    {
        match literal {
            Literal::String(value) => {
                let global = self.add_string("str", value.as_str());
                Ok(EvaluatedValue::with_value(global, OtterType::Str))
            },
            Literal::Number(bits) => Ok(
                EvaluatedValue::with_value(Operand::ConstFloat { bits: *bits }, OtterType::F64),
            ),
            Literal::Bool(value) => {
                let bit: u64 = if *value { 1 } else { 0 };
                Ok(
                    EvaluatedValue::with_value(
                        Operand::ConstInt { ty: IrType::I1, value: bit },
                        OtterType::Bool,
                    ),
                )
            },
        }
    }

    /// Converts an integer value to a float at the cursor.
    pub fn int_to_float(&mut self, value: EvaluatedValue, label: &str) -> (converted: EvaluatedValue)
        requires
            old(self)@.positioned(),
            value.value is Some,
        ensures
            (final(self)@, converted) == spec_int_to_float(old(self)@, value, label@),
            final(self)@.sees_value(converted),
            old(self)@.grounded() && old(self)@.sees_value(value) ==> final(self)@.grounded(),
            final(self)@.inserts_after(old(self)@),
    {
        let float = self.emit(
            Instr::Unary {
                kind: UnaryKind::SignedToFloat,
                value: value.value.unwrap(),
                name: label.to_owned(),
            },
        );
        EvaluatedValue::with_value(float, OtterType::F64)
    }

    /// Widens an integer value to 64 bits at the cursor.
    pub fn widen(&mut self, value: EvaluatedValue, label: &str) -> (widened: EvaluatedValue)
        requires
            old(self)@.positioned(),
            value.value is Some,
        ensures
            (final(self)@, widened) == spec_widen(old(self)@, value, label@),
            final(self)@.appends_to(old(self)@),
            final(self)@.sees_value(widened),
            old(self)@.grounded() && old(self)@.sees_value(value) ==> final(self)@.grounded(),
            final(self)@.inserts_after(old(self)@),
    {
        let wide = self.emit(
            Instr::Unary { kind: UnaryKind::SignExtend, value: value.value.unwrap(), name: label.to_owned() },
        );
        EvaluatedValue::with_value(wide, OtterType::I64)
    }

    /// Applies a binary operator to two evaluated operands.
    pub fn lower_binary(&mut self, op: BinaryOp, lhs: EvaluatedValue, rhs: EvaluatedValue) -> (r: Result<
        EvaluatedValue,
        CodegenError,
    >)
        requires
            old(self)@.positioned(),
            lhs.wf(),
            rhs.wf(),
        ensures
            lowering_matches(spec_lower_binary(old(self)@, op, lhs, rhs), final(self)@, r),
            r matches Ok(v) ==> v.wf() && final(self)@.appends_to(old(self)@),
            r matches Ok(v) ==> final(self)@.sees_value(v),
            r is Ok && old(self)@.grounded() && old(self)@.sees_value(lhs)
                && old(self)@.sees_value(rhs)
                ==> final(self)@.grounded(),
            r is Ok ==> final(self)@.inserts_after(old(self)@),
    {
        let mut left = lhs;
        let mut right = rhs;
        if left.ty == OtterType::I64 && right.ty == OtterType::F64 {
            left = self.int_to_float(left, "inttofloat");
        } else if left.ty == OtterType::F64 && right.ty == OtterType::I64 {
            right = self.int_to_float(right, "inttofloat");
        }
        if left.ty != right.ty {
            return Err(CodegenError::bare(ErrorCode::BinaryTypeMismatch(left.ty, right.ty)));
        }
        if left.ty != OtterType::F64 {
            return Err(CodegenError::bare(ErrorCode::BinaryNotFloat(left.ty)));
        }
        let l = left.value.unwrap();
        let r = right.value.unwrap();
        let (kind, ty) = match op {
            BinaryOp::Add => (BinaryKind::FloatAdd, OtterType::F64),
            BinaryOp::Sub => (BinaryKind::FloatSub, OtterType::F64),
            BinaryOp::Mul => (BinaryKind::FloatMul, OtterType::F64),
            BinaryOp::Div => (BinaryKind::FloatDiv, OtterType::F64),
            BinaryOp::Mod => (BinaryKind::FloatRem, OtterType::F64),
            BinaryOp::Eq => (BinaryKind::FloatEq, OtterType::Bool),
            BinaryOp::Ne => (BinaryKind::FloatNe, OtterType::Bool),
            BinaryOp::Lt => (BinaryKind::FloatLt, OtterType::Bool),
            BinaryOp::Gt => (BinaryKind::FloatGt, OtterType::Bool),
            BinaryOp::LtEq => (BinaryKind::FloatLe, OtterType::Bool),
            BinaryOp::GtEq => (BinaryKind::FloatGe, OtterType::Bool),
            BinaryOp::And => {
                return Err(CodegenError::bare(ErrorCode::Unsupported(Feature::LogicalAnd)));
            },
            BinaryOp::Or => {
                return Err(CodegenError::bare(ErrorCode::Unsupported(Feature::LogicalOr)));
            },
        };
        let value = self.emit(binary_instr(kind, op, l, r));
        Ok(EvaluatedValue::with_value(value, ty))
    }

    /// Applies a unary operator to an evaluated operand.
    pub fn lower_unary(&mut self, op: UnaryOp, operand: EvaluatedValue) -> (r: Result<
        EvaluatedValue,
        CodegenError,
    >)
        requires
            old(self)@.positioned(),
            operand.wf(),
        ensures
            lowering_matches(spec_lower_unary(old(self)@, op, operand), final(self)@, r),
            r matches Ok(v) ==> v.wf() && final(self)@.appends_to(old(self)@),
            r matches Ok(v) ==> final(self)@.sees_value(v),
            r is Ok && old(self)@.grounded() && old(self)@.sees_value(operand)
                ==> final(self)@.grounded(),
            r is Ok ==> final(self)@.inserts_after(old(self)@),
    {
        match op {
            UnaryOp::Neg => {
                if operand.ty != OtterType::F64 {
                    return Err(CodegenError::bare(ErrorCode::NegationNotFloat));
                }
                let neg = self.emit(
                    Instr::Unary {
                        kind: UnaryKind::FloatNeg,
                        value: operand.value.unwrap(),
                        name: "negtmp".to_owned(),
                    },
                );
                Ok(EvaluatedValue::with_value(neg, OtterType::F64))
            },
            UnaryOp::Not => {
                if operand.ty != OtterType::Bool {
                    return Err(CodegenError::bare(ErrorCode::NotNotBool));
                }
                let not = self.emit(
                    Instr::Unary {
                        kind: UnaryKind::Not,
                        value: operand.value.unwrap(),
                        name: "nottmp".to_owned(),
                    },
                );
                Ok(EvaluatedValue::with_value(not, OtterType::Bool))
            },
        }
    }

    /// Inserts a call of the host function that `name` resolves to.
    pub fn call_symbol(&mut self, name: &str, args: Vec<Operand>) -> (r: Result<(), CodegenError>)
        requires
            old(self)@.positioned(),
        ensures
            lowering_matches(spec_call_symbol(old(self)@, name@, args@), final(self)@, r),
            r is Ok ==> final(self)@.appends_to(old(self)@),
            r is Ok && old(self)@.grounded() && old(self)@.sees_all(args@)
                ==> final(self)@.grounded(),
            r is Ok ==> final(self)@.inserts_after(old(self)@),
    {
        let function = self.declare_symbol_function(name)?;
        let label = make_call_label(name);
        self.emit(Instr::Call { callee: function, args, name: label });
        Ok(())
    }
}

} // verus!
