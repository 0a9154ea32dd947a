//! Every error, with an input that gives it and the text that it shows.

use otterlang::ast::{BinaryOp, Block, Expr, FStringPart, Function, Literal, Param, Program, Statement, UnaryOp};
use otterlang::backend::{check_step, check_verified, emit_ir};
use otterlang::steps::{BuildState, BuildStep};
use otterlang::error::{CodegenError, ErrorCode, ErrorKind, Feature, ToolchainStep};
use otterlang::ir::{BlockIr, FunctionIr, Instr, ModuleIr, Operand};
use otterlang::program::lower_program;
use otterlang::state::{Compiler, FunctionContext, Variable};
use otterlang::symbols::{bootstrap_stdlib, FfiFunction, FfiSignature, FfiType, SymbolRegistry};
use otterlang::types::{IrType, OtterType};

fn number(value: f64) -> Expr {
    Expr::Literal(Literal::Number(value.to_bits()))
}

fn truth(value: bool) -> Expr {
    Expr::Literal(Literal::Bool(value))
}

fn text(value: &str) -> Expr {
    Expr::Literal(Literal::String(value.to_string()))
}

fn ident(name: &str) -> Expr {
    Expr::Identifier(name.to_string())
}

fn call(name: &str, args: Vec<Expr>) -> Expr {
    Expr::Call { func: Box::new(ident(name)), args }
}

fn member(module: &str, field: &str) -> Expr {
    Expr::Member { object: Box::new(ident(module)), field: field.to_string() }
}

fn binary(left: Expr, op: BinaryOp, right: Expr) -> Expr {
    Expr::Binary { left: Box::new(left), op, right: Box::new(right) }
}

fn function(name: &str, params: Vec<Param>, ret_ty: Option<&str>, body: Vec<Statement>) -> Function {
    Function {
        name: name.to_string(),
        params,
        ret_ty: ret_ty.map(|s| s.to_string()),
        body: Block { statements: body },
    }
}

fn main_with(body: Vec<Statement>) -> Program {
    Program { statements: vec![Statement::Function(function("main", vec![], None, body))] }
}

fn host(name: &str, symbol: &str, params: Vec<FfiType>, result: FfiType) -> FfiFunction {
    FfiFunction { name: name.to_string(), symbol: symbol.to_string(), signature: FfiSignature { params, result } }
}

fn failure_in(registry: &SymbolRegistry, body: Vec<Statement>) -> CodegenError {
    lower_program(&main_with(body), registry).unwrap_err()
}

fn failure_of(body: Vec<Statement>) -> CodegenError {
    failure_in(&bootstrap_stdlib(), body)
}

fn failure_of_expr(expr: Expr) -> CodegenError {
    failure_of(vec![Statement::Expr(expr)])
}

fn expect(error: CodegenError, kind: ErrorKind, code: ErrorCode, subject: &str, message: &str) {
    assert_eq!(error.code, code);
    assert_eq!(error.kind(), kind);
    assert_eq!(error.subject, subject);
    assert_eq!(error.message(), message);
}

#[test]
fn unknown_type_annotation() {
    let program = Program {
        statements: vec![Statement::Function(function(
            "main",
            vec![Param { name: "x".to_string(), ty: Some("number".to_string()) }],
            None,
            vec![],
        ))],
    };
    let error = lower_program(&program, &bootstrap_stdlib()).unwrap_err();
    expect(error, ErrorKind::InputProgram, ErrorCode::UnknownType, "number", "unknown type: number");
    let program = Program { statements: vec![Statement::Function(function("main", vec![], Some("void"), vec![]))] };
    let error = lower_program(&program, &bootstrap_stdlib()).unwrap_err();
    expect(error, ErrorKind::InputProgram, ErrorCode::UnknownType, "void", "unknown type: void");
}

#[test]
fn type_names() {
    assert_eq!(Compiler::type_from_name("int"), Ok(OtterType::I64));
    assert_eq!(Compiler::type_from_name("float"), Ok(OtterType::F64));
    assert_eq!(Compiler::type_from_name("bool"), Ok(OtterType::Bool));
    assert_eq!(Compiler::type_from_name("str"), Ok(OtterType::Str));
    assert_eq!(Compiler::type_from_name("Int").unwrap_err().code, ErrorCode::UnknownType);
    assert_eq!(Compiler::type_from_name("").unwrap_err().code, ErrorCode::UnknownType);
}

#[test]
fn machine_types() {
    assert_eq!(Compiler::basic_type(OtterType::Bool), Ok(IrType::I1));
    assert_eq!(Compiler::basic_type(OtterType::I32), Ok(IrType::I32));
    assert_eq!(Compiler::basic_type(OtterType::I64), Ok(IrType::I64));
    assert_eq!(Compiler::basic_type(OtterType::F64), Ok(IrType::F64));
    assert_eq!(Compiler::basic_type(OtterType::Str), Ok(IrType::Ptr));
    expect(
        Compiler::basic_type(OtterType::Unit).unwrap_err(),
        ErrorKind::TypeCheck,
        ErrorCode::UnitRepresentation,
        "",
        "unit type has no runtime representation",
    );
}

#[test]
fn unknown_identifier() {
    expect(
        failure_of_expr(call("println", vec![ident("ghost")])),
        ErrorKind::NameResolution,
        ErrorCode::UnknownIdentifier,
        "ghost",
        "unknown identifier `ghost`",
    );
}

#[test]
fn unknown_function() {
    expect(
        failure_of_expr(call("nope", vec![])),
        ErrorKind::NameResolution,
        ErrorCode::UnknownFunction,
        "nope",
        "unknown function `nope`",
    );
}

#[test]
fn unresolved_symbol() {
    let empty = SymbolRegistry::new();
    expect(
        failure_in(&empty, vec![Statement::Expr(call("println", vec![text("a")]))]),
        ErrorKind::NameResolution,
        ErrorCode::UnresolvedSymbol,
        "std.io.println",
        "unresolved symbol `std.io.println`",
    );
    expect(
        failure_in(&empty, vec![Statement::Expr(member("time", "now"))]),
        ErrorKind::NameResolution,
        ErrorCode::UnresolvedSymbol,
        "std.time.now",
        "unresolved symbol `std.time.now`",
    );
}

#[test]
fn unknown_member() {
    expect(
        failure_of_expr(member("io", "nothing")),
        ErrorKind::NameResolution,
        ErrorCode::UnknownMember,
        "io.nothing",
        "unknown member access: io.nothing",
    );
}

#[test]
fn call_of_unknown_member_is_an_unknown_member() {
    expect(
        failure_of_expr(Expr::Call { func: Box::new(member("io", "nothing")), args: vec![text("x")] }),
        ErrorKind::NameResolution,
        ErrorCode::UnknownMember,
        "io.nothing",
        "unknown member access: io.nothing",
    );
    expect(
        failure_of_expr(Expr::Call {
            func: Box::new(Expr::Member { object: Box::new(number(1.0)), field: "f".to_string() }),
            args: vec![],
        }),
        ErrorKind::UnsupportedFeature,
        ErrorCode::Unsupported(Feature::NonIdentifierCallee),
        "",
        "only identifier calls are supported",
    );
}

#[test]
fn body_of_undeclared_function() {
    let registry = bootstrap_stdlib();
    let mut compiler = Compiler::new(&registry);
    let error = compiler.lower_function_body(&function("lost", vec![], None, vec![])).unwrap_err();
    expect(error, ErrorKind::NameResolution, ErrorCode::FunctionNotDeclared, "lost", "function lost not declared");
}

#[test]
fn body_with_more_parameters_than_declared() {
    let program = Program {
        statements: vec![
            Statement::Function(function("main", vec![], None, vec![])),
            Statement::Function(function(
                "main",
                vec![Param { name: "a".to_string(), ty: None }],
                None,
                vec![],
            )),
        ],
    };
    let error = lower_program(&program, &bootstrap_stdlib()).unwrap_err();
    expect(
        error,
        ErrorKind::NameResolution,
        ErrorCode::MissingParameter(0),
        "main",
        "failed to get parameter 0 for function main",
    );
}

#[test]
fn binary_operands_must_be_floats() {
    expect(
        failure_of_expr(binary(number(1.0), BinaryOp::Add, text("s"))),
        ErrorKind::TypeCheck,
        ErrorCode::BinaryTypeMismatch(OtterType::F64, OtterType::Str),
        "",
        "binary operation type mismatch: F64 vs Str",
    );
    expect(
        failure_of_expr(binary(truth(true), BinaryOp::Eq, truth(false))),
        ErrorKind::TypeCheck,
        ErrorCode::BinaryNotFloat(OtterType::Bool),
        "",
        "binary expressions currently support only float operands, got Bool",
    );
}

#[test]
fn logical_operators_are_not_lowered() {
    expect(
        failure_of_expr(binary(number(1.0), BinaryOp::And, number(2.0))),
        ErrorKind::UnsupportedFeature,
        ErrorCode::Unsupported(Feature::LogicalAnd),
        "",
        "Logical and not yet implemented",
    );
    expect(
        failure_of_expr(binary(number(1.0), BinaryOp::Or, number(2.0))),
        ErrorKind::UnsupportedFeature,
        ErrorCode::Unsupported(Feature::LogicalOr),
        "",
        "Logical or not yet implemented",
    );
    assert_eq!(
        failure_of_expr(binary(truth(true), BinaryOp::And, truth(false))).code,
        ErrorCode::BinaryNotFloat(OtterType::Bool)
    );
}

#[test]
fn unary_operand_types() {
    expect(
        failure_of_expr(Expr::Unary { op: UnaryOp::Neg, expr: Box::new(truth(true)) }),
        ErrorKind::TypeCheck,
        ErrorCode::NegationNotFloat,
        "",
        "negation only supported for floats currently",
    );
    expect(
        failure_of_expr(Expr::Unary { op: UnaryOp::Not, expr: Box::new(number(1.0)) }),
        ErrorKind::TypeCheck,
        ErrorCode::NotNotBool,
        "",
        "logical not only supported for booleans",
    );
}

#[test]
fn assignment_keeps_the_type() {
    expect(
        failure_of(vec![
            Statement::Let { name: "x".to_string(), expr: number(1.0) },
            Statement::Assignment { name: "x".to_string(), expr: text("s") },
        ]),
        ErrorKind::TypeCheck,
        ErrorCode::AssignTypeMismatch { existing: OtterType::F64, new: OtterType::Str },
        "x",
        "type mismatch assigning to `x`: existing F64, new Str",
    );
}

#[test]
fn unit_cannot_be_assigned() {
    expect(
        failure_of(vec![Statement::Assignment {
            name: "x".to_string(),
            expr: call("println", vec![text("a")]),
        }]),
        ErrorKind::TypeCheck,
        ErrorCode::UnitAssigned,
        "x",
        "cannot assign unit value to `x`",
    );
}

#[test]
fn registry_calls_check_arity_and_types() {
    expect(
        failure_of_expr(call("std.io.print", vec![])),
        ErrorKind::TypeCheck,
        ErrorCode::ArityMismatch { params: 1, args: 0 },
        "std.io.print",
        "function `std.io.print` expected 1 arguments but got 0",
    );
    expect(
        failure_of_expr(call("std.io.print", vec![number(1.0)])),
        ErrorKind::TypeCheck,
        ErrorCode::ArgumentTypeMismatch { expected: OtterType::Str, found: OtterType::F64 },
        "std.io.print",
        "argument type mismatch for `std.io.print`: expected Str, found F64",
    );
}

#[test]
fn arity_with_many_digits() {
    let mut registry = SymbolRegistry::new();
    registry.register(host("wide", "host_wide", vec![FfiType::F64; 120], FfiType::Unit));
    let error = failure_in(&registry, vec![Statement::Expr(call("wide", vec![]))]);
    assert_eq!(error.message(), "function `wide` expected 120 arguments but got 0");
    let args: Vec<Expr> = (0..1007).map(|_| number(0.0)).collect();
    let error = failure_in(&registry, vec![Statement::Expr(call("wide", args))]);
    assert_eq!(error.code, ErrorCode::ArityMismatch { params: 120, args: 1007 });
    assert_eq!(error.message(), "function `wide` expected 120 arguments but got 1007");
    assert_eq!(otterlang::message::decimal_of(0), "0");
    assert_eq!(otterlang::message::decimal_of(9), "9");
    assert_eq!(otterlang::message::decimal_of(10), "10");
    assert_eq!(otterlang::message::decimal_of(4096), "4096");
    assert_eq!(otterlang::message::decimal_of(usize::MAX), usize::MAX.to_string());
}

#[test]
fn print_takes_one_string() {
    expect(
        failure_of_expr(call("print", vec![])),
        ErrorKind::TypeCheck,
        ErrorCode::PrintArity,
        "print",
        "print expects exactly 1 argument",
    );
    expect(
        failure_of_expr(call("println", vec![text("a"), text("b")])),
        ErrorKind::TypeCheck,
        ErrorCode::PrintArity,
        "println",
        "println expects exactly 1 argument",
    );
    expect(
        failure_of_expr(call("println", vec![number(1.0)])),
        ErrorKind::TypeCheck,
        ErrorCode::PrintNotString(OtterType::F64),
        "println",
        "println currently supports only string values, got F64",
    );
}

#[test]
fn range_bounds_must_be_numbers() {
    let looped = |start: Expr, end: Expr| Statement::For {
        var: "i".to_string(),
        iterable: Expr::Range { start: Box::new(start), end: Box::new(end) },
        body: Block { statements: vec![] },
    };
    expect(
        failure_of(vec![looped(text("a"), text("b"))]),
        ErrorKind::TypeCheck,
        ErrorCode::RangeNotNumeric,
        "",
        "for loop range start and end must be numeric types",
    );
    assert_eq!(failure_of(vec![looped(number(0.0), truth(true))]).code, ErrorCode::RangeNotNumeric);
    expect(
        failure_of(vec![Statement::For {
            var: "i".to_string(),
            iterable: ident("items"),
            body: Block { statements: vec![] },
        }]),
        ErrorKind::UnsupportedFeature,
        ErrorCode::Unsupported(Feature::NonRangeIterable),
        "",
        "for loops currently only support range expressions",
    );
}

#[test]
fn interpolated_string_formats_numbers_and_strings_only() {
    expect(
        failure_of_expr(Expr::FString { parts: vec![FStringPart::Expr(Box::new(truth(true)))] }),
        ErrorKind::TypeCheck,
        ErrorCode::FStringType(OtterType::Bool),
        "",
        "unsupported type in f-string: Bool",
    );
}

#[test]
fn unit_cannot_be_passed() {
    let program = Program {
        statements: vec![
            Statement::Function(function("f", vec![Param { name: "a".to_string(), ty: None }], None, vec![])),
            Statement::Function(function(
                "main",
                vec![],
                None,
                vec![Statement::Expr(call("f", vec![call("println", vec![text("x")])]))],
            )),
        ],
    };
    expect(
        lower_program(&program, &bootstrap_stdlib()).unwrap_err(),
        ErrorKind::TypeCheck,
        ErrorCode::UnitArgument,
        "",
        "expected value for call argument",
    );
}

#[test]
fn unit_variable_cannot_be_read() {
    let registry = bootstrap_stdlib();
    let mut compiler = Compiler::new(&registry);
    let main = function("main", vec![], None, vec![]);
    compiler.declare_function(&main).unwrap();
    compiler.enter_function(&main).unwrap();
    let mut ctx = FunctionContext::new();
    ctx.insert("u".to_string(), Variable { slot: Operand::Param { index: 0 }, ty: OtterType::Unit });
    let error = compiler.eval_expr(&ident("u"), &ctx).unwrap_err();
    assert_eq!(error.code, ErrorCode::UnitRepresentation);
}

#[test]
fn unit_is_no_parameter_of_a_host_function() {
    let mut registry = SymbolRegistry::new();
    registry.register(host("bad", "host_bad", vec![FfiType::Unit], FfiType::Unit));
    expect(
        failure_in(&registry, vec![Statement::Expr(call("bad", vec![number(1.0)]))]),
        ErrorKind::TypeCheck,
        ErrorCode::UnitFfiParam,
        "",
        "unit type is not allowed in FFI parameter position",
    );
    assert_eq!(otterlang::ffi::ffi_type_to_basic(FfiType::Unit).unwrap_err().code, ErrorCode::UnitFfiParam);
    assert_eq!(otterlang::ffi::ffi_type_to_basic(FfiType::Str), Ok(IrType::Ptr));
    assert_eq!(
        otterlang::ffi::ffi_param_types(&vec![FfiType::Bool, FfiType::F64]),
        Ok(vec![IrType::I1, IrType::F64])
    );
    assert_eq!(
        otterlang::ffi::ffi_param_types(&vec![FfiType::Bool, FfiType::Unit]).unwrap_err().code,
        ErrorCode::UnitFfiParam
    );
}

#[test]
fn call_that_yields_nothing_where_a_value_is_due() {
    let mut registry = SymbolRegistry::new();
    registry.register(host("quiet", "host_shared", vec![], FfiType::Unit));
    registry.register(host("loud", "host_shared", vec![], FfiType::I64));
    expect(
        failure_in(
            &registry,
            vec![Statement::Expr(call("quiet", vec![])), Statement::Expr(call("loud", vec![]))],
        ),
        ErrorKind::TypeCheck,
        ErrorCode::CallWithoutValue,
        "loud",
        "call to `loud` did not produce a return value",
    );
}

#[test]
fn clock_must_return_a_number() {
    let mut registry = SymbolRegistry::new();
    registry.register(host("std.time.now", "clock", vec![], FfiType::Str));
    expect(
        failure_in(&registry, vec![Statement::Expr(member("time", "now"))]),
        ErrorKind::TypeCheck,
        ErrorCode::UnexpectedReturnType,
        "time.now",
        "unexpected return type from time.now",
    );
    let mut registry = SymbolRegistry::new();
    registry.register(host("std.time.now", "clock", vec![], FfiType::Unit));
    expect(
        failure_in(&registry, vec![Statement::Expr(member("time", "now"))]),
        ErrorKind::TypeCheck,
        ErrorCode::CallWithoutValue,
        "time.now",
        "call to `time.now` did not produce a return value",
    );
    let mut registry = SymbolRegistry::new();
    registry.register(host("std.time.now", "clock", vec![], FfiType::F64));
    let module = lower_program(&main_with(vec![Statement::Expr(member("time", "now"))]), &registry).unwrap();
    assert_eq!(module.functions[0].blocks[0].instrs.len(), 2);
}

#[test]
fn constructs_that_are_not_lowered() {
    let cases: Vec<(Statement, Feature, &str)> = vec![
        (
            Statement::While { cond: truth(true), body: Block { statements: vec![] } },
            Feature::While,
            "While loops not yet implemented",
        ),
        (Statement::Break, Feature::Break, "Break statements not yet implemented"),
        (Statement::Continue, Feature::Continue, "Continue statements not yet implemented"),
        (
            Statement::Block(Block { statements: vec![] }),
            Feature::Block,
            "Block statements not yet implemented",
        ),
        (
            Statement::Expr(Expr::If {
                cond: Box::new(truth(true)),
                then_branch: Box::new(number(1.0)),
                else_branch: None,
            }),
            Feature::IfExpression,
            "If expressions not yet implemented",
        ),
        (
            Statement::Expr(Expr::Range { start: Box::new(number(0.0)), end: Box::new(number(1.0)) }),
            Feature::RangeOutsideFor,
            "Range expressions can only be used in for loops",
        ),
        (
            Statement::Expr(Expr::Await(Box::new(number(0.0)))),
            Feature::Await,
            "Await expressions not yet implemented",
        ),
        (
            Statement::Expr(Expr::Spawn(Box::new(number(0.0)))),
            Feature::Spawn,
            "Spawn expressions not yet implemented",
        ),
        (
            Statement::Expr(Expr::Call { func: Box::new(number(1.0)), args: vec![] }),
            Feature::NonIdentifierCallee,
            "only identifier calls are supported",
        ),
        (
            Statement::Expr(Expr::Member { object: Box::new(number(1.0)), field: "x".to_string() }),
            Feature::MemberOnNonModule,
            "member access currently only supports module.field syntax",
        ),
    ];
    for (statement, feature, message) in cases {
        expect(
            failure_of(vec![statement]),
            ErrorKind::UnsupportedFeature,
            ErrorCode::Unsupported(feature),
            "",
            message,
        );
    }
}

#[test]
fn errors_in_bodies_come_before_the_missing_main() {
    let program = Program {
        statements: vec![Statement::Function(function("helper", vec![], None, vec![Statement::Break]))],
    };
    assert_eq!(
        lower_program(&program, &bootstrap_stdlib()).unwrap_err().code,
        ErrorCode::Unsupported(Feature::Break)
    );
}

#[test]
fn malformed_module_is_refused() {
    let dangling = ModuleIr {
        name: "otter".to_string(),
        functions: vec![FunctionIr {
            name: "main".to_string(),
            params: vec![],
            ret: None,
            blocks: vec![BlockIr {
                name: "entry".to_string(),
                instrs: vec![Instr::Return { value: Some(Operand::Inst { block: 3, index: 0 }) }],
            }],
            visits: vec![0],
        }],
        strings: vec![],
    };
    expect(
        emit_ir(&dangling).unwrap_err(),
        ErrorKind::IrVerification,
        ErrorCode::MalformedIr,
        "",
        "intermediate representation is malformed",
    );
    let mut no_block = dangling.clone();
    no_block.functions[0].visits = vec![1];
    assert_eq!(emit_ir(&no_block).unwrap_err().code, ErrorCode::MalformedIr);
    let mut no_callee = dangling.clone();
    no_callee.functions[0].blocks[0].instrs =
        vec![Instr::Call { callee: 7, args: vec![], name: "x".to_string() }, Instr::Return { value: None }];
    assert_eq!(emit_ir(&no_callee).unwrap_err().code, ErrorCode::MalformedIr);
    let mut wrong_kind = dangling.clone();
    wrong_kind.functions[0].blocks[0].instrs = vec![
        Instr::Store {
            ptr: Operand::ConstInt { ty: IrType::I64, value: 0 },
            value: Operand::ConstInt { ty: IrType::I64, value: 0 },
        },
        Instr::Return { value: None },
    ];
    assert_eq!(emit_ir(&wrong_kind).unwrap_err().code, ErrorCode::MalformedIr);
    let mut float_as_int = dangling.clone();
    float_as_int.functions[0].blocks[0].instrs = vec![Instr::Return {
        value: Some(Operand::ConstInt { ty: IrType::F64, value: 0 }),
    }];
    assert_eq!(emit_ir(&float_as_int).unwrap_err().code, ErrorCode::MalformedIr);
    let mut good = dangling;
    good.functions[0].blocks[0].instrs = vec![Instr::Return { value: None }];
    assert!(emit_ir(&good).unwrap().contains("define void @main()"));
}

fn one_block(instrs: Vec<Instr>) -> ModuleIr {
    ModuleIr {
        name: "otter".to_string(),
        functions: vec![FunctionIr {
            name: "main".to_string(),
            params: vec![],
            ret: None,
            blocks: vec![BlockIr { name: "entry".to_string(), instrs }],
            visits: vec![0],
        }],
        strings: vec![],
    }
}

#[test]
fn references_out_of_reach_are_refused_before_verification() {
    let text = Operand::Str { index: 0 };
    let zero = Operand::ConstInt { ty: IrType::I1, value: 0 };
    let out_of_reach = vec![
        vec![Instr::Return { value: Some(text) }],
        vec![Instr::Return { value: Some(Operand::Param { index: usize::MAX }) }],
        vec![Instr::Return { value: Some(Operand::Inst { block: 1, index: 0 }) }],
        vec![Instr::Branch { target: 1 }],
        vec![Instr::CondBranch { cond: zero, then_block: 0, else_block: 1 }],
        vec![Instr::CondBranch { cond: zero, then_block: 1, else_block: 0 }],
        vec![Instr::Call { callee: 1, args: vec![], name: "f".to_string() }],
        vec![Instr::Call { callee: 0, args: vec![text], name: "f".to_string() }],
        vec![Instr::Load { ty: IrType::I64, ptr: text, name: "x".to_string() }],
        vec![Instr::Store { ptr: text, value: zero }],
        vec![Instr::Store { ptr: zero, value: text }],
        vec![Instr::Unary { kind: otterlang::ir::UnaryKind::Not, value: text, name: "x".to_string() }],
        vec![Instr::Binary {
            kind: otterlang::ir::BinaryKind::IntAdd,
            lhs: zero,
            rhs: text,
            name: "x".to_string(),
        }],
        vec![Instr::Return { value: None }, Instr::Branch { target: 9 }],
    ];
    for instrs in out_of_reach {
        let module = one_block(instrs);
        assert_eq!(emit_ir(&module).unwrap_err().code, ErrorCode::MalformedIr);
        let compiled = otterlang::compile_module(&module, &otterlang::CodegenOptions::default());
        assert_eq!(compiled.unwrap_err().code, ErrorCode::MalformedIr);
    }
    let mut unvisited = one_block(vec![Instr::Branch { target: 9 }]);
    unvisited.functions[0].visits = vec![];
    assert_eq!(emit_ir(&unvisited).unwrap_err().code, ErrorCode::VerificationFailed);
}

#[test]
fn value_of_an_earlier_instruction_is_found_again() {
    let module = one_block(vec![
        Instr::Alloca { ty: IrType::I64, name: "slot".to_string() },
        Instr::Store { ptr: Operand::Inst { block: 0, index: 0 }, value: Operand::ConstInt { ty: IrType::I64, value: 7 } },
        Instr::Load { ty: IrType::I64, ptr: Operand::Inst { block: 0, index: 0 }, name: "seven".to_string() },
        Instr::Return { value: None },
    ]);
    let ir = emit_ir(&module).unwrap();
    assert!(ir.contains("%slot = alloca i64"));
    assert!(ir.contains("store i64 7, i64* %slot"));
    assert!(ir.contains("%seven = load i64, i64* %slot"));
    let stored = one_block(vec![
        Instr::Alloca { ty: IrType::I64, name: "slot".to_string() },
        Instr::Store { ptr: Operand::Inst { block: 0, index: 0 }, value: Operand::ConstInt { ty: IrType::I64, value: 7 } },
        Instr::Load { ty: IrType::I64, ptr: Operand::Inst { block: 0, index: 1 }, name: "none".to_string() },
        Instr::Return { value: None },
    ]);
    assert_eq!(emit_ir(&stored).unwrap_err().code, ErrorCode::MalformedIr);
}

#[test]
fn standalone_module_is_replayed() {
    let module = ModuleIr {
        name: "otter".to_string(),
        functions: vec![
            FunctionIr {
                name: "main".to_string(),
                params: vec![],
                ret: None,
                blocks: vec![
                    BlockIr {
                        name: "entry".to_string(),
                        instrs: vec![
                            Instr::Alloca { ty: IrType::F64, name: "unused".to_string() },
                            Instr::Call { callee: 1, args: vec![Operand::Str { index: 0 }], name: "shown".to_string() },
                            Instr::Branch { target: 1 },
                        ],
                    },
                    BlockIr { name: "exit".to_string(), instrs: vec![Instr::Return { value: None }] },
                ],
                visits: vec![0, 1],
            },
            FunctionIr {
                name: "show".to_string(),
                params: vec![IrType::Ptr],
                ret: None,
                blocks: vec![],
                visits: vec![],
            },
        ],
        strings: vec![otterlang::ir::GlobalString { name: "greeting".to_string(), text: "hi".to_string() }],
    };
    let ir = emit_ir(&module).unwrap();
    assert!(ir.contains("@greeting = private unnamed_addr constant [3 x i8] c\"hi\\00\""));
    assert!(ir.contains("declare void @show(i8*)"));
    assert!(ir.contains("call void @show(i8* getelementptr inbounds ([3 x i8], [3 x i8]* @greeting, i32 0, i32 0))"));
    assert!(ir.contains("br label %exit"));
}

#[test]
fn toolchain_errors() {
    assert_eq!(check_verified(Ok(())), Ok(()));
    expect(
        check_verified(Err("bad block".to_string())).unwrap_err(),
        ErrorKind::IrVerification,
        ErrorCode::VerificationFailed,
        "bad block",
        "LLVM module verification failed: bad block",
    );
    assert_eq!(check_step(ToolchainStep::TargetInit, Ok::<u8, String>(7)), Ok(7));
    expect(
        check_step::<u8>(ToolchainStep::TargetInit, Err("no target".to_string())).unwrap_err(),
        ErrorKind::Toolchain,
        ErrorCode::Toolchain(ToolchainStep::TargetInit),
        "no target",
        "failed to initialise LLVM target: no target",
    );
    expect(
        check_step::<u8>(ToolchainStep::TargetFromTriple, Err("unknown".to_string())).unwrap_err(),
        ErrorKind::Toolchain,
        ErrorCode::Toolchain(ToolchainStep::TargetFromTriple),
        "unknown",
        "failed to create target from triple: unknown",
    );
    expect(
        check_step::<u8>(ToolchainStep::ObjectEmission, Err("disk".to_string())).unwrap_err(),
        ErrorKind::Toolchain,
        ErrorCode::Toolchain(ToolchainStep::ObjectEmission),
        "disk",
        "failed to emit object file: disk",
    );
    assert_eq!(
        CodegenError::bare(ErrorCode::Toolchain(ToolchainStep::TargetMachine)).message(),
        "failed to create target machine"
    );
    let at = |step: BuildStep| BuildState { step, failure: None };
    expect(
        at(BuildStep::Link).advance(false, "exit status: 1").failure.unwrap(),
        ErrorKind::Toolchain,
        ErrorCode::Toolchain(ToolchainStep::Link),
        "exit status: 1",
        "linker invocation failed with status exit status: 1",
    );
    expect(
        at(BuildStep::CompileRuntime).advance(false, "").failure.unwrap(),
        ErrorKind::Toolchain,
        ErrorCode::Toolchain(ToolchainStep::RuntimeCompile),
        "",
        "failed to compile runtime C file",
    );
    expect(
        at(BuildStep::WriteRuntime).advance(false, "denied").failure.unwrap(),
        ErrorKind::Toolchain,
        ErrorCode::Toolchain(ToolchainStep::RuntimeWrite),
        "denied",
        "failed to write runtime C file: denied",
    );
    expect(
        at(BuildStep::WriteObject).advance(false, "full").failure.unwrap(),
        ErrorKind::Toolchain,
        ErrorCode::Toolchain(ToolchainStep::ObjectEmission),
        "full",
        "failed to emit object file: full",
    );
}

fn session_in_main(registry: &SymbolRegistry) -> (Compiler<'_>, FunctionContext) {
    let mut compiler = Compiler::new(registry);
    let main = function("main", vec![], None, vec![]);
    compiler.declare_function(&main).unwrap();
    let ctx = compiler.enter_function(&main).unwrap();
    (compiler, ctx)
}

#[test]
fn unsupported_statement_leaves_session_and_variables_as_they_were() {
    let registry = bootstrap_stdlib();
    for statement in [
        Statement::While { cond: truth(true), body: Block { statements: vec![] } },
        Statement::Break,
        Statement::Continue,
        Statement::Block(Block { statements: vec![] }),
    ] {
        let (mut compiler, mut ctx) = session_in_main(&registry);
        ctx.insert("x".to_string(), Variable { slot: Operand::Param { index: 0 }, ty: OtterType::F64 });
        let before = compiler.module().clone();
        assert!(compiler.lower_statement(&statement, &mut ctx).is_err());
        assert_eq!(compiler.module(), &before);
        assert_eq!(ctx.get("x"), Some(Variable { slot: Operand::Param { index: 0 }, ty: OtterType::F64 }));
    }
}

#[test]
fn condition_that_is_no_boolean_adds_no_block() {
    let registry = bootstrap_stdlib();
    let (mut compiler, mut ctx) = session_in_main(&registry);
    let before = compiler.module().clone();
    let statement = Statement::If {
        cond: number(1.0),
        then_block: Block { statements: vec![Statement::Let { name: "y".to_string(), expr: number(2.0) }] },
        elif_blocks: vec![],
        else_block: None,
    };
    assert_eq!(
        compiler.lower_statement(&statement, &mut ctx).unwrap_err().code,
        ErrorCode::ConditionNotBool(OtterType::F64)
    );
    assert_eq!(compiler.module(), &before);
    assert_eq!(ctx.get("y"), None);
}

#[test]
fn unit_value_leaves_the_name_unbound() {
    let registry = bootstrap_stdlib();
    let (mut compiler, mut ctx) = session_in_main(&registry);
    let statement = Statement::Let { name: "u".to_string(), expr: call("println", vec![text("x")]) };
    assert_eq!(compiler.lower_statement(&statement, &mut ctx).unwrap_err().code, ErrorCode::UnitDeclared);
    assert_eq!(ctx.get("u"), None);
    let instrs = &compiler.module().functions[0].blocks[0].instrs;
    assert_eq!(instrs.len(), 1);
    assert!(matches!(instrs[0], Instr::Call { .. }));
}

#[test]
fn assignment_of_another_type_keeps_the_binding_and_stores_nothing() {
    let registry = bootstrap_stdlib();
    let (mut compiler, mut ctx) = session_in_main(&registry);
    compiler.lower_statement(&Statement::Let { name: "x".to_string(), expr: number(1.0) }, &mut ctx).unwrap();
    compiler.lower_statement(&Statement::Let { name: "y".to_string(), expr: number(2.0) }, &mut ctx).unwrap();
    let x = ctx.get("x");
    let y = ctx.get("y");
    let before = compiler.module().clone();
    let statement = Statement::Assignment { name: "x".to_string(), expr: truth(true) };
    assert_eq!(
        compiler.lower_statement(&statement, &mut ctx).unwrap_err().code,
        ErrorCode::AssignTypeMismatch { existing: OtterType::F64, new: OtterType::Bool }
    );
    assert_eq!(compiler.module(), &before);
    assert_eq!(ctx.get("x"), x);
    assert_eq!(ctx.get("y"), y);
    let unit = Statement::Assignment { name: "z".to_string(), expr: call("println", vec![text("a")]) };
    assert_eq!(compiler.lower_statement(&unit, &mut ctx).unwrap_err().code, ErrorCode::UnitAssigned);
    assert_eq!(ctx.get("x"), x);
    assert_eq!(ctx.get("y"), y);
    assert_eq!(ctx.get("z"), None);
}

#[test]
fn refused_print_emits_no_call() {
    let registry = bootstrap_stdlib();
    for args in [vec![], vec![text("a"), text("b")]] {
        let (mut compiler, ctx) = session_in_main(&registry);
        let before = compiler.module().clone();
        assert_eq!(compiler.eval_expr(&call("println", args), &ctx).unwrap_err().code, ErrorCode::PrintArity);
        assert_eq!(compiler.module(), &before);
    }
    let (mut compiler, ctx) = session_in_main(&registry);
    let error = compiler.eval_expr(&call("print", vec![number(1.0)]), &ctx).unwrap_err();
    assert_eq!(error.code, ErrorCode::PrintNotString(OtterType::F64));
    assert_eq!(compiler.module().functions.len(), 1);
    assert!(compiler.module().functions[0].blocks[0].instrs.is_empty());
}

#[test]
fn refused_call_lowers_no_argument() {
    let registry = bootstrap_stdlib();
    let (mut compiler, ctx) = session_in_main(&registry);
    let before = compiler.module().clone();
    let wrong_arity = call("std.io.print", vec![text("a"), text("b")]);
    assert_eq!(
        compiler.eval_expr(&wrong_arity, &ctx).unwrap_err().code,
        ErrorCode::ArityMismatch { params: 1, args: 2 }
    );
    assert_eq!(compiler.module(), &before);
    let unknown = call("nowhere", vec![text("a")]);
    assert_eq!(compiler.eval_expr(&unknown, &ctx).unwrap_err().code, ErrorCode::UnknownFunction);
    assert_eq!(compiler.module(), &before);
    let no_name = Expr::Call { func: Box::new(number(1.0)), args: vec![text("a")] };
    assert_eq!(
        compiler.eval_call(&number(1.0), &vec![text("a")], &ctx).unwrap_err().code,
        ErrorCode::Unsupported(Feature::NonIdentifierCallee)
    );
    assert_eq!(compiler.eval_expr(&no_name, &ctx).unwrap_err().code, ErrorCode::Unsupported(Feature::NonIdentifierCallee));
    assert_eq!(compiler.module(), &before);
}

#[test]
fn refused_declaration_adds_no_function() {
    let registry = bootstrap_stdlib();
    let mut compiler = Compiler::new(&registry);
    let bad_param = function(
        "f",
        vec![Param { name: "a".to_string(), ty: None }, Param { name: "b".to_string(), ty: Some("number".to_string()) }],
        None,
        vec![],
    );
    assert_eq!(compiler.declare_function(&bad_param).unwrap_err().code, ErrorCode::UnknownType);
    assert!(compiler.module().functions.is_empty());
    let bad_result = function("f", vec![], Some("void"), vec![]);
    assert_eq!(compiler.declare_function(&bad_result).unwrap_err().code, ErrorCode::UnknownType);
    assert!(compiler.module().functions.is_empty());
}

#[test]
fn program_without_function_leaves_the_module_empty() {
    let registry = bootstrap_stdlib();
    let mut compiler = Compiler::new(&registry);
    let program = Program { statements: vec![Statement::Use { module: "time".to_string(), alias: None }] };
    assert_eq!(compiler.lower_program(&program).unwrap_err().code, ErrorCode::NoFunctions);
    assert!(compiler.module().functions.is_empty());
    assert!(compiler.module().strings.is_empty());
}
