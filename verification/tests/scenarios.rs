//! Whole programs, from the syntax tree to verified LLVM code.

use otterlang::ast::{BinaryOp, Block, Expr, FStringPart, Function, Literal, Param, Program, Statement};
use otterlang::backend::emit_ir;
use otterlang::error::{ErrorCode, ErrorKind};
use otterlang::program::lower_program;
use otterlang::symbols::bootstrap_stdlib;
use otterlang::types::OtterType;

fn number(value: f64) -> Expr {
    Expr::Literal(Literal::Number(value.to_bits()))
}

fn text(value: &str) -> Expr {
    Expr::Literal(Literal::String(value.to_string()))
}

fn ident(name: &str) -> Expr {
    Expr::Identifier(name.to_string())
}

fn call(name: &str, args: Vec<Expr>) -> Expr {
    Expr::Call { func: Box::new(ident(name)), args }
}

fn println_of(arg: Expr) -> Statement {
    Statement::Expr(call("println", vec![arg]))
}

fn fstring_of(name: &str) -> Expr {
    Expr::FString { parts: vec![FStringPart::Expr(Box::new(ident(name)))] }
}

fn function(name: &str, params: Vec<Param>, ret_ty: Option<&str>, body: Vec<Statement>) -> Statement {
    Statement::Function(Function {
        name: name.to_string(),
        params,
        ret_ty: ret_ty.map(|s| s.to_string()),
        body: Block { statements: body },
    })
}

fn param(name: &str, ty: &str) -> Param {
    Param { name: name.to_string(), ty: Some(ty.to_string()) }
}

fn main_with(body: Vec<Statement>) -> Program {
    Program { statements: vec![function("main", vec![], None, body)] }
}

fn ir_of(program: &Program) -> String {
    let registry = bootstrap_stdlib();
    let module = lower_program(program, &registry).expect("the program lowers");
    emit_ir(&module).expect("the module passes verification")
}

#[test]
fn hello_world_calls_println() {
    let program = main_with(vec![println_of(text("hello"))]);
    let ir = ir_of(&program);
    assert!(ir.contains("; ModuleID = 'otter'"));
    assert!(ir.contains("@str = private unnamed_addr constant [6 x i8] c\"hello\\00\""));
    assert!(ir.contains("declare void @otter_std_io_println(i8*)"));
    assert!(ir.contains("define i32 @main()"));
    assert!(ir.contains("entry:"));
    assert!(ir.contains("call void @otter_std_io_println(i8* getelementptr inbounds ([6 x i8], [6 x i8]* @str, i32 0, i32 0))"));
    assert!(ir.contains("ret i32 0"));
}

#[test]
fn float_sum_is_formatted() {
    let program = main_with(vec![
        Statement::Let {
            name: "x".to_string(),
            expr: Expr::Binary { left: Box::new(number(1.0)), op: BinaryOp::Add, right: Box::new(number(2.5)) },
        },
        println_of(fstring_of("x")),
    ]);
    let ir = ir_of(&program);
    assert!(ir.contains("%x = alloca double"));
    assert!(ir.contains("store double 3.500000e+00, double* %x"));
    assert!(ir.contains("%format_float = call i8* @otter_format_float(double %x1)"));
    assert!(ir.contains("%concat = call i8* @otter_concat_strings(i8* getelementptr inbounds ([1 x i8], [1 x i8]* @empty_str, i32 0, i32 0), i8* %format_float)"));
    assert!(ir.contains("call void @otter_free_string_ptr(i8* %format_float)"));
    assert!(ir.contains("call void @otter_std_io_println(i8* %concat)"));
}

#[test]
fn range_loop_counts_in_floats() {
    let program = main_with(vec![Statement::For {
        var: "i".to_string(),
        iterable: Expr::Range { start: Box::new(number(0.0)), end: Box::new(number(3.0)) },
        body: Block { statements: vec![println_of(fstring_of("i"))] },
    }]);
    let ir = ir_of(&program);
    assert!(ir.contains("%i = alloca double"));
    assert!(ir.contains("store double 0.000000e+00, double* %i"));
    assert!(ir.contains("br label %loop_header"));
    assert!(ir.contains("loop_header:"));
    assert!(ir.contains("%current = load double, double* %i"));
    assert!(ir.contains("%loop_cond = fcmp olt double %current, 3.000000e+00"));
    assert!(ir.contains("br i1 %loop_cond, label %loop_body, label %loop_end"));
    assert!(ir.contains("loop_body:"));
    assert!(ir.contains("call i8* @otter_format_float(double"));
    assert!(ir.contains("%next = fadd double %current2, 1.000000e+00"));
    assert!(ir.contains("store double %next, double* %i"));
    assert!(ir.contains("loop_end:"));
    assert!(ir.contains("ret i32 0"));
}

#[test]
fn user_function_is_called_with_floats() {
    let program = Program {
        statements: vec![
            function(
                "add",
                vec![param("a", "float"), param("b", "float")],
                Some("float"),
                vec![Statement::Return(Some(Expr::Binary {
                    left: Box::new(ident("a")),
                    op: BinaryOp::Add,
                    right: Box::new(ident("b")),
                }))],
            ),
            function(
                "main",
                vec![],
                None,
                vec![
                    Statement::Let { name: "s".to_string(), expr: call("add", vec![number(2.0), number(3.0)]) },
                    println_of(fstring_of("s")),
                ],
            ),
        ],
    };
    let ir = ir_of(&program);
    assert!(ir.contains("define double @add(double %0, double %1)"));
    assert!(ir.contains("%addtmp = fadd double %a1, %b2"));
    assert!(ir.contains("ret double %addtmp"));
    assert!(ir.contains("%call_add = call double @add(double 2.000000e+00, double 3.000000e+00)"));
    assert!(ir.contains("store double %call_add, double* %s"));
}

#[test]
fn main_may_be_defined_before_the_functions_it_calls() {
    let program = Program {
        statements: vec![
            function("main", vec![], None, vec![Statement::Expr(call("later", vec![]))]),
            function("later", vec![], Some("float"), vec![Statement::Return(Some(number(1.0)))]),
        ],
    };
    let ir = ir_of(&program);
    assert!(ir.contains("%call_later = call double @later()"));
    assert!(ir.contains("define double @later()"));
}

#[test]
fn clock_value_is_promoted_to_float() {
    let program = main_with(vec![
        Statement::Let {
            name: "t".to_string(),
            expr: Expr::Call {
                func: Box::new(Expr::Member { object: Box::new(ident("time")), field: "now".to_string() }),
                args: vec![],
            },
        },
        println_of(fstring_of("t")),
    ]);
    let ir = ir_of(&program);
    assert!(ir.contains("declare i64 @otter_std_time_now_ms()"));
    assert!(ir.contains("%call_time_now = call i64 @otter_std_time_now_ms()"));
    assert!(ir.contains("%int_to_float = sitofp i64 %call_time_now to double"));
    assert!(ir.contains("store double %int_to_float, double* %t"));
}

#[test]
fn conditional_has_three_blocks() {
    let program = main_with(vec![Statement::If {
        cond: Expr::Literal(Literal::Bool(true)),
        then_block: Block { statements: vec![println_of(text("y"))] },
        elif_blocks: vec![],
        else_block: Some(Block { statements: vec![println_of(text("n"))] }),
    }]);
    let ir = ir_of(&program);
    assert!(ir.contains("br i1 true, label %then, label %else"));
    assert!(ir.contains("then:"));
    assert!(ir.contains("else:"));
    assert!(ir.contains("ifcont:"));
    assert!(ir.contains("c\"y\\00\""));
    assert!(ir.contains("c\"n\\00\""));
    assert_eq!(ir.matches("br label %ifcont").count(), 2);
}

#[test]
fn if_condition_must_be_boolean() {
    let program = main_with(vec![Statement::If {
        cond: number(1.0),
        then_block: Block { statements: vec![] },
        elif_blocks: vec![],
        else_block: None,
    }]);
    let registry = bootstrap_stdlib();
    let error = lower_program(&program, &registry).unwrap_err();
    assert_eq!(error.kind(), ErrorKind::TypeCheck);
    assert_eq!(error.code, ErrorCode::ConditionNotBool(OtterType::F64));
    assert_eq!(error.message(), "if condition must be a boolean, got F64");
}

#[test]
fn program_without_main_is_rejected() {
    let program = Program { statements: vec![function("helper", vec![], None, vec![])] };
    let registry = bootstrap_stdlib();
    let error = lower_program(&program, &registry).unwrap_err();
    assert_eq!(error.kind(), ErrorKind::InputProgram);
    assert_eq!(error.code, ErrorCode::MissingMain);
    assert_eq!(error.message(), "entry function `main` not found");
}

#[test]
fn program_without_functions_is_rejected() {
    let program = Program { statements: vec![Statement::Use { module: "time".to_string(), alias: None }] };
    let registry = bootstrap_stdlib();
    let error = lower_program(&program, &registry).unwrap_err();
    assert_eq!(error.kind(), ErrorKind::InputProgram);
    assert_eq!(error.code, ErrorCode::NoFunctions);
    assert_eq!(error.message(), "program contains no functions");
}

#[test]
fn unit_value_cannot_be_declared() {
    let program = main_with(vec![Statement::Let {
        name: "u".to_string(),
        expr: call("println", vec![text("x")]),
    }]);
    let registry = bootstrap_stdlib();
    let error = lower_program(&program, &registry).unwrap_err();
    assert_eq!(error.kind(), ErrorKind::TypeCheck);
    assert_eq!(error.code, ErrorCode::UnitDeclared);
    assert_eq!(error.subject, "u");
    assert_eq!(error.message(), "cannot declare variable `u` with unit value");
}

#[test]
fn statement_behind_a_return_fails_verification() {
    let program = main_with(vec![Statement::Return(None), println_of(text("x"))]);
    let registry = bootstrap_stdlib();
    let module = lower_program(&program, &registry).expect("the program lowers");
    let error = emit_ir(&module).unwrap_err();
    assert_eq!(error.kind(), ErrorKind::IrVerification);
    assert_eq!(error.code, ErrorCode::VerificationFailed);
    assert!(error.message().starts_with("LLVM module verification failed: "));
}

#[test]
fn return_of_the_wrong_type_fails_verification() {
    let program = main_with(vec![Statement::Return(Some(number(1.0)))]);
    let registry = bootstrap_stdlib();
    let module = lower_program(&program, &registry).expect("the program lowers");
    let error = emit_ir(&module).unwrap_err();
    assert_eq!(error.code, ErrorCode::VerificationFailed);
}
