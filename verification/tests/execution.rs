//! Lowered programs, run by a small interpreter of the intermediate
//! representation with the host functions of the runtime shim.

use std::collections::HashMap;

use otterlang::ast::{BinaryOp, Block, Expr, FStringPart, Function, Literal, Param, Program, Statement, UnaryOp};
use otterlang::ir::{BinaryKind, Instr, ModuleIr, Operand, UnaryKind};
use otterlang::program::lower_program;
use otterlang::symbols::bootstrap_stdlib;

#[derive(Clone, Debug, PartialEq)]
enum Value {
    Float(f64),
    Int(i64),
    Text(Option<String>),
    Slot(usize),
}

struct Machine<'a> {
    module: &'a ModuleIr,
    output: String,
    clock: i64,
    steps: usize,
}

fn format_float(value: f64) -> String {
    // What `%.10g` prints for numbers of at most ten digits.
    let text = format!("{:.10}", value);
    let text = text.trim_end_matches('0').trim_end_matches('.');
    text.to_string()
}

impl<'a> Machine<'a> {
    fn host(&mut self, name: &str, args: &[Value]) -> Option<Value> {
        match (name, args) {
            ("otter_std_io_println", [Value::Text(text)]) => {
                self.output.push_str(text.as_deref().unwrap_or(""));
                self.output.push('\n');
                None
            }
            ("otter_std_io_print", [Value::Text(text)]) => {
                self.output.push_str(text.as_deref().unwrap_or(""));
                None
            }
            ("otter_std_time_now_ms", []) => Some(Value::Int(self.clock)),
            ("otter_format_float", [Value::Float(value)]) => Some(Value::Text(Some(format_float(*value)))),
            ("otter_format_int", [Value::Int(value)]) => Some(Value::Text(Some(value.to_string()))),
            ("otter_concat_strings", [Value::Text(Some(a)), Value::Text(Some(b))]) => {
                Some(Value::Text(Some(format!("{}{}", a, b))))
            }
            ("otter_concat_strings", [Value::Text(_), Value::Text(_)]) => Some(Value::Text(None)),
            ("otter_free_string_ptr", [Value::Text(_)]) => None,
            _ => panic!("no host function {} for {:?}", name, args),
        }
    }

    fn call(&mut self, function: usize, args: Vec<Value>) -> Option<Value> {
        let module = self.module;
        let body = &module.functions[function];
        if body.blocks.is_empty() {
            return self.host(&body.name, &args);
        }
        let mut values: HashMap<(usize, usize), Value> = HashMap::new();
        let mut slots: Vec<Option<Value>> = Vec::new();
        let mut block = 0;
        let mut index = 0;
        loop {
            self.steps += 1;
            assert!(self.steps < 100_000, "the program does not stop");
            let instr = &body.blocks[block].instrs[index];
            let get = |operand: &Operand, values: &HashMap<(usize, usize), Value>| match operand {
                Operand::ConstFloat { bits } => Value::Float(f64::from_bits(*bits)),
                Operand::ConstInt { value, .. } => Value::Int(*value as i64),
                Operand::Null => Value::Text(None),
                Operand::Str { index } => Value::Text(Some(module.strings[*index].text.clone())),
                Operand::Param { index } => args[*index].clone(),
                Operand::Inst { block, index } => values[&(*block, *index)].clone(),
            };
            let result = match instr {
                Instr::Alloca { .. } => {
                    slots.push(None);
                    Some(Value::Slot(slots.len() - 1))
                }
                Instr::Store { ptr, value } => {
                    let Value::Slot(slot) = get(ptr, &values) else { panic!("store through a value") };
                    slots[slot] = Some(get(value, &values));
                    None
                }
                Instr::Load { ptr, .. } => {
                    let Value::Slot(slot) = get(ptr, &values) else { panic!("load through a value") };
                    Some(slots[slot].clone().expect("the slot was written"))
                }
                Instr::Unary { kind, value, .. } => Some(match (kind, get(value, &values)) {
                    (UnaryKind::SignedToFloat, Value::Int(v)) => Value::Float(v as f64),
                    (UnaryKind::FloatToSigned, Value::Float(v)) => Value::Int(v as i64),
                    (UnaryKind::FloatNeg, Value::Float(v)) => Value::Float(-v),
                    (UnaryKind::Not, Value::Int(v)) => Value::Int(1 - v),
                    (UnaryKind::SignExtend, Value::Int(v)) => Value::Int(v as i32 as i64),
                    other => panic!("ill-typed operation {:?}", other),
                }),
                Instr::Binary { kind, lhs, rhs, .. } => Some(match (kind, get(lhs, &values), get(rhs, &values)) {
                    (BinaryKind::FloatAdd, Value::Float(a), Value::Float(b)) => Value::Float(a + b),
                    (BinaryKind::FloatSub, Value::Float(a), Value::Float(b)) => Value::Float(a - b),
                    (BinaryKind::FloatMul, Value::Float(a), Value::Float(b)) => Value::Float(a * b),
                    (BinaryKind::FloatDiv, Value::Float(a), Value::Float(b)) => Value::Float(a / b),
                    (BinaryKind::FloatRem, Value::Float(a), Value::Float(b)) => Value::Float(a % b),
                    (BinaryKind::FloatEq, Value::Float(a), Value::Float(b)) => Value::Int((a == b) as i64),
                    (BinaryKind::FloatNe, Value::Float(a), Value::Float(b)) => {
                        Value::Int((a != b && !a.is_nan() && !b.is_nan()) as i64)
                    }
                    (BinaryKind::FloatLt, Value::Float(a), Value::Float(b)) => Value::Int((a < b) as i64),
                    (BinaryKind::FloatGt, Value::Float(a), Value::Float(b)) => Value::Int((a > b) as i64),
                    (BinaryKind::FloatLe, Value::Float(a), Value::Float(b)) => Value::Int((a <= b) as i64),
                    (BinaryKind::FloatGe, Value::Float(a), Value::Float(b)) => Value::Int((a >= b) as i64),
                    (BinaryKind::IntAdd, Value::Int(a), Value::Int(b)) => Value::Int(a.wrapping_add(b)),
                    (BinaryKind::IntLt, Value::Int(a), Value::Int(b)) => Value::Int((a < b) as i64),
                    other => panic!("ill-typed operation {:?}", other),
                }),
                Instr::Call { callee, args: operands, .. } => {
                    let passed: Vec<Value> = operands.iter().map(|o| get(o, &values)).collect();
                    self.call(*callee, passed)
                }
                Instr::Return { value } => return value.as_ref().map(|v| get(v, &values)),
                Instr::Branch { target } => {
                    block = *target;
                    index = 0;
                    continue;
                }
                Instr::CondBranch { cond, then_block, else_block } => {
                    block = if get(cond, &values) == Value::Int(1) { *then_block } else { *else_block };
                    index = 0;
                    continue;
                }
            };
            if let Some(value) = result {
                values.insert((block, index), value);
            }
            index += 1;
        }
    }
}

fn run_with_clock(program: &Program, clock: i64) -> (Option<Value>, String) {
    let registry = bootstrap_stdlib();
    let module = lower_program(program, &registry).expect("the program lowers");
    let main = module.functions.iter().position(|f| f.name == "main").expect("main is there");
    let mut machine = Machine { module: &module, output: String::new(), clock, steps: 0 };
    let result = machine.call(main, vec![]);
    (result, machine.output)
}

fn run(program: &Program) -> (Option<Value>, String) {
    run_with_clock(program, 0)
}

fn number(value: f64) -> Expr {
    Expr::Literal(Literal::Number(value.to_bits()))
}

fn text(value: &str) -> Expr {
    Expr::Literal(Literal::String(value.to_string()))
}

fn ident(name: &str) -> Expr {
    Expr::Identifier(name.to_string())
}

fn call(name: &str, args: Vec<Expr>) -> Expr {
    Expr::Call { func: Box::new(ident(name)), args }
}

fn binary(left: Expr, op: BinaryOp, right: Expr) -> Expr {
    Expr::Binary { left: Box::new(left), op, right: Box::new(right) }
}

fn println_of(arg: Expr) -> Statement {
    Statement::Expr(call("println", vec![arg]))
}

fn fstring_of(name: &str) -> Expr {
    Expr::FString { parts: vec![FStringPart::Expr(Box::new(ident(name)))] }
}

fn let_of(name: &str, expr: Expr) -> Statement {
    Statement::Let { name: name.to_string(), expr }
}

fn function(name: &str, params: Vec<Param>, ret_ty: Option<&str>, body: Vec<Statement>) -> Statement {
    Statement::Function(Function {
        name: name.to_string(),
        params,
        ret_ty: ret_ty.map(|s| s.to_string()),
        body: Block { statements: body },
    })
}

fn param(name: &str, ty: &str) -> Param {
    Param { name: name.to_string(), ty: Some(ty.to_string()) }
}

fn main_with(body: Vec<Statement>) -> Program {
    Program { statements: vec![function("main", vec![], None, body)] }
}

#[test]
fn hello_is_printed_and_main_returns_zero() {
    let (result, output) = run(&main_with(vec![println_of(text("hello"))]));
    assert_eq!(output, "hello\n");
    assert_eq!(result, Some(Value::Int(0)));
}

#[test]
fn sum_of_floats_is_printed() {
    let (_, output) = run(&main_with(vec![
        let_of("x", binary(number(1.0), BinaryOp::Add, number(2.5))),
        println_of(fstring_of("x")),
    ]));
    assert_eq!(output, "3.5\n");
}

#[test]
fn range_loop_prints_its_counter() {
    let (_, output) = run(&main_with(vec![Statement::For {
        var: "i".to_string(),
        iterable: Expr::Range { start: Box::new(number(0.0)), end: Box::new(number(3.0)) },
        body: Block { statements: vec![println_of(fstring_of("i"))] },
    }]));
    assert_eq!(output, "0\n1\n2\n");
}

#[test]
fn empty_range_runs_no_iteration() {
    let (_, output) = run(&main_with(vec![
        Statement::For {
            var: "i".to_string(),
            iterable: Expr::Range { start: Box::new(number(3.0)), end: Box::new(number(3.0)) },
            body: Block { statements: vec![println_of(text("never"))] },
        },
        println_of(text("done")),
    ]));
    assert_eq!(output, "done\n");
}

#[test]
fn user_function_adds() {
    let program = Program {
        statements: vec![
            function(
                "add",
                vec![param("a", "float"), param("b", "float")],
                Some("float"),
                vec![Statement::Return(Some(binary(ident("a"), BinaryOp::Add, ident("b"))))],
            ),
            function(
                "main",
                vec![],
                None,
                vec![let_of("s", call("add", vec![number(2.0), number(3.0)])), println_of(fstring_of("s"))],
            ),
        ],
    };
    let (_, output) = run(&program);
    assert_eq!(output, "5\n");
}

#[test]
fn integer_parameter_truncates_a_float_argument() {
    let program = Program {
        statements: vec![
            function(
                "half",
                vec![param("n", "int")],
                Some("float"),
                vec![Statement::Return(Some(binary(ident("n"), BinaryOp::Div, number(2.0))))],
            ),
            function(
                "main",
                vec![],
                None,
                vec![let_of("h", call("half", vec![number(7.9)])), println_of(fstring_of("h"))],
            ),
        ],
    };
    let (_, output) = run(&program);
    assert_eq!(output, "3.5\n");
}

#[test]
fn clock_is_printed_as_a_number() {
    let program = main_with(vec![
        let_of(
            "t",
            Expr::Call {
                func: Box::new(Expr::Member { object: Box::new(ident("time")), field: "now".to_string() }),
                args: vec![],
            },
        ),
        println_of(fstring_of("t")),
    ]);
    let (_, output) = run_with_clock(&program, 86_400_000);
    assert_eq!(output, "86400000\n");
}

#[test]
fn true_branch_is_taken() {
    let conditional = |cond: bool| {
        main_with(vec![Statement::If {
            cond: Expr::Literal(Literal::Bool(cond)),
            then_block: Block { statements: vec![println_of(text("y"))] },
            elif_blocks: vec![],
            else_block: Some(Block { statements: vec![println_of(text("n"))] }),
        }])
    };
    assert_eq!(run(&conditional(true)).1, "y\n");
    assert_eq!(run(&conditional(false)).1, "n\n");
}

#[test]
fn comparison_and_negation_steer_a_conditional() {
    let program = |op: BinaryOp, negate: bool| {
        let compared = binary(number(1.0), op, number(2.0));
        let cond = if negate { Expr::Unary { op: UnaryOp::Not, expr: Box::new(compared) } } else { compared };
        main_with(vec![
            Statement::If {
                cond,
                then_block: Block { statements: vec![println_of(text("yes"))] },
                elif_blocks: vec![],
                else_block: None,
            },
            println_of(text("end")),
        ])
    };
    assert_eq!(run(&program(BinaryOp::Lt, false)).1, "yes\nend\n");
    assert_eq!(run(&program(BinaryOp::Lt, true)).1, "end\n");
    assert_eq!(run(&program(BinaryOp::GtEq, false)).1, "end\n");
    assert_eq!(run(&program(BinaryOp::Ne, false)).1, "yes\nend\n");
    assert_eq!(run(&program(BinaryOp::Eq, true)).1, "yes\nend\n");
}

#[test]
fn assignment_in_a_loop_accumulates() {
    let (_, output) = run(&main_with(vec![
        let_of("total", number(0.0)),
        Statement::For {
            var: "i".to_string(),
            iterable: Expr::Range { start: Box::new(number(1.0)), end: Box::new(number(5.0)) },
            body: Block {
                statements: vec![Statement::Assignment {
                    name: "total".to_string(),
                    expr: binary(ident("total"), BinaryOp::Add, ident("i")),
                }],
            },
        },
        println_of(Expr::FString {
            parts: vec![FStringPart::Text("total = ".to_string()), FStringPart::Expr(Box::new(ident("total")))],
        }),
    ]));
    assert_eq!(output, "total = 10\n");
}

#[test]
fn early_return_in_a_branch_skips_the_rest() {
    let program = Program {
        statements: vec![
            function(
                "pick",
                vec![param("x", "float")],
                Some("float"),
                vec![
                    Statement::If {
                        cond: binary(ident("x"), BinaryOp::Gt, number(0.0)),
                        then_block: Block { statements: vec![Statement::Return(Some(number(1.0)))] },
                        elif_blocks: vec![],
                        else_block: None,
                    },
                    Statement::Return(Some(Expr::Unary { op: UnaryOp::Neg, expr: Box::new(number(1.0)) })),
                ],
            ),
            function(
                "main",
                vec![],
                None,
                vec![
                    let_of("a", call("pick", vec![number(5.0)])),
                    let_of("b", call("pick", vec![number(-5.0)])),
                    println_of(Expr::FString {
                        parts: vec![
                            FStringPart::Expr(Box::new(ident("a"))),
                            FStringPart::Text(" ".to_string()),
                            FStringPart::Expr(Box::new(ident("b"))),
                        ],
                    }),
                ],
            ),
        ],
    };
    let (_, output) = run(&program);
    assert_eq!(output, "1 -1\n");
}

#[test]
fn function_without_return_yields_zero() {
    let program = Program {
        statements: vec![
            function("nothing", vec![], Some("float"), vec![]),
            function(
                "main",
                vec![],
                None,
                vec![let_of("z", call("nothing", vec![])), println_of(fstring_of("z"))],
            ),
        ],
    };
    let (result, output) = run(&program);
    assert_eq!(output, "0\n");
    assert_eq!(result, Some(Value::Int(0)));
}

fn adder() -> Statement {
    function(
        "add",
        vec![param("a", "float"), param("b", "float")],
        Some("float"),
        vec![Statement::Return(Some(binary(ident("a"), BinaryOp::Add, ident("b"))))],
    )
}

fn main_calling_adder() -> Statement {
    function(
        "main",
        vec![],
        None,
        vec![let_of("s", call("add", vec![number(2.0), number(3.0)])), println_of(fstring_of("s"))],
    )
}

#[test]
fn function_defined_after_its_caller_is_found() {
    let before = Program { statements: vec![adder(), main_calling_adder()] };
    let after = Program { statements: vec![main_calling_adder(), adder()] };
    let registry = bootstrap_stdlib();
    let first = lower_program(&before, &registry).expect("callee first");
    let second = lower_program(&after, &registry).expect("caller first");
    for module in [&first, &second] {
        let declared = module.functions.iter().filter(|f| f.name == "add" && !f.blocks.is_empty()).count();
        assert_eq!(declared, 1);
        let entry = module.functions.iter().filter(|f| f.name == "main" && !f.blocks.is_empty()).count();
        assert_eq!(entry, 1);
    }
    assert_eq!(first.functions.len(), second.functions.len());
    assert_eq!(run(&before), run(&after));
    assert_eq!(run(&after).1, "5\n");
}
