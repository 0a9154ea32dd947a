//! The options, the plan of a build, code generation, and the profiler's
//! commands.

use otterlang::ast::{Block, Expr, Function, Literal, Program, Statement};
use otterlang::backend::{compile_module, compile_program};
use otterlang::driver::{build_plan, finish_build, plan_with_paths, temporary_files};
use otterlang::error::{CodegenError, ToolchainStep};
use otterlang::steps::{BuildAction, BuildState, BuildStep};
use otterlang::error::ErrorCode;
use otterlang::profiler::{listed_leaks, report_format, ProfileAction, ReportFormat};
use otterlang::symbols::{bootstrap_stdlib, FfiType};
use otterlang::types::OtterType;
use otterlang::{
    current_llvm_version, lower_program, run_profiler, run_profiler_subcommand, BuildArtifact, CodegenOptLevel,
    CodegenOptions, ProfileCommand, ProfilerCli,
};

fn hello() -> Program {
    Program {
        statements: vec![Statement::Function(Function {
            name: "main".to_string(),
            params: vec![],
            ret_ty: None,
            body: Block {
                statements: vec![Statement::Expr(Expr::Call {
                    func: Box::new(Expr::Identifier("println".to_string())),
                    args: vec![Expr::Literal(Literal::String("hello".to_string()))],
                })],
            },
        })],
    }
}

#[test]
fn default_options() {
    let options = CodegenOptions::default();
    assert!(!options.emit_ir);
    assert_eq!(options.opt_level, CodegenOptLevel::Default);
    assert!(!options.enable_lto);
}

#[test]
fn llvm_version() {
    assert_eq!(current_llvm_version(), Some("15.0".to_string()));
}

#[test]
fn plan_derives_the_temporary_files_from_the_output() {
    let plan = build_plan("out/app", &CodegenOptions::default());
    assert_eq!(plan.output, "out/app");
    assert_eq!(plan.object_path, "out/app.o");
    assert_eq!(plan.runtime_source_path, "out/app.runtime.c");
    assert_eq!(plan.runtime_object_path, "out/app.runtime.o");
    assert_eq!(plan.compile_args, vec!["-c", "out/app.runtime.c", "-o", "out/app.runtime.o"]);
    assert_eq!(plan.link_args, vec!["out/app.o", "out/app.runtime.o", "-o", "out/app"]);
    assert_eq!(temporary_files(&plan), vec!["out/app.runtime.c", "out/app.runtime.o", "out/app.o"]);
}

#[test]
fn plan_replaces_an_extension() {
    let plan = build_plan("build/prog.bin", &CodegenOptions::default());
    assert_eq!(plan.object_path, "build/prog.o");
    assert_eq!(plan.runtime_source_path, "build/prog.runtime.c");
    assert_eq!(plan.runtime_object_path, "build/prog.runtime.o");
    assert_eq!(plan.link_args, vec!["build/prog.o", "build/prog.runtime.o", "-o", "build/prog.bin"]);
}

#[test]
fn link_time_optimization_adds_a_flag() {
    let options = CodegenOptions { emit_ir: false, opt_level: CodegenOptLevel::Aggressive, enable_lto: true };
    let plan = build_plan("app", &options);
    assert_eq!(plan.link_args, vec!["app.o", "app.runtime.o", "-o", "app", "-flto"]);
    assert_eq!(plan.compile_args, vec!["-c", "app.runtime.c", "-o", "app.runtime.o"]);
    let plan = plan_with_paths("x", "a".to_string(), "b".to_string(), "c".to_string(), &options);
    assert_eq!(plan.compile_args, vec!["-c", "b", "-o", "c"]);
    assert_eq!(plan.link_args, vec!["a", "c", "-o", "x", "-flto"]);
}

#[test]
fn artifact_names_the_output() {
    let plan = build_plan("app", &CodegenOptions::default());
    assert_eq!(finish_build(&plan, None), BuildArtifact { binary: "app".to_string(), ir: None });
    assert_eq!(
        finish_build(&plan, Some("ir".to_string())),
        BuildArtifact { binary: "app".to_string(), ir: Some("ir".to_string()) }
    );
}

#[test]
fn object_code_is_generated_at_every_level() {
    let registry = bootstrap_stdlib();
    let module = lower_program(&hello(), &registry).unwrap();
    for opt_level in [CodegenOptLevel::Off, CodegenOptLevel::Default, CodegenOptLevel::Aggressive] {
        let options = CodegenOptions { emit_ir: false, opt_level, enable_lto: false };
        let compiled = compile_module(&module, &options).expect("object code is written");
        assert!(compiled.object.len() > 64);
        assert_eq!(compiled.ir, None);
    }
}

#[test]
fn printed_module_is_kept_on_request() {
    let registry = bootstrap_stdlib();
    let options = CodegenOptions { emit_ir: true, opt_level: CodegenOptLevel::Default, enable_lto: false };
    let compiled = compile_program(&hello(), &registry, &options).expect("the program compiles");
    let ir = compiled.ir.expect("the printed module is kept");
    assert!(ir.contains("define i32 @main()"));
    assert!(ir.contains("call void @otter_std_io_println"));
    assert!(!ir.contains("target triple"));
    assert!(!compiled.object.is_empty());
}

#[test]
fn errors_of_lowering_come_through_code_generation() {
    let registry = bootstrap_stdlib();
    let program = Program { statements: vec![] };
    let error = compile_program(&program, &registry, &CodegenOptions::default()).unwrap_err();
    assert_eq!(error.code, ErrorCode::NoFunctions);
}

#[test]
fn standard_registry() {
    let registry = bootstrap_stdlib();
    let println = registry.resolve("std.io.println").expect("println is known");
    assert_eq!(println.symbol, "otter_std_io_println");
    assert_eq!(println.signature.params, vec![FfiType::Str]);
    assert_eq!(println.signature.result, FfiType::Unit);
    let now = registry.resolve("std.time.now").expect("the clock is known");
    assert_eq!(now.symbol, "otter_std_time_now_ms");
    assert_eq!(now.signature.params, vec![]);
    assert_eq!(now.signature.result, FfiType::I64);
    assert_eq!(registry.resolve("std.io.print").unwrap().symbol, "otter_std_io_print");
    assert_eq!(registry.resolve("std.io.read_line").unwrap().signature.result, FfiType::Str);
    assert_eq!(registry.resolve("std.io.free_string").unwrap().symbol, "otter_std_io_free_string");
    assert_eq!(registry.resolve("print").unwrap().symbol, "otter_std_io_print");
    assert_eq!(registry.resolve("println").unwrap().symbol, "otter_std_io_println");
    assert_eq!(registry.resolve("std.io"), None);
    assert_eq!(registry.resolve(""), None);
}

#[test]
fn later_registration_replaces_an_earlier_one() {
    let mut registry = bootstrap_stdlib();
    registry.register(otterlang::FfiFunction {
        name: "std.time.now".to_string(),
        symbol: "other_clock".to_string(),
        signature: otterlang::FfiSignature { params: vec![], result: FfiType::F64 },
    });
    assert_eq!(registry.resolve("std.time.now").unwrap().symbol, "other_clock");
    assert_eq!(registry.resolve("std.io.println").unwrap().symbol, "otter_std_io_println");
}

#[test]
fn boundary_types_are_semantic_types() {
    assert_eq!(OtterType::from(FfiType::Unit), OtterType::Unit);
    assert_eq!(OtterType::from(FfiType::Bool), OtterType::Bool);
    assert_eq!(OtterType::from(FfiType::I32), OtterType::I32);
    assert_eq!(OtterType::from(FfiType::I64), OtterType::I64);
    assert_eq!(OtterType::from(FfiType::F64), OtterType::F64);
    assert_eq!(OtterType::from(FfiType::Str), OtterType::Str);
}

#[test]
fn profiler_commands() {
    let memory = |format: &str| ProfileCommand::Memory { program: "app.otter".to_string(), format: format.to_string() };
    assert_eq!(
        run_profiler_subcommand(&memory("json")),
        ProfileAction::ProfileMemory { program: "app.otter".to_string(), format: ReportFormat::Json }
    );
    assert_eq!(
        run_profiler_subcommand(&memory("text")),
        ProfileAction::ProfileMemory { program: "app.otter".to_string(), format: ReportFormat::Text }
    );
    assert_eq!(
        run_profiler_subcommand(&memory("JSON")),
        ProfileAction::ProfileMemory { program: "app.otter".to_string(), format: ReportFormat::Text }
    );
    assert_eq!(
        run_profiler_subcommand(&ProfileCommand::Calls { program: "p".to_string(), iterations: 100 }),
        ProfileAction::ProfileCalls { program: "p".to_string(), iterations: 100 }
    );
    assert_eq!(
        run_profiler_subcommand(&ProfileCommand::Stats { file: Some("stats.json".to_string()) }),
        ProfileAction::ShowStats { file: "stats.json".to_string() }
    );
    assert_eq!(run_profiler_subcommand(&ProfileCommand::Stats { file: None }), ProfileAction::ExplainStats);
    let cli = ProfilerCli::new(ProfileCommand::Stats { file: None });
    assert_eq!(run_profiler(&cli), ProfileAction::ExplainStats);
    let cli = ProfilerCli::new(memory("json"));
    assert_eq!(run_profiler(&cli), run_profiler_subcommand(&memory("json")));
}

#[test]
fn profiler_report_details() {
    assert_eq!(report_format("json"), ReportFormat::Json);
    assert_eq!(report_format(""), ReportFormat::Text);
    assert_eq!(listed_leaks(0), 0);
    assert_eq!(listed_leaks(9), 9);
    assert_eq!(listed_leaks(10), 10);
    assert_eq!(listed_leaks(11), 10);
    assert_eq!(listed_leaks(usize::MAX), 10);
}

fn carry_out(generated: Option<CodegenError>, outcomes: &[bool]) -> (Vec<BuildAction>, Option<Result<(), CodegenError>>) {
    let plan = build_plan("app", &CodegenOptions::default());
    let mut state = BuildState::start(generated);
    let mut actions = Vec::new();
    let mut outcomes = outcomes.iter();
    loop {
        let action = state.action(&plan);
        if action == BuildAction::Finish {
            return (actions, state.outcome());
        }
        actions.push(action);
        state = state.advance(*outcomes.next().unwrap_or(&true), "report");
    }
}

fn strings(texts: &[&str]) -> Vec<String> {
    texts.iter().map(|t| t.to_string()).collect()
}

#[test]
fn build_steps_in_order() {
    let (actions, outcome) = carry_out(None, &[]);
    assert_eq!(
        actions,
        vec![
            BuildAction::WriteObject { path: "app.o".to_string() },
            BuildAction::WriteRuntime { path: "app.runtime.c".to_string() },
            BuildAction::RunCompiler { args: strings(&["-c", "app.runtime.c", "-o", "app.runtime.o"]) },
            BuildAction::RunCompiler { args: strings(&["app.o", "app.runtime.o", "-o", "app"]) },
            BuildAction::Remove { files: strings(&["app.runtime.c", "app.runtime.o", "app.o"]) },
        ]
    );
    assert_eq!(outcome, Some(Ok(())));
}

#[test]
fn failed_step_goes_to_the_removal_of_temporary_files() {
    let (actions, outcome) = carry_out(None, &[true, true, false]);
    assert_eq!(actions.len(), 4);
    assert_eq!(actions[2], BuildAction::RunCompiler { args: strings(&["-c", "app.runtime.c", "-o", "app.runtime.o"]) });
    assert_eq!(actions[3], BuildAction::Remove { files: strings(&["app.runtime.c", "app.runtime.o", "app.o"]) });
    assert_eq!(
        outcome,
        Some(Err(CodegenError::new(ErrorCode::Toolchain(ToolchainStep::RuntimeCompile), "report")))
    );
    let (actions, outcome) = carry_out(None, &[true, true, true, false]);
    assert_eq!(actions.len(), 5);
    assert_eq!(outcome, Some(Err(CodegenError::new(ErrorCode::Toolchain(ToolchainStep::Link), "report"))));
    let (actions, outcome) = carry_out(None, &[false]);
    assert_eq!(actions.len(), 2);
    assert_eq!(
        outcome,
        Some(Err(CodegenError::new(ErrorCode::Toolchain(ToolchainStep::ObjectEmission), "report")))
    );
}

#[test]
fn failed_removal_does_not_fail_the_build() {
    let (_, outcome) = carry_out(None, &[true, true, true, true, false]);
    assert_eq!(outcome, Some(Ok(())));
}

#[test]
fn failed_code_generation_leaves_only_the_removal() {
    let error = CodegenError::bare(ErrorCode::MissingMain);
    let (actions, outcome) = carry_out(Some(error.clone()), &[]);
    assert_eq!(actions, vec![BuildAction::Remove { files: strings(&["app.runtime.c", "app.runtime.o", "app.o"]) }]);
    assert_eq!(outcome, Some(Err(error)));
}

#[test]
fn build_in_progress_has_no_outcome() {
    for step in [
        BuildStep::WriteObject,
        BuildStep::WriteRuntime,
        BuildStep::CompileRuntime,
        BuildStep::Link,
        BuildStep::CleanUp,
    ] {
        assert_eq!(BuildState { step, failure: None }.outcome(), None);
    }
    assert_eq!(BuildState { step: BuildStep::Done, failure: None }.advance(false, "x").step, BuildStep::Done);
}
