//! The code generation core of the Otter compiler.
//!
//! A checked program is lowered to a small intermediate representation
//! (`ir`), which is then replayed on an LLVM builder, verified, optimized
//! and turned into object code (`backend`). Lowering is specified by
//! functions on the ghost view of a lowering session (`state`): what an
//! expression (`expr`, `eval`), a statement (`stmt`), a function or a
//! program (`program`) adds to the module. The executable code is proved
//! to do exactly that, and the module that it yields is proved to be well
//! formed: every reference of every instruction leads somewhere, every
//! name is declared once, every block ends in a terminator, and it is the
//! only terminator of its block exactly if the program is tidy, that is,
//! if nothing but declarations and literals follows a return and no loop
//! body returns. `laws` states what holds of lowering in general.
//!
//! LLVM is reached through `llvm`, whose functions are trusted; so is the
//! path helper in `driver`, which calls the standard library. Files,
//! processes and the command line are left to the callers: `driver` plans
//! a build, `steps` says which step comes next and how the build ends, and
//! `profiler` decides what a command of the profiler asks for.

pub mod ast;
pub mod backend;
pub mod driver;
pub mod error;
pub mod eval;
pub mod expr;
pub mod ffi;
pub mod ir;
pub mod laws;
pub mod llvm;
pub mod message;
pub mod profiler;
pub mod program;
pub mod state;
pub mod steps;
pub mod stmt;
pub mod symbols;
pub mod types;

pub use backend::{compile_module, compile_program, emit_ir, CompiledModule};
pub use driver::{
    build_plan, current_llvm_version, BuildArtifact, BuildPlan, CodegenOptLevel, CodegenOptions,
};
pub use error::{CodegenError, ErrorCode, ErrorKind};
pub use profiler::{run_profiler, run_profiler_subcommand, ProfileCommand, ProfilerCli};
pub use program::lower_program;
pub use state::Compiler;
pub use symbols::{bootstrap_stdlib, FfiFunction, FfiSignature, FfiType, SymbolRegistry};
