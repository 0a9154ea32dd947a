//! The options of a build, what a build yields, and the plan of the steps
//! that turn an object file into an executable.

use vstd::prelude::*;

verus! {

/// How hard the optimizer works.
#[derive(Clone, Copy, Debug, PartialEq, Eq, Structural)]
pub enum CodegenOptLevel {
    /// No optimization at all.
    Off,
    Default,
    Aggressive,
}

/// The options of a build.
#[derive(Clone, Copy, Debug, PartialEq, Eq, Structural)]
pub struct CodegenOptions {
    /// Keep the printed module as it is before optimization.
    pub emit_ir: bool,
    pub opt_level: CodegenOptLevel,
    /// Ask the linker for link-time optimization.
    pub enable_lto: bool,
}

impl Default for CodegenOptions {
    fn default() -> (options: CodegenOptions)
        ensures
            options == (CodegenOptions {
                emit_ir: false,
                opt_level: CodegenOptLevel::Default,
                enable_lto: false,
            }),
    {
        CodegenOptions { emit_ir: false, opt_level: CodegenOptLevel::Default, enable_lto: false }
    }
}

/// What a build yields: the path of the executable and, where it was asked
/// for, the printed module.
#[derive(Clone, Debug, PartialEq, Eq)]
pub struct BuildArtifact {
    pub binary: String,
    pub ir: Option<String>,
}

/// The LLVM release line that the code generator is written for.
pub fn current_llvm_version() -> (version: Option<String>)
    ensures
        version matches Some(v) && v@ == "15.0"@,
{
    Some("15.0".to_owned())
}

/// The path `path` with its extension replaced by `extension`, as the
/// standard library's `Path::with_extension` gives it.
pub uninterp spec fn path_with_extension(path: Seq<char>, extension: Seq<char>) -> Seq<char>;

/// Does the text hold no path separator, neither `/` nor `\`?
pub open spec fn no_separator(text: Seq<char>) -> bool {
    forall|i: int| 0 <= i < text.len() ==> (#[trigger] text[i]) != '/' && text[i] != '\\'
}

/// Replaces the extension of a path.
///
/// Trusted: `std::path::Path::with_extension`. It depends on the two
/// texts alone; the contract gives its result a name and says no more.
/// The standard library panics on an extension that holds a path
/// separator, so such an extension is left out.
#[verifier::external_body]
fn with_extension(path: &str, extension: &str) -> (r: String)
    requires
        no_separator(extension@),
    ensures
        r@ == path_with_extension(path@, extension@),
{
    std::path::Path::new(path).with_extension(extension).to_string_lossy().into_owned()
}

/// The files and the commands of the steps behind code generation.
#[derive(Debug)]
pub struct BuildPlan {
    /// Where the executable goes.
    pub output: String,
    /// Where the object file of the program goes.
    pub object_path: String,
    /// Where the source of the runtime shim goes.
    pub runtime_source_path: String,
    /// Where the object file of the runtime shim goes.
    pub runtime_object_path: String,
    /// The arguments of the C compiler that compile the runtime shim.
    pub compile_args: Vec<String>,
    /// The arguments of the C compiler that link the executable.
    pub link_args: Vec<String>,
}

/// The texts of a list of strings.
pub open spec fn texts(strings: Seq<String>) -> Seq<Seq<char>> {
    strings.map_values(|s: String| s@)
}

/// The arguments that compile the runtime shim: `-c source -o object`.
pub open spec fn spec_compile_args(source: Seq<char>, object: Seq<char>) -> Seq<Seq<char>> {
    seq!["-c"@, source, "-o"@, object]
}

/// The arguments that link the executable: both object files, `-o output`
/// and, where link-time optimization is asked for, `-flto`.
pub open spec fn spec_link_args(object: Seq<char>, runtime: Seq<char>, output: Seq<char>, lto: bool) -> Seq<
    Seq<char>,
> {
    if lto {
        seq![object, runtime, "-o"@, output, "-flto"@]
    } else {
        seq![object, runtime, "-o"@, output]
    }
}

/// The plan of a build whose temporary files have the given paths.
pub fn plan_with_paths(
    output: &str,
    object_path: String,
    runtime_source_path: String,
    runtime_object_path: String,
    options: &CodegenOptions,
) -> (plan: BuildPlan)
    ensures
        plan.output@ == output@,
        plan.object_path == object_path,
        plan.runtime_source_path == runtime_source_path,
        plan.runtime_object_path == runtime_object_path,
        texts(plan.compile_args@) == spec_compile_args(runtime_source_path@, runtime_object_path@),
        texts(plan.link_args@) == spec_link_args(
            object_path@,
            runtime_object_path@,
            output@,
            options.enable_lto,
        ),
{
    let mut compile_args: Vec<String> = Vec::new();
    compile_args.push("-c".to_owned());
    compile_args.push(runtime_source_path.clone());
    compile_args.push("-o".to_owned());
    compile_args.push(runtime_object_path.clone());
    let mut link_args: Vec<String> = Vec::new();
    link_args.push(object_path.clone());
    link_args.push(runtime_object_path.clone());
    link_args.push("-o".to_owned());
    link_args.push(output.to_owned());
    if options.enable_lto {
        link_args.push("-flto".to_owned());
    }
    proof {
        assert(texts(compile_args@) =~= spec_compile_args(runtime_source_path@, runtime_object_path@));
        assert(texts(link_args@) =~= spec_link_args(
            object_path@,
            runtime_object_path@,
            output@,
            options.enable_lto,
        ));
    }
    BuildPlan {
        output: output.to_owned(),
        object_path,
        runtime_source_path,
        runtime_object_path,
        compile_args,
        link_args,
    }
}

/// The plan of a build of the executable `output`: the temporary files
/// stand beside it, with the extensions `o`, `runtime.c` and `runtime.o`.
pub fn build_plan(output: &str, options: &CodegenOptions) -> (plan: BuildPlan)
    ensures
        plan.output@ == output@,
        plan.object_path@ == path_with_extension(output@, "o"@),
        plan.runtime_source_path@ == path_with_extension(output@, "runtime.c"@),
        plan.runtime_object_path@ == path_with_extension(output@, "runtime.o"@),
        texts(plan.compile_args@) == spec_compile_args(
            plan.runtime_source_path@,
            plan.runtime_object_path@,
        ),
        texts(plan.link_args@) == spec_link_args(
            plan.object_path@,
            plan.runtime_object_path@,
            output@,
            options.enable_lto,
        ),
{
    proof {
        reveal_strlit("o");
        reveal_strlit("runtime.c");
        reveal_strlit("runtime.o");
    }
    let object_path = with_extension(output, "o");
    let runtime_source_path = with_extension(output, "runtime.c");
    let runtime_object_path = with_extension(output, "runtime.o");
    plan_with_paths(output, object_path, runtime_source_path, runtime_object_path, options)
}

/// The artifact of a finished build.
pub fn finish_build(plan: &BuildPlan, ir: Option<String>) -> (artifact: BuildArtifact)
    ensures
        artifact.binary == plan.output,
        artifact.ir == ir,
{
    BuildArtifact { binary: plan.output.clone(), ir }
}

/// The files that a finished build removes: the object file, the source
/// of the runtime shim and its object file.
pub fn temporary_files(plan: &BuildPlan) -> (files: Vec<String>)
    ensures
        files@ == seq![plan.runtime_source_path, plan.runtime_object_path, plan.object_path],
{
    let mut files: Vec<String> = Vec::new();
    files.push(plan.runtime_source_path.clone());
    files.push(plan.runtime_object_path.clone());
    files.push(plan.object_path.clone());
    assert(files@ =~= seq![plan.runtime_source_path, plan.runtime_object_path, plan.object_path]);
    files
}

} // verus!
