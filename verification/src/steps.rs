//! The steps of a build behind code generation, as a state machine: the
//! caller does what a step asks for and reports how it went.

use crate::driver::{temporary_files, BuildPlan};
use crate::error::{failure, CodegenError, CodegenErrorView, ErrorCode, ToolchainStep};
use vstd::prelude::*;

verus! {

/// Where a build stands.
#[derive(Clone, Copy, Debug, PartialEq, Eq, Structural)]
pub enum BuildStep {
    /// The object code is to be written to its file.
    WriteObject,
    /// The source of the runtime shim is to be written to its file.
    WriteRuntime,
    /// The runtime shim is to be compiled.
    CompileRuntime,
    /// The executable is to be linked.
    Link,
    /// The temporary files are to be removed.
    CleanUp,
    /// Nothing is left to do.
    Done,
}

/// What the caller is to do.
#[derive(Clone, Debug, PartialEq, Eq)]
pub enum BuildAction {
    /// Write the object code to this file.
    WriteObject { path: String },
    /// Write the source of the runtime shim to this file.
    WriteRuntime { path: String },
    /// Run the system C compiler with these arguments.
    RunCompiler { args: Vec<String> },
    /// Remove these files; a file that cannot be removed is left.
    Remove { files: Vec<String> },
    /// Take the outcome.
    Finish,
}

/// A build in progress: where it stands, and the error that has failed it,
/// if one has.
#[derive(Clone, Debug, PartialEq, Eq)]
pub struct BuildState {
    pub step: BuildStep,
    pub failure: Option<CodegenError>,
}

/// A build in progress as contracts speak of it.
pub struct BuildStateView {
    pub step: BuildStep,
    pub failure: Option<CodegenErrorView>,
}

impl View for BuildState {
    type V = BuildStateView;

    open spec fn view(&self) -> BuildStateView {
        BuildStateView {
            step: self.step,
            failure: match self.failure {
                Some(e) => Some(e@),
                None => None,
            },
        }
    }
}

/// The step behind `step`.
pub open spec fn next_step(step: BuildStep) -> BuildStep {
    match step {
        BuildStep::WriteObject => BuildStep::WriteRuntime,
        BuildStep::WriteRuntime => BuildStep::CompileRuntime,
        BuildStep::CompileRuntime => BuildStep::Link,
        BuildStep::Link => BuildStep::CleanUp,
        BuildStep::CleanUp => BuildStep::Done,
        BuildStep::Done => BuildStep::Done,
    }
}

/// The part of the toolchain that has failed when `step` fails; none for
/// the removal of the temporary files, whose failure is ignored.
pub open spec fn failed_part(step: BuildStep) -> Option<ToolchainStep> {
    match step {
        BuildStep::WriteObject => Some(ToolchainStep::ObjectEmission),
        BuildStep::WriteRuntime => Some(ToolchainStep::RuntimeWrite),
        BuildStep::CompileRuntime => Some(ToolchainStep::RuntimeCompile),
        BuildStep::Link => Some(ToolchainStep::Link),
        BuildStep::CleanUp => None,
        BuildStep::Done => None,
    }
}

/// The state in which a build starts: with the first step if code
/// generation succeeded, and else with the removal of the temporary files
/// and the error of code generation.
pub open spec fn spec_start(generated: Option<CodegenErrorView>) -> BuildStateView {
    match generated {
        None => BuildStateView { step: BuildStep::WriteObject, failure: None },
        Some(e) => BuildStateView { step: BuildStep::CleanUp, failure: Some(e) },
    }
}

/// The state behind a step that went as `success` says: a step that
/// succeeded is followed by the next; the first step that fails sends the
/// build to the removal of the temporary files, with its error.
pub open spec fn spec_advance(state: BuildStateView, success: bool, report: Seq<char>) -> BuildStateView {
    match failed_part(state.step) {
        Some(part) => if success {
            BuildStateView { step: next_step(state.step), failure: state.failure }
        } else {
            BuildStateView {
                step: BuildStep::CleanUp,
                failure: Some(failure(ErrorCode::Toolchain(part), report)),
            }
        },
        None => BuildStateView { step: next_step(state.step), failure: state.failure },
    }
}

/// Is `action` what the plan asks for at `step`?
pub open spec fn is_action_at(action: BuildAction, plan: BuildPlan, step: BuildStep) -> bool {
    match step {
        BuildStep::WriteObject => action matches BuildAction::WriteObject { path } && path
            == plan.object_path,
        BuildStep::WriteRuntime => action matches BuildAction::WriteRuntime { path } && path
            == plan.runtime_source_path,
        BuildStep::CompileRuntime => action matches BuildAction::RunCompiler { args } && args@
            == plan.compile_args@,
        BuildStep::Link => action matches BuildAction::RunCompiler { args } && args@ == plan.link_args@,
        BuildStep::CleanUp => action matches BuildAction::Remove { files } && files@ == seq![
            plan.runtime_source_path,
            plan.runtime_object_path,
            plan.object_path,
        ],
        BuildStep::Done => action is Finish,
    }
}

/// A copy of a list of strings.
fn copy_strings(strings: &Vec<String>) -> (copy: Vec<String>)
    ensures
        copy@ == strings@,
{
    let mut copy: Vec<String> = Vec::new();
    let mut i: usize = 0;
    while i < strings.len()
        invariant
            i <= strings.len(),
            copy@ == strings@.take(i as int),
        decreases strings.len() - i,
    {
        copy.push(strings[i].clone());
        proof {
            assert(copy@ =~= strings@.take(i + 1));
        }
        i += 1;
    }
    proof {
        assert(strings@.take(i as int) =~= strings@);
    }
    copy
}

impl BuildState {
    /// The state in which a build starts, given how code generation went.
    pub fn start(generated: Option<CodegenError>) -> (state: BuildState)
        ensures
            state@ == spec_start(
                match generated {
                    Some(e) => Some(e@),
                    None => None,
                },
            ),
    {
        match generated {
            None => BuildState { step: BuildStep::WriteObject, failure: None },
            Some(e) => BuildState { step: BuildStep::CleanUp, failure: Some(e) },
        }
    }

    /// What the caller is to do in this state.
    pub fn action(&self, plan: &BuildPlan) -> (action: BuildAction)
        ensures
            is_action_at(action, *plan, self.step),
    {
        match self.step {
            BuildStep::WriteObject => BuildAction::WriteObject { path: plan.object_path.clone() },
            BuildStep::WriteRuntime => BuildAction::WriteRuntime { path: plan.runtime_source_path.clone() },
            BuildStep::CompileRuntime => BuildAction::RunCompiler { args: copy_strings(&plan.compile_args) },
            BuildStep::Link => BuildAction::RunCompiler { args: copy_strings(&plan.link_args) },
            BuildStep::CleanUp => BuildAction::Remove { files: temporary_files(plan) },
            BuildStep::Done => BuildAction::Finish,
        }
    }

    /// The state behind the step of this state, which went as `success`
    /// says; `report` is what the caller has to say of a failure.
    pub fn advance(self, success: bool, report: &str) -> (state: BuildState)
        ensures
            state@ == spec_advance(self@, success, report@),
    {
        let part = match self.step {
            BuildStep::WriteObject => Some(ToolchainStep::ObjectEmission),
            BuildStep::WriteRuntime => Some(ToolchainStep::RuntimeWrite),
            BuildStep::CompileRuntime => Some(ToolchainStep::RuntimeCompile),
            BuildStep::Link => Some(ToolchainStep::Link),
            BuildStep::CleanUp => None,
            BuildStep::Done => None,
        };
        let next = match self.step {
            BuildStep::WriteObject => BuildStep::WriteRuntime,
            BuildStep::WriteRuntime => BuildStep::CompileRuntime,
            BuildStep::CompileRuntime => BuildStep::Link,
            BuildStep::Link => BuildStep::CleanUp,
            BuildStep::CleanUp => BuildStep::Done,
            BuildStep::Done => BuildStep::Done,
        };
        match part {
            Some(part) => if success {
                BuildState { step: next, failure: self.failure }
            } else {
                BuildState {
                    step: BuildStep::CleanUp,
                    failure: Some(CodegenError::new(ErrorCode::Toolchain(part), report)),
                }
            },
            None => BuildState { step: next, failure: self.failure },
        }
    }

    /// How the build ended, once nothing is left to do.
    pub fn outcome(self) -> (r: Option<Result<(), CodegenError>>)
        ensures
            match r {
                None => self.step != BuildStep::Done,
                Some(Ok(_)) => self.step == BuildStep::Done && self.failure is None,
                Some(Err(e)) => self.step == BuildStep::Done && self.failure == Some(e),
            },
    {
        match self.step {
            BuildStep::Done => match self.failure {
                Some(e) => Some(Err(e)),
                None => Some(Ok(())),
            },
            _ => None,
        }
    }
}

/// The step that is taken as the `index`-th if all before it succeed.
pub open spec fn step_at(index: int) -> BuildStep {
    if index <= 0 {
        BuildStep::WriteObject
    } else if index == 1 {
        BuildStep::WriteRuntime
    } else if index == 2 {
        BuildStep::CompileRuntime
    } else if index == 3 {
        BuildStep::Link
    } else if index == 4 {
        BuildStep::CleanUp
    } else {
        BuildStep::Done
    }
}

/// A build that is carried out step by step ends after at most six steps,
/// whatever happens. It ends well exactly if code generation and the four
/// steps before the removal of the temporary files succeeded; else it
/// ends with the error of code generation, or of the first step that
/// failed.
pub proof fn lemma_build_ends(
    generated: Option<CodegenErrorView>,
    outcomes: Seq<bool>,
    reports: Seq<Seq<char>>,
)
    requires
        outcomes.len() == 6,
        reports.len() == 6,
    ensures
        ({
            let end = run_steps(spec_start(generated), outcomes, reports, 0);
            &&& end.step == BuildStep::Done
            &&& end.failure is None <==> generated is None && outcomes[0] && outcomes[1] && outcomes[2]
                && outcomes[3]
            &&& generated matches Some(e) ==> end.failure == Some(e)
            &&& forall|k: int|
                generated is None && 0 <= k < 4 && !outcomes[k] && (forall|j: int|
                    0 <= j < k ==> outcomes[j]) ==> end.failure == Some(
                    failure(ErrorCode::Toolchain(failed_part(step_at(k))->0), reports[k]),
                )
        }),
{
    let s0 = spec_start(generated);
    let s1 = spec_advance(s0, outcomes[0], reports[0]);
    let s2 = spec_advance(s1, outcomes[1], reports[1]);
    let s3 = spec_advance(s2, outcomes[2], reports[2]);
    let s4 = spec_advance(s3, outcomes[3], reports[3]);
    let s5 = spec_advance(s4, outcomes[4], reports[4]);
    let s6 = spec_advance(s5, outcomes[5], reports[5]);
    assert(run_steps(s6, outcomes, reports, 6) == s6);
    assert(run_steps(s5, outcomes, reports, 5) == s6);
    assert(run_steps(s4, outcomes, reports, 4) == s6);
    assert(run_steps(s3, outcomes, reports, 3) == s6);
    assert(run_steps(s2, outcomes, reports, 2) == s6);
    assert(run_steps(s1, outcomes, reports, 1) == s6);
    assert(run_steps(s0, outcomes, reports, 0) == s6);
    assert forall|k: int|
        generated is None && 0 <= k < 4 && !outcomes[k] && (forall|j: int|
            0 <= j < k ==> outcomes[j]) implies s6.failure == Some(
        failure(ErrorCode::Toolchain(failed_part(step_at(k))->0), reports[k]),
    ) by {
        if k == 1 {
            assert(outcomes[0]);
        } else if k == 2 {
            assert(outcomes[0] && outcomes[1]);
        } else if k == 3 {
            assert(outcomes[0] && outcomes[1] && outcomes[2]);
        }
    }
}

/// The state after the steps from `from` on went as `outcomes` says.
pub open spec fn run_steps(
    state: BuildStateView,
    outcomes: Seq<bool>,
    reports: Seq<Seq<char>>,
    from: int,
) -> BuildStateView
    decreases outcomes.len() - from,
{
    if 0 <= from < outcomes.len() && from < reports.len() {
        run_steps(spec_advance(state, outcomes[from], reports[from]), outcomes, reports, from + 1)
    } else {
        state
    }
}

} // verus!
