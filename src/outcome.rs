use vstd::prelude::*;

use crate::command::{resolve_output_dir, resolved_output_dir, SolangArgs};
use crate::error::BuildError;
use crate::options::{build_mode_of, mode_for, BuildMode};
use crate::source::{check_source, has_sol_extension};

verus! {

/// What is needed to run the Solidity compiler once.
#[derive(Clone, Debug)]
pub struct SolidityPlan {
    /// The shell command line that runs the compiler.
    pub command_line: String,
    /// The directory that receives the compiled artifacts.
    pub output_dir: String,
    pub build_mode: BuildMode,
}

/// The outcome of a successful build.
#[derive(Clone, Debug)]
pub struct BuildResult {
    pub output_dir: String,
    pub build_mode: BuildMode,
}

/// Decides whether the Solidity compiler is to run, and how. Nothing is to be
/// spawned unless the result is `Ok`. `source` is the canonicalised source
/// path, `source_exists` whether it names an existing file; an empty
/// `output_meta` or `output_dir` stands for a flag that was not given.
pub fn plan_solidity_build(
    args: &SolangArgs,
    source: Option<&str>,
    source_exists: bool,
    output_meta: &str,
    output_dir: &str,
    project_root: &str,
    release: bool,
) -> (r: Result<SolidityPlan, BuildError>)
    ensures
        r is Ok <==> (source is Some && source_exists && has_sol_extension(source->Some_0@)),
        source is None ==> r is Err && r->Err_0 is MissingSource,
        source is Some && r is Err ==> r->Err_0 is BadSourcePath
            && r->Err_0->BadSourcePath_0@ == source->Some_0@,
        r is Ok ==> r->Ok_0.command_line@ == args.command_line_spec(),
        r is Ok ==> r->Ok_0.output_dir@ == resolved_output_dir(output_meta@, output_dir@, project_root@),
        r is Ok ==> r->Ok_0.build_mode == mode_for(release),
{
    match check_source(source, source_exists) {
        Err(e) => Err(e),
        Ok(()) => Ok(SolidityPlan {
            command_line: args.command_line(),
            output_dir: resolve_output_dir(output_meta, output_dir, project_root),
            build_mode: build_mode_of(release),
        }),
    }
}

/// The outcome of a compiler run from its exit code (`None` when the process
/// was ended by a signal): only an exit code of zero is a success.
pub fn solidity_outcome(plan: SolidityPlan, exit_code: Option<i32>) -> (r: Result<BuildResult, BuildError>)
    ensures
        r is Ok <==> exit_code == Some(0i32),
        r is Ok ==> r->Ok_0.output_dir@ == plan.output_dir@ && r->Ok_0.build_mode == plan.build_mode,
        r is Err ==> r->Err_0 is CompilerFailed && r->Err_0->CompilerFailed_0 == exit_code,
{
    match exit_code {
        Some(0) => Ok(BuildResult { output_dir: plan.output_dir, build_mode: plan.build_mode }),
        _ => Err(BuildError::CompilerFailed(exit_code)),
    }
}

} // verus!
