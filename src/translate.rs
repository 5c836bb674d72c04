use vstd::prelude::*;

use crate::command::{resolved_output_dir, SolangArgs};
use crate::error::BuildError;
use crate::options::{mode_for, native_options, native_options_spec, NativeOptions};
use crate::outcome::{plan_solidity_build, SolidityPlan};
use crate::source::has_sol_extension;

verus! {

/// The flags of one build request.
#[derive(Clone, Debug)]
pub struct BuildFlags {
    /// Build with the Solidity compiler instead of the native pipeline.
    pub solang: bool,
    pub release: bool,
    pub output_json: bool,
    pub quiet: bool,
    pub verbose: bool,
    /// The metadata output directory; empty when not given.
    pub output_meta: String,
    /// The output directory; empty when not given.
    pub output_dir: String,
    /// The canonicalised Solidity source path, if one was given.
    pub solidity_filename: Option<String>,
    /// The compiler's flags, rendered as tokens.
    pub solang_args: SolangArgs,
}

/// Exactly one of the two ways to build.
#[derive(Clone, Debug)]
pub enum Invocation {
    Native(NativeOptions),
    Solidity(SolidityPlan),
}

/// The source path as a spec value, if one was given.
pub open spec fn source_view(flags: BuildFlags) -> Option<Seq<char>> {
    match flags.solidity_filename {
        Some(s) => Some(s@),
        None => None,
    }
}

/// Translates the flags into one invocation. `project_root` is the
/// canonicalised project directory, `source_exists` whether the source path
/// names an existing file.
pub fn translate(flags: &BuildFlags, project_root: &str, source_exists: bool) -> (r: Result<Invocation, BuildError>)
    ensures
        !flags.solang ==> (r is Ok <==> !(flags.quiet && flags.verbose)),
        !flags.solang && r is Ok ==> r->Ok_0 == Invocation::Native(
            native_options_spec(flags.release, flags.output_json, flags.quiet, flags.verbose),
        ),
        !flags.solang && r is Err ==> r->Err_0 is ConflictingVerbosity,
        flags.solang ==> (r is Ok <==> (source_view(*flags) is Some && source_exists
            && has_sol_extension(source_view(*flags)->Some_0))),
        flags.solang && source_view(*flags) is None ==> r is Err && r->Err_0 is MissingSource,
        flags.solang && source_view(*flags) is Some && r is Err ==> r->Err_0 is BadSourcePath
            && r->Err_0->BadSourcePath_0@ == source_view(*flags)->Some_0,
        flags.solang && r is Ok ==> r->Ok_0 is Solidity,
        flags.solang && r is Ok ==> r->Ok_0->Solidity_0.command_line@
            == flags.solang_args.command_line_spec(),
        flags.solang && r is Ok ==> r->Ok_0->Solidity_0.output_dir@ == resolved_output_dir(
            flags.output_meta@,
            flags.output_dir@,
            project_root@,
        ),
        flags.solang && r is Ok ==> r->Ok_0->Solidity_0.build_mode == mode_for(flags.release),
{
    if !flags.solang {
        match native_options(flags.release, flags.output_json, flags.quiet, flags.verbose) {
            Ok(o) => Ok(Invocation::Native(o)),
            Err(e) => Err(e),
        }
    } else {
        let source: Option<&str> = match &flags.solidity_filename {
            Some(s) => Some(s.as_str()),
            None => None,
        };
        match plan_solidity_build(
            &flags.solang_args,
            source,
            source_exists,
            flags.output_meta.as_str(),
            flags.output_dir.as_str(),
            project_root,
            flags.release,
        ) {
            Ok(p) => Ok(Invocation::Solidity(p)),
            Err(e) => Err(e),
        }
    }
}

} // verus!
