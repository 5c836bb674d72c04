use vstd::prelude::*;

use crate::error::BuildError;

verus! {

/// How a contract is built: with or without optimisations.
#[derive(Clone, Copy, Debug, PartialEq, Eq, Structural)]
pub enum BuildMode {
    Debug,
    Release,
}

/// How much the build prints.
#[derive(Clone, Copy, Debug, PartialEq, Eq, Structural)]
pub enum Verbosity {
    Quiet,
    Default,
    Verbose,
}

/// The options handed to the native build pipeline.
#[derive(Clone, Copy, Debug, PartialEq, Eq, Structural)]
pub struct NativeOptions {
    pub build_mode: BuildMode,
    pub verbosity: Verbosity,
    pub output_json: bool,
}

/// The build mode that the `--release` switch stands for.
pub open spec fn mode_for(release: bool) -> BuildMode {
    if release {
        BuildMode::Release
    } else {
        BuildMode::Debug
    }
}

/// The build mode selected by the `--release` switch.
pub fn build_mode_of(release: bool) -> (r: BuildMode)
    ensures
        r == mode_for(release),
{
    if release {
        BuildMode::Release
    } else {
        BuildMode::Debug
    }
}

/// The verbosity chosen by `--quiet` and `--verbose`; giving both is an error.
pub fn verbosity_of(quiet: bool, verbose: bool) -> (r: Result<Verbosity, BuildError>)
    ensures
        (quiet && verbose) <==> r is Err,
        r is Err ==> r->Err_0 is ConflictingVerbosity,
        (quiet && !verbose) ==> r == Ok::<Verbosity, BuildError>(Verbosity::Quiet),
        (!quiet && verbose) ==> r == Ok::<Verbosity, BuildError>(Verbosity::Verbose),
        (!quiet && !verbose) ==> r == Ok::<Verbosity, BuildError>(Verbosity::Default),
{
    if quiet && verbose {
        Err(BuildError::ConflictingVerbosity)
    } else if quiet {
        Ok(Verbosity::Quiet)
    } else if verbose {
        Ok(Verbosity::Verbose)
    } else {
        Ok(Verbosity::Default)
    }
}

/// The verbosity in effect: JSON output forces quiet, so that standard output
/// holds only the structured result.
pub fn effective_verbosity(output_json: bool, requested: Verbosity) -> (r: Verbosity)
    ensures
        r == (if output_json { Verbosity::Quiet } else { requested }),
{
    if output_json {
        Verbosity::Quiet
    } else {
        requested
    }
}

/// The options record for switches that do not conflict.
pub open spec fn native_options_spec(release: bool, output_json: bool, quiet: bool, verbose: bool) -> NativeOptions {
    NativeOptions {
        build_mode: mode_for(release),
        verbosity: if output_json {
            Verbosity::Quiet
        } else if quiet {
            Verbosity::Quiet
        } else if verbose {
            Verbosity::Verbose
        } else {
            Verbosity::Default
        },
        output_json,
    }
}

/// The options record for the native pipeline built from the user's switches.
pub fn native_options(release: bool, output_json: bool, quiet: bool, verbose: bool) -> (r: Result<NativeOptions, BuildError>)
    ensures
        r is Err <==> (quiet && verbose),
        r is Err ==> r->Err_0 is ConflictingVerbosity,
        r is Ok ==> r->Ok_0 == native_options_spec(release, output_json, quiet, verbose),
{
    let requested = match verbosity_of(quiet, verbose) {
        Ok(v) => v,
        Err(e) => {
            return Err(e);
        },
    };
    Ok(NativeOptions {
        build_mode: build_mode_of(release),
        verbosity: effective_verbosity(output_json, requested),
        output_json,
    })
}

/// With JSON output the verbosity is quiet, whatever verbosity was asked for.
pub proof fn lemma_json_output_is_quiet(release: bool, quiet: bool, verbose: bool)
    ensures
        native_options_spec(release, true, quiet, verbose).verbosity == Verbosity::Quiet,
{
}

/// The native pipeline builds in release mode exactly when `--release` was given.
pub proof fn lemma_release_iff_flag(release: bool, output_json: bool, quiet: bool, verbose: bool)
    ensures
        native_options_spec(release, output_json, quiet, verbose).build_mode == BuildMode::Release
            <==> release,
{
}

} // verus!
