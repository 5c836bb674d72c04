use vstd::prelude::*;

verus! {

/// Why a build request was refused or failed.
#[derive(Clone, Debug)]
pub enum BuildError {
    /// Both `--quiet` and `--verbose` were given.
    ConflictingVerbosity,
    /// Solidity mode was selected without a source file.
    MissingSource,
    /// The source file does not exist or lacks the `.sol` extension; holds the path.
    BadSourcePath(String),
    /// The compiler process could not be started; holds the reason.
    Spawn(String),
    /// The compiler exited unsuccessfully; holds its exit code, if it had one.
    CompilerFailed(Option<i32>),
}

} // verus!
