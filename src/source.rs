use vstd::prelude::*;
use vstd::string::*;

use crate::error::BuildError;

verus! {

/// The path names a file with the `.sol` extension: it ends in `.sol` after a
/// non-empty file stem.
pub open spec fn has_sol_extension(p: Seq<char>) -> bool {
    &&& p.len() > 4
    &&& p[p.len() - 5] != '/'
    &&& p.subrange(p.len() - 4, p.len() as int) == seq!['.', 's', 'o', 'l']
}

/// Whether `path` carries the Solidity source extension.
pub fn is_solidity_path(path: &str) -> (r: bool)
    ensures
        r == has_sol_extension(path@),
{
    let n = path.unicode_len();
    if n <= 4 {
        return false;
    }
    let stem_end = path.get_char(n - 5);
    let c1 = path.get_char(n - 4);
    let c2 = path.get_char(n - 3);
    let c3 = path.get_char(n - 2);
    let c4 = path.get_char(n - 1);
    let r = stem_end != '/' && c1 == '.' && c2 == 's' && c3 == 'o' && c4 == 'l';
    proof {
        let tail = path@.subrange(n - 4, n as int);
        if c1 == '.' && c2 == 's' && c3 == 'o' && c4 == 'l' {
            assert(tail =~= seq!['.', 's', 'o', 'l']);
        }
        if tail == seq!['.', 's', 'o', 'l'] {
            assert(tail[0] == '.' && tail[1] == 's' && tail[2] == 'o' && tail[3] == 'l');
        }
    }
    r
}

/// Checks the Solidity source file named on the command line. `exists` tells
/// whether the canonicalised path names an existing file.
pub fn check_source(filename: Option<&str>, exists: bool) -> (r: Result<(), BuildError>)
    ensures
        filename is None ==> r is Err && r->Err_0 is MissingSource,
        filename is Some ==> (r is Ok <==> exists && has_sol_extension(filename->Some_0@)),
        filename is Some && r is Err ==> r->Err_0 is BadSourcePath
            && r->Err_0->BadSourcePath_0@ == filename->Some_0@,
{
    match filename {
        None => Err(BuildError::MissingSource),
        Some(p) => {
            if exists && is_solidity_path(p) {
                Ok(())
            } else {
                Err(BuildError::BadSourcePath(p.to_owned()))
            }
        },
    }
}

/// A path ending in `.txt` or `.rs`, or one with no dot at all, is no
/// Solidity source path.
pub proof fn lemma_other_extensions_refused(p: Seq<char>)
    requires
        (p.len() >= 4 && p.subrange(p.len() - 4, p.len() as int) == seq!['.', 't', 'x', 't'])
            || (p.len() >= 3 && p.subrange(p.len() - 3, p.len() as int) == seq!['.', 'r', 's'])
            || (forall|i: int| 0 <= i < p.len() ==> p[i] != '.'),
    ensures
        !has_sol_extension(p),
{
    if has_sol_extension(p) {
        let tail = p.subrange(p.len() - 4, p.len() as int);
        assert(tail[3] == 'l');
        assert(p[p.len() - 1] == tail[3]);
        assert(p[p.len() - 4] == tail[0]);
        if p.len() >= 4 && p.subrange(p.len() - 4, p.len() as int) == seq!['.', 't', 'x', 't'] {
            assert(p.subrange(p.len() - 4, p.len() as int)[3] == 't');
        } else if p.len() >= 3 && p.subrange(p.len() - 3, p.len() as int) == seq!['.', 'r', 's'] {
            assert(p.subrange(p.len() - 3, p.len() as int)[2] == 's');
            assert(p[p.len() - 1] == p.subrange(p.len() - 3, p.len() as int)[2]);
        } else {
            assert(p[p.len() - 4] == '.');
        }
    }
}

} // verus!
