use vstd::prelude::*;
use vstd::string::*;

verus! {

/// The tokens joined with single spaces, in order. An empty token still takes
/// its place between two separators.
pub open spec fn join_spaces(tokens: Seq<Seq<char>>) -> Seq<char>
    decreases tokens.len(),
{
    if tokens.len() == 0 {
        seq![]
    } else if tokens.len() == 1 {
        tokens[0]
    } else {
        join_spaces(tokens.drop_last()) + seq![' '] + tokens.last()
    }
}

/// What each string of a vector holds.
pub open spec fn token_views(v: Seq<String>) -> Seq<Seq<char>> {
    v.map_values(|t: String| t@)
}

/// The compiler's flags, each already rendered as one token: `--name value`
/// for a flag that was given, the empty string for one that was not.
#[derive(Clone, Debug)]
pub struct SolangArgs {
    pub emit: String,
    pub contract: String,
    pub no_constant_folding: String,
    pub no_strength_reduce: String,
    pub optimizer_level: String,
    pub no_dead_storage: String,
    pub target: String,
    pub address_length: String,
    pub no_vector_to_slice: String,
    pub no_cse: String,
    pub value_length: String,
    pub standard_json: String,
    pub verbose: String,
    pub output_dir: String,
    pub output_meta: String,
    pub import_path: String,
    pub import_map: String,
    pub no_log_api_return_codes: String,
    pub no_log_runtime_errors: String,
    pub no_print: String,
    pub release: String,
    pub solidity_filename: String,
}

impl SolangArgs {
    /// The flag tokens in the order in which the compiler receives them.
    pub open spec fn flag_tokens(&self) -> Seq<Seq<char>> {
        seq![
            self.emit@,
            self.contract@,
            self.no_constant_folding@,
            self.no_strength_reduce@,
            self.optimizer_level@,
            self.no_dead_storage@,
            self.target@,
            self.address_length@,
            self.no_vector_to_slice@,
            self.no_cse@,
            self.value_length@,
            self.standard_json@,
            self.verbose@,
            self.output_dir@,
            self.output_meta@,
            self.import_path@,
            self.import_map@,
            self.no_log_api_return_codes@,
            self.no_log_runtime_errors@,
            self.no_print@,
            self.release@,
            self.solidity_filename@,
        ]
    }

    /// The whole invocation: the binary, its `compile` subcommand, then the flags.
    pub open spec fn command_tokens_spec(&self) -> Seq<Seq<char>> {
        seq![seq!['s', 'o', 'l', 'a', 'n', 'g'], seq!['c', 'o', 'm', 'p', 'i', 'l', 'e']]
            + self.flag_tokens()
    }

    /// The shell command line that runs the compiler.
    pub open spec fn command_line_spec(&self) -> Seq<char> {
        join_spaces(self.command_tokens_spec())
    }

    /// The invocation as a list of tokens.
    pub fn command_tokens(&self) -> (r: Vec<String>)
        ensures
            token_views(r@) == self.command_tokens_spec(),
    {
        proof {
            reveal_strlit("solang");
            reveal_strlit("compile");
        }
        let r: Vec<String> = vec![
            String::from_str("solang"),
            String::from_str("compile"),
            self.emit.clone(),
            self.contract.clone(),
            self.no_constant_folding.clone(),
            self.no_strength_reduce.clone(),
            self.optimizer_level.clone(),
            self.no_dead_storage.clone(),
            self.target.clone(),
            self.address_length.clone(),
            self.no_vector_to_slice.clone(),
            self.no_cse.clone(),
            self.value_length.clone(),
            self.standard_json.clone(),
            self.verbose.clone(),
            self.output_dir.clone(),
            self.output_meta.clone(),
            self.import_path.clone(),
            self.import_map.clone(),
            self.no_log_api_return_codes.clone(),
            self.no_log_runtime_errors.clone(),
            self.no_print.clone(),
            self.release.clone(),
            self.solidity_filename.clone(),
        ];
        assert("solang"@ =~= seq!['s', 'o', 'l', 'a', 'n', 'g']);
        assert("compile"@ =~= seq!['c', 'o', 'm', 'p', 'i', 'l', 'e']);
        assert(token_views(r@) =~= self.command_tokens_spec());
        r
    }

    /// The shell command line that runs the compiler.
    pub fn command_line(&self) -> (r: String)
        ensures
            r@ == self.command_line_spec(),
    {
        let tokens = self.command_tokens();
        join_tokens(&tokens)
    }
}

/// Joins the tokens with single spaces.
pub fn join_tokens(tokens: &Vec<String>) -> (r: String)
    ensures
        r@ == join_spaces(token_views(tokens@)),
{
    let mut r = String::new();
    let mut i: usize = 0;
    while i < tokens.len()
        invariant
            i <= tokens@.len(),
            r@ == join_spaces(token_views(tokens@).take(i as int)),
        decreases tokens@.len() - i,
    {
        let ghost before = token_views(tokens@).take(i as int);
        let ghost after = token_views(tokens@).take(i + 1);
        let ghost prefix = r@;
        if i > 0 {
            r.append(" ");
        }
        r.append(tokens[i].as_str());
        proof {
            reveal_strlit(" ");
            assert(" "@ =~= seq![' ']);
            assert(after.drop_last() =~= before);
            assert(after.last() == tokens@[i as int]@);
            if i == 0 {
                assert(r@ =~= after[0]);
            } else {
                assert(r@ =~= prefix + seq![' '] + after.last());
            }
        }
        i = i + 1;
    }
    assert(token_views(tokens@).take(tokens@.len() as int) =~= token_views(tokens@));
    r
}

/// Where the compiler writes its output: the metadata directory if one was
/// given, else the output directory if one was given, else the project root.
pub open spec fn resolved_output_dir(output_meta: Seq<char>, output_dir: Seq<char>, project_root: Seq<char>) -> Seq<char> {
    if output_meta.len() > 0 {
        output_meta
    } else if output_dir.len() > 0 {
        output_dir
    } else {
        project_root
    }
}

/// Resolves the output directory; an empty string stands for a flag that was
/// not given.
pub fn resolve_output_dir(output_meta: &str, output_dir: &str, project_root: &str) -> (r: String)
    ensures
        r@ == resolved_output_dir(output_meta@, output_dir@, project_root@),
{
    if !output_meta.is_empty() {
        output_meta.to_owned()
    } else if !output_dir.is_empty() {
        output_dir.to_owned()
    } else {
        project_root.to_owned()
    }
}

/// Equal flags give the same command line, character for character.
pub proof fn lemma_command_line_deterministic(a: SolangArgs, b: SolangArgs)
    requires
        a.flag_tokens() == b.flag_tokens(),
    ensures
        a.command_line_spec() == b.command_line_spec(),
{
}

} // verus!
