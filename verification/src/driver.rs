//! The driver's setup step: from the options of one invocation, compile the
//! pattern and the glob exactly once, decide between stream mode (the path
//! sentinel `-`) and tree mode, and hand back a plan — or the fatal error
//! that stops the run before any file is touched.
use vstd::prelude::*;
use crate::pattern::{Matcher, GlobMatcher, regex_valid, glob_valid};
use crate::select::Filters;

verus! {

/// The options of one invocation, as plain values.
pub struct Config {
    /// The regular expression to search for.
    pub pattern: String,
    /// The substitution template; may reference capture groups.
    pub replacement: String,
    /// The traversal root, a single file, or the sentinel `-`.
    pub path: String,
    /// An optional glob the full path must match.
    pub glob: Option<String>,
    /// Print transformed text instead of overwriting files.
    pub to_stdout: bool,
    /// Report per-file status and read errors.
    pub verbose: bool,
    /// Bound on traversal depth; negative means unbounded.
    pub max_depth: i32,
    /// Include entries whose name starts with a dot.
    pub include_hidden: bool,
}

/// Where the run's input comes from.
pub enum Mode {
    /// Read standard input once, write standard output once.
    Stream,
    /// Walk the tree under the configured path.
    Tree,
}

/// A fatal setup error: the run stops before any file is touched.
#[derive(Debug)]
pub enum SetupError {
    /// The pattern is not a regular expression the engine accepts.
    InvalidPattern,
    /// The supplied glob is not one the engine accepts.
    InvalidGlob,
}

/// Everything the run needs, compiled once and then only read.
pub struct Plan {
    /// Stream or tree mode.
    pub mode: Mode,
    /// The compiled pattern, shared by every worker.
    pub matcher: Matcher,
    /// The substitution template.
    pub replacement: String,
    /// The selection options, glob compiled.
    pub filters: Filters,
    /// Print instead of overwriting.
    pub to_stdout: bool,
    /// Report per-file status.
    pub verbose: bool,
}

/// The path value that selects stream mode.
pub open spec fn is_stream_spec(path: Seq<char>) -> bool {
    path == seq!['-']
}

/// Whether setup succeeds: the pattern must compile, and — in tree mode,
/// where it is used — a supplied glob must compile too.
pub open spec fn setup_ok(c: Config) -> bool {
    &&& regex_valid(c.pattern@)
    &&& !is_stream_spec(c.path@) ==> match c.glob {
        None => true,
        Some(g) => glob_valid(g@),
    }
}

/// Whether `path` is the stream sentinel `-`.
pub fn is_stream_path(path: &str) -> (b: bool)
    ensures
        b == is_stream_spec(path@),
{
    proof {
        reveal_strlit("-");
    }
    if path.unicode_len() == 1 {
        let c = path.get_char(0);
        proof {
            if c == '-' {
                assert(path@ =~= seq!['-']);
            }
        }
        c == '-'
    } else {
        false
    }
}

/// Compile the pattern and, when tree mode will need it, the glob; decide
/// the mode. Fails exactly when the pattern is invalid or a glob that would
/// be used is invalid, and reports which of the two it was; nothing is
/// compiled twice and no file is touched on the failing path.
pub fn setup(c: Config) -> (r: Result<Plan, SetupError>)
    ensures
        r is Ok <==> setup_ok(c),
        r is Err ==> (r->Err_0 is InvalidPattern <==> !regex_valid(c.pattern@)),
        r is Ok ==> {
            let p = r->Ok_0;
            &&& p.matcher.pattern() == c.pattern@
            &&& (p.mode is Stream <==> is_stream_spec(c.path@))
            &&& p.replacement == c.replacement
            &&& p.to_stdout == c.to_stdout
            &&& p.verbose == c.verbose
            &&& p.filters.max_depth == c.max_depth
            &&& p.filters.include_hidden == c.include_hidden
            &&& (p.mode is Tree ==> match c.glob {
                None => p.filters.glob is None,
                Some(g) => p.filters.glob is Some && p.filters.glob->0.pattern() == g@,
            })
        },
{
    let matcher = match Matcher::compile(c.pattern.as_str()) {
        Some(m) => m,
        None => {
            return Err(SetupError::InvalidPattern);
        },
    };
    if is_stream_path(c.path.as_str()) {
        return Ok(
            Plan {
                mode: Mode::Stream,
                matcher,
                replacement: c.replacement,
                filters: Filters {
                    glob: None,
                    max_depth: c.max_depth,
                    include_hidden: c.include_hidden,
                },
                to_stdout: c.to_stdout,
                verbose: c.verbose,
            },
        );
    }
    let glob = match c.glob {
        None => None,
        Some(g) => match GlobMatcher::compile(g.as_str()) {
            Some(gm) => Some(gm),
            None => {
                return Err(SetupError::InvalidGlob);
            },
        },
    };
    Ok(
        Plan {
            mode: Mode::Tree,
            matcher,
            replacement: c.replacement,
            filters: Filters {
                glob,
                max_depth: c.max_depth,
                include_hidden: c.include_hidden,
            },
            to_stdout: c.to_stdout,
            verbose: c.verbose,
        },
    )
}

} // verus!
