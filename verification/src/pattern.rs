//! Compiled matchers: a regular expression for the rewriting itself and a
//! glob for selecting file paths. Both engines come from outside crates;
//! their results are named by uninterpreted spec functions, and everything
//! the library proves about substitution and selection is stated over those
//! names.
use vstd::prelude::*;

verus! {

#[verifier::external_type_specification]
#[verifier::external_body]
pub struct ExRegex(regex::Regex);

#[verifier::external_type_specification]
#[verifier::external_body]
pub struct ExGlob(glob::Pattern);

/// Whether `pattern` is a regular expression that the engine accepts:
/// what `regex::Regex::new` decides, a function of the pattern alone.
pub uninterp spec fn regex_valid(pattern: Seq<char>) -> bool;

/// The text that replacing every non-overlapping match of `pattern` in
/// `content` with the template `replacement` (capture-group references
/// expanded) produces: what `regex::Regex::replace_all` returns, a function
/// of the three strings alone.
pub uninterp spec fn replaced(
    pattern: Seq<char>,
    replacement: Seq<char>,
    content: Seq<char>,
) -> Seq<char>;

/// Whether `pattern` is a glob that the engine accepts: what
/// `glob::Pattern::new` decides, a function of the pattern alone.
pub uninterp spec fn glob_valid(pattern: Seq<char>) -> bool;

/// Whether `path` satisfies the glob `pattern` under the default match
/// options: what `glob::Pattern::matches` decides, a function of the two
/// strings alone.
pub uninterp spec fn glob_accepts(pattern: Seq<char>, path: Seq<char>) -> bool;

/// A compiled regular expression together with the source it was compiled
/// from, so that contracts can speak of the source string.
pub struct Matcher {
    re: regex::Regex,
    source: String,
}

impl Matcher {
    /// The pattern this matcher was compiled from.
    pub closed spec fn pattern(&self) -> Seq<char> {
        self.source@
    }

    /// Relies on `regex::Regex::new`: it returns `Ok` exactly on the
    /// patterns the engine accepts, and compilation of one pattern always
    /// decides the same way.
    #[verifier::external_body]
    pub fn compile(pattern: &str) -> (r: Option<Matcher>)
        ensures
            r is Some <==> regex_valid(pattern@),
            r is Some ==> r->0.pattern() == pattern@,
    {
        match regex::Regex::new(pattern) {
            Ok(re) => Some(Matcher { re, source: pattern.to_string() }),
            Err(_) => None,
        }
    }

    /// Relies on `regex::Regex::replace_all` with a `&str` replacement: it
    /// replaces every non-overlapping match and depends only on the pattern,
    /// the replacement template and the haystack.
    #[verifier::external_body]
    pub fn replace_all(&self, content: &str, replacement: &str) -> (r: String)
        ensures
            r@ == replaced(self.pattern(), replacement@, content@),
    {
        self.re.replace_all(content, replacement).into_owned()
    }
}

/// A compiled glob together with the source it was compiled from.
pub struct GlobMatcher {
    pat: glob::Pattern,
    source: String,
}

impl GlobMatcher {
    /// The glob this matcher was compiled from.
    pub closed spec fn pattern(&self) -> Seq<char> {
        self.source@
    }

    /// Relies on `glob::Pattern::new`: it returns `Ok` exactly on the
    /// globs the engine accepts, and compilation of one glob always decides
    /// the same way.
    #[verifier::external_body]
    pub fn compile(pattern: &str) -> (r: Option<GlobMatcher>)
        ensures
            r is Some <==> glob_valid(pattern@),
            r is Some ==> r->0.pattern() == pattern@,
    {
        match glob::Pattern::new(pattern) {
            Ok(pat) => Some(GlobMatcher { pat, source: pattern.to_string() }),
            Err(_) => None,
        }
    }

    /// Relies on `glob::Pattern::matches`: under the default match options
    /// it depends only on the glob and the tested string.
    #[verifier::external_body]
    pub fn matches(&self, path: &str) -> (r: bool)
        ensures
            r == glob_accepts(self.pattern(), path@),
    {
        self.pat.matches(path)
    }
}

} // verus!
