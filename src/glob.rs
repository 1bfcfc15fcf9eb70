//! Shell-style wildcard matching through the `globset` crate.

use vstd::prelude::*;

verus! {

#[verifier::external_type_specification]
#[verifier::external_body]
pub struct ExGlobSet(globset::GlobSet);

#[verifier::external_type_specification]
#[verifier::external_body]
pub struct ExGlobError(globset::Error);

/// Whether `pattern` is a well-formed glob whose matcher can be built.
pub uninterp spec fn glob_compiles(pattern: Seq<char>) -> bool;

/// Whether the glob `pattern` matches `path`.
pub uninterp spec fn glob_matches(pattern: Seq<char>, path: Seq<char>) -> bool;

/// A compiled glob together with the pattern it was compiled from. The only
/// way to obtain one is `compile`, so `matcher` always belongs to `pattern`.
pub(crate) struct GlobFilter {
    pattern: String,
    matcher: globset::GlobSet,
}

impl View for GlobFilter {
    type V = Seq<char>;

    closed spec fn view(&self) -> Seq<char> {
        self.pattern@
    }
}

impl GlobFilter {
    /// Relies on `globset::Glob::new`, which fails on malformed patterns, and
    /// on `globset::GlobSetBuilder::build` for that one glob, which fails
    /// where its matcher would be too large (where `Glob::compile_matcher`
    /// would panic instead).
    #[verifier::external_body]
    pub(crate) fn compile(pattern: &str) -> (r: Result<GlobFilter, globset::Error>)
        ensures
            r is Ok <==> glob_compiles(pattern@),
            r matches Ok(f) ==> f@ == pattern@,
    {
        let glob = match globset::Glob::new(pattern) {
            Ok(g) => g,
            Err(e) => return Err(e),
        };
        match globset::GlobSetBuilder::new().add(glob).build() {
            Ok(set) => Ok(GlobFilter { pattern: pattern.to_owned(), matcher: set }),
            Err(e) => Err(e),
        }
    }

    /// Relies on `globset::GlobSet::is_match` over the single compiled glob:
    /// whether the pattern matches `path`.
    #[verifier::external_body]
    pub(crate) fn is_match(&self, path: &str) -> (r: bool)
        ensures
            r == glob_matches(self@, path@),
    {
        self.matcher.is_match(path)
    }
}

} // verus!
