//! Glob patterns, compiled with the glob crate and kept with their text.
use vstd::prelude::*;

verus! {

#[verifier::external_type_specification]
#[verifier::external_body]
pub struct ExPattern(glob::Pattern);

#[verifier::external_type_specification]
#[verifier::external_body]
pub struct ExPatternError(glob::PatternError);

/// Whether glob's `Pattern::new` accepts a pattern.
pub uninterp spec fn spec_glob_valid(pattern: Seq<char>) -> bool;

/// Whether a text matches a glob pattern, as glob's `Pattern::matches` decides
/// it with the default options.
pub uninterp spec fn spec_glob_matches(pattern: Seq<char>, text: Seq<char>) -> bool;

/// A glob pattern with the text it was compiled from.  Its fields are set
/// only by `compile_glob` and `copy_glob`, which pair a compiled pattern with
/// the text it was compiled from.
#[derive(Debug)]
pub struct GlobPattern {
    source: String,
    compiled: glob::Pattern,
}

impl View for GlobPattern {
    type V = Seq<char>;

    closed spec fn view(&self) -> Seq<char> {
        self.source@
    }
}

/// Compiles a pattern with glob's `Pattern::new` and keeps it with its text;
/// the result is `Ok` exactly when glob accepts the pattern.
#[verifier::external_body]
fn compile_glob(pattern: &str) -> (r: Result<GlobPattern, glob::PatternError>)
    ensures
        r is Ok <==> spec_glob_valid(pattern@),
        r matches Ok(p) ==> p@ == pattern@,
{
    match glob::Pattern::new(pattern) {
        Ok(compiled) => Ok(GlobPattern { source: pattern.to_owned(), compiled }),
        Err(e) => Err(e),
    }
}

/// Copies a pattern and its text with `Pattern::clone` and `String::clone`.
#[verifier::external_body]
fn copy_glob(pattern: &GlobPattern) -> (r: GlobPattern)
    ensures
        r@ == pattern@,
{
    GlobPattern { source: pattern.source.clone(), compiled: pattern.compiled.clone() }
}

/// Tests a text with glob's `Pattern::matches` on the compiled form of the
/// pattern, which `compile_glob` and `copy_glob` keep paired with its text.
#[verifier::external_body]
fn glob_matches(pattern: &GlobPattern, text: &str) -> (r: bool)
    ensures
        r == spec_glob_matches(pattern@, text@),
{
    pattern.compiled.matches(text)
}

impl GlobPattern {
    /// Compiles a glob pattern.
    pub fn new(pattern: &str) -> (r: Result<GlobPattern, glob::PatternError>)
        ensures
            r is Ok <==> spec_glob_valid(pattern@),
            r matches Ok(p) ==> p@ == pattern@,
    {
        compile_glob(pattern)
    }

    /// Whether a text matches the pattern.
    pub fn matches(&self, text: &str) -> (r: bool)
        ensures
            r == spec_glob_matches(self@, text@),
    {
        glob_matches(self, text)
    }

    /// The text the pattern was compiled from.
    pub fn as_str(&self) -> (r: &str)
        ensures
            r@ == self@,
    {
        self.source.as_str()
    }
}

impl Clone for GlobPattern {
    fn clone(&self) -> (r: Self)
        ensures
            r@ == self@,
    {
        copy_glob(self)
    }
}

} // verus!
