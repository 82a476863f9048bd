use vstd::prelude::*;

verus! {

#[verifier::external_type_specification]
#[verifier::external_body]
pub struct ExRegex(regex::Regex);

#[verifier::external_type_specification]
#[verifier::external_body]
pub struct ExRegexError(regex::Error);

/// Whether `regex::Regex::new` accepts the text as a pattern.
pub uninterp spec fn regex_compiles(pattern: Seq<char>) -> bool;

/// Whether the compiled pattern matches somewhere in the haystack.
pub uninterp spec fn regex_finds(pattern: Seq<char>, haystack: Seq<char>) -> bool;

/// A compiled regular expression, kept with the text it was compiled from.
///
/// Values are made only by `compile`, so `compiled` is always the result of
/// compiling `source`.
pub struct Pattern {
    source: String,
    compiled: regex::Regex,
}

impl View for Pattern {
    type V = Seq<char>;

    closed spec fn view(&self) -> Seq<char> {
        self.source@
    }
}

/// Relies on `regex::Regex::new`: it returns `Ok` exactly when the text is a
/// valid pattern within the default size limit, which depends on the text
/// alone.
#[verifier::external_body]
pub(crate) fn compile(source: &str) -> (r: Result<Pattern, regex::Error>)
    ensures
        r is Ok <==> regex_compiles(source@),
        r matches Ok(p) ==> p@ == source@,
{
    match regex::Regex::new(source) {
        Ok(compiled) => Ok(Pattern { source: source.to_string(), compiled }),
        Err(e) => Err(e),
    }
}

/// Relies on `regex::Regex::is_match`: whether the pattern matches anywhere
/// in the haystack, which depends on the pattern's text and the haystack
/// alone.
#[verifier::external_body]
pub(crate) fn is_match(pattern: &Pattern, haystack: &str) -> (r: bool)
    ensures
        r == regex_finds(pattern@, haystack@),
{
    pattern.compiled.is_match(haystack)
}

} // verus!
