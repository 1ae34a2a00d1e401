//! Regular expressions, as the `regex` crate compiles and applies them.
use vstd::prelude::*;
use regex::Regex;

verus! {

/// `regex::Regex`, a compiled regular expression. Nothing is known of what
/// is inside.
#[verifier::external_type_specification]
#[verifier::external_body]
pub struct ExRegex(regex::Regex);

/// `regex::Error`, the reason why a pattern was refused. Nothing is known of
/// what is inside.
#[verifier::external_type_specification]
#[verifier::external_body]
pub struct ExRegexError(regex::Error);

/// Whether `Regex::new` accepts `pattern` as a regular expression.
pub uninterp spec fn regex_compiles(pattern: Seq<char>) -> bool;

/// What `Regex::replace_all` makes of `text` for the expression compiled
/// from `pattern`: every match is replaced by `replacement`, the matches
/// being taken from the left and not overlapping, and `$name` in the
/// replacement standing for what the group `name` matched.
pub uninterp spec fn regex_replaced(
    pattern: Seq<char>,
    text: Seq<char>,
    replacement: Seq<char>,
) -> Seq<char>;

/// A regular expression that compiled, together with the text that it was
/// compiled from. Only [`Pattern::compile`] makes one, so that the
/// expression always is what `Regex::new` made of that text.
pub struct Pattern {
    source: String,
    compiled: Regex,
}

impl Pattern {
    /// The text that the expression was compiled from.
    pub closed spec fn source(&self) -> Seq<char> {
        self.source@
    }

    /// `Regex::new`: compiles `source`. Whether that succeeds depends on
    /// `source` alone; the expression that comes back is kept beside a copy
    /// of `source`.
    #[verifier::external_body]
    pub(crate) fn compile(source: &str) -> (compiled: Result<Pattern, regex::Error>)
        ensures
            compiled is Ok == regex_compiles(source@),
            compiled matches Ok(pattern) ==> pattern.source() == source@,
    {
        let compiled = Regex::new(source)?;
        Ok(Pattern { source: source.to_owned(), compiled })
    }

    /// `Regex::replace_all`: `text` with every match of the expression
    /// replaced by `replacement`. The result depends on the expression's
    /// source, on `text` and on `replacement` alone.
    #[verifier::external_body]
    pub(crate) fn replace_all(&self, text: &str, replacement: &str) -> (replaced: String)
        ensures
            replaced@ == regex_replaced(self.source(), text@, replacement@),
    {
        self.compiled.replace_all(text, replacement).into_owned()
    }
}

/// The `Display` form of a `regex::Error`: what the crate says of a pattern
/// that it refused.
#[verifier::external_body]
pub(crate) fn refusal(error: &regex::Error) -> (text: String) {
    error.to_string()
}

} // verus!
