//! The pattern filter's engine: extended regular expressions (lookaround,
//! backreferences) from the `fancy_regex` crate, behind narrow trusted
//! contracts. Compilation and matching are deterministic in the pattern and
//! the text — the engine runs a backtracking machine with fixed default
//! limits — so whether a pattern compiles, whether the engine answers for a
//! text, and what it answers are each named as functions of those alone;
//! nothing else is assumed of it.

use vstd::prelude::*;

verus! {

#[verifier::external_type_specification]
#[verifier::external_body]
pub struct ExRegex(fancy_regex::Regex);

/// Whether `fancy_regex::Regex::new` accepts a pattern: a function of the
/// pattern text alone.
pub uninterp spec fn pattern_compiles(pattern: Seq<char>) -> bool;

/// What `fancy_regex::Regex::is_match` answers for a pattern and a text: a
/// function of the two alone.
pub uninterp spec fn pattern_matches(pattern: Seq<char>, text: Seq<char>) -> bool;

/// Whether `fancy_regex::Regex::is_match` answers at all for a pattern and
/// a text, rather than giving up (its backtracking limit is a fixed
/// default, so this too is a function of the two alone).
pub uninterp spec fn pattern_match_answers(pattern: Seq<char>, text: Seq<char>) -> bool;

/// A compiled selection pattern, remembering the text it was compiled from.
pub struct CompiledPattern {
    regex: fancy_regex::Regex,
    text: Ghost<Seq<char>>,
}

impl CompiledPattern {
    /// The pattern text this value was compiled from.
    pub closed spec fn pattern(&self) -> Seq<char> {
        self.text@
    }

    /// Compiles a pattern, keeping the pattern text alongside the engine's
    /// regex.
    pub fn compile(pattern: &str) -> (r: Option<CompiledPattern>)
        ensures
            r is Some <==> pattern_compiles(pattern@),
            r matches Some(c) ==> c.pattern() == pattern@,
    {
        match regex_new(pattern) {
            Some(regex) => Some(CompiledPattern { regex, text: Ghost(pattern@) }),
            None => None,
        }
    }

    /// Relies on `fancy_regex::Regex::is_match`: whether the engine answers
    /// for a pattern and a text, and what it answers, are functions of the
    /// two alone. When it gives up instead, its error's description is
    /// handed out; nothing is assumed about that text.
    #[verifier::external_body]
    pub fn is_match(&self, text: &str) -> (r: Result<bool, String>)
        ensures
            r is Ok <==> pattern_match_answers(self.pattern(), text@),
            r matches Ok(b) ==> b == pattern_matches(self.pattern(), text@),
    {
        match self.regex.is_match(text) {
            Ok(b) => Ok(b),
            Err(e) => Err(e.to_string()),
        }
    }
}

/// Relies on `fancy_regex::Regex::new`: compiling succeeds or fails on the
/// pattern text alone.
#[verifier::external_body]
fn regex_new(pattern: &str) -> (r: Option<fancy_regex::Regex>)
    ensures
        r is Some <==> pattern_compiles(pattern@),
{
    fancy_regex::Regex::new(pattern).ok()
}

} // verus!
