//! Text patterns: regular expressions compiled once and matched many times.
//! An empty pattern text stands for "anything" and is never compiled.

use regex::Regex;
use vstd::prelude::*;

verus! {

/// `regex::Regex`, a compiled expression: carried about, never looked into.
#[verifier::external_type_specification]
#[verifier::external_body]
pub struct ExRegex(regex::Regex);

/// `regex::Error`, the reason why a pattern text was not compiled.
#[verifier::external_type_specification]
#[verifier::external_body]
pub struct ExRegexError(regex::Error);

/// The pattern text that a compiled expression reports through
/// `Regex::as_str`.
pub uninterp spec fn regex_source(re: Regex) -> Seq<char>;

/// Whether `Regex::is_match` finds a match of the expression anywhere in
/// `text`.
pub uninterp spec fn regex_accepts(re: Regex, text: Seq<char>) -> bool;

/// Whether `Regex::new` accepts `pattern`: the text is a regular expression
/// and compiles within the limits that the crate sets where none are asked
/// for.
pub uninterp spec fn regex_compiles(pattern: Seq<char>) -> bool;

/// Calls `Regex::new`, which gives an expression or an error and never
/// panics. A compiled expression keeps the pattern text it was built from.
#[verifier::external_body]
fn regex_new(pattern: &str) -> (r: Result<Regex, regex::Error>)
    ensures
        r is Ok <==> regex_compiles(pattern@),
        r matches Ok(re) ==> regex_source(re) == pattern@,
{
    Regex::new(pattern)
}

/// Calls `Regex::as_str`, the pattern text of a compiled expression.
#[verifier::external_body]
fn regex_as_str(re: &Regex) -> (s: &str)
    ensures
        s@ == regex_source(*re),
{
    re.as_str()
}

/// Calls `Regex::is_match`, an unanchored search of `text`.
#[verifier::external_body]
fn regex_is_match(re: &Regex, text: &str) -> (b: bool)
    ensures
        b == regex_accepts(*re, text@),
{
    re.is_match(text)
}

/// A pattern text was not accepted as a regular expression.
#[derive(Debug)]
pub struct InvalidPattern;

/// One pattern of a rule. `regex` is `None` exactly for the empty pattern
/// text.
#[derive(Debug)]
pub struct Pattern {
    regex: Option<Regex>,
}

impl View for Pattern {
    type V = Seq<char>;

    /// The pattern text.
    open spec fn view(&self) -> Seq<char> {
        match self.compiled() {
            None => Seq::empty(),
            Some(re) => regex_source(re),
        }
    }
}

/// Whether a pattern text makes a pattern: the empty text always does, any
/// other text where the regex engine compiles it.
pub open spec fn compiles(source: Seq<char>) -> bool {
    source.len() == 0 || regex_compiles(source)
}

impl Pattern {
    /// The expression that the pattern holds; none for the empty text.
    pub closed spec fn compiled(self) -> Option<Regex> {
        self.regex
    }

    /// No expression is held for the empty pattern text.
    #[verifier::type_invariant]
    pub open spec fn wf(self) -> bool {
        self.compiled() matches Some(re) ==> regex_source(re).len() > 0
    }

    /// Whether the pattern matches `text`: always for the empty pattern,
    /// else where the compiled expression finds a match anywhere in it.
    pub open spec fn accepts(self, text: Seq<char>) -> bool {
        match self.compiled() {
            None => true,
            Some(re) => regex_accepts(re, text),
        }
    }

    /// The pattern that matches every text.
    pub fn any() -> (p: Pattern)
        ensures
            p.compiled() is None,
    {
        Pattern { regex: None }
    }

    /// Turns the outcome of a compilation into a pattern. An expression
    /// compiled from the empty text is dropped: the pattern matches
    /// everything without it.
    pub fn from_compiled(outcome: Result<Regex, regex::Error>) -> (r: Result<
        Pattern,
        InvalidPattern,
    >)
        ensures
            match outcome {
                Ok(re) => r matches Ok(p) && p.compiled() == if regex_source(re).len() == 0 {
                    None
                } else {
                    Some(re)
                },
                Err(_) => r is Err,
            },
    {
        match outcome {
            Ok(re) => {
                if regex_as_str(&re).is_empty() {
                    Ok(Pattern { regex: None })
                } else {
                    Ok(Pattern { regex: Some(re) })
                }
            },
            Err(_) => Err(InvalidPattern),
        }
    }

    /// Compiles `source`. The empty text always gives a pattern, the one
    /// that matches everything; any other text gives one exactly where the
    /// regex engine compiles it, and that pattern holds the expression
    /// compiled from the text.
    pub fn new(source: &str) -> (r: Result<Pattern, InvalidPattern>)
        ensures
            r is Ok <==> compiles(source@),
            r matches Ok(p) ==> p.wf() && p@ == source@,
            r matches Ok(p) ==> (p.compiled() is None <==> source@.len() == 0),
    {
        if source.is_empty() {
            Ok(Pattern::any())
        } else {
            Pattern::from_compiled(regex_new(source))
        }
    }

    /// Searches `text` for a match, anywhere in it.
    pub fn matches(&self, text: &str) -> (b: bool)
        ensures
            b == self.accepts(text@),
    {
        match &self.regex {
            None => true,
            Some(re) => regex_is_match(re, text),
        }
    }

    /// The pattern text.
    pub fn source(&self) -> (s: String)
        ensures
            s@ == self@,
    {
        match &self.regex {
            None => String::new(),
            Some(re) => regex_as_str(re).to_owned(),
        }
    }
}

/// The empty pattern matches every text.
pub proof fn lemma_empty_pattern_accepts(p: Pattern, text: Seq<char>)
    requires
        p.wf(),
        p@.len() == 0,
    ensures
        p.accepts(text),
{
}

} // verus!
