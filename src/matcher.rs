//! Compiled regular expressions, built and run by the `regex` crate, each
//! kept together with the source text it was compiled from.
use vstd::prelude::*;

verus! {

#[verifier::external_type_specification]
#[verifier::external_body]
pub struct ExRegex(regex::Regex);

#[verifier::external_type_specification]
#[verifier::external_body]
pub struct ExRegexError(regex::Error);

/// Relies on `Clone` for `regex::Regex`, which `Matcher::clone` calls. The
/// copy is kept beside a copy of the same source, so nothing is claimed here.
pub assume_specification[ <regex::Regex as Clone>::clone ](_0: &regex::Regex) -> regex::Regex;

/// Whether `regex` compiles the source text.
pub uninterp spec fn regex_accepts(source: Seq<char>) -> bool;

/// Whether the regex compiled from `source` matches `text`.
pub uninterp spec fn regex_matches(source: Seq<char>, text: Seq<char>) -> bool;

/// The characters that have a meaning in regex syntax.
pub open spec fn is_meta_character(c: char) -> bool {
    c == '\\' || c == '.' || c == '+' || c == '*' || c == '?' || c == '(' || c == ')' || c
        == '|' || c == '[' || c == ']' || c == '{' || c == '}' || c == '^' || c == '$' || c
        == '#' || c == '&' || c == '-' || c == '~'
}

/// The text with a backslash put before each meta character.
pub open spec fn escaped(s: Seq<char>) -> Seq<char>
    decreases s.len(),
{
    if s.len() == 0 {
        Seq::empty()
    } else {
        let head = if is_meta_character(s[0]) {
            seq!['\\', s[0]]
        } else {
            seq![s[0]]
        };
        head + escaped(s.drop_first())
    }
}

/// Relies on `regex::escape`: each meta character gets a backslash before it.
#[verifier::external_body]
pub(crate) fn escape(s: &str) -> (r: String)
    ensures
        r@ == escaped(s@),
{
    regex::escape(s)
}

/// Relies on `regex::Regex::new`: it compiles the source or reports an error.
#[verifier::external_body]
fn new_regex(source: &str) -> (r: Result<regex::Regex, regex::Error>)
    ensures
        r is Ok <==> regex_accepts(source@),
{
    regex::Regex::new(source)
}

/// A regex together with its source text. The fields are private to this
/// module and `compile` is the only way to build one, so the regex is always
/// the one compiled from the source.
#[derive(Debug)]
pub struct Matcher {
    source: String,
    regex: regex::Regex,
}

impl View for Matcher {
    type V = Seq<char>;

    closed spec fn view(&self) -> Seq<char> {
        self.source@
    }
}

impl Clone for Matcher {
    fn clone(&self) -> (r: Self)
        ensures
            r@ == self@,
    {
        Matcher { source: self.source.clone(), regex: self.regex.clone() }
    }
}

impl Matcher {
    /// Compiles `source`.
    pub fn compile(source: &str) -> (r: Result<Matcher, regex::Error>)
        ensures
            r is Ok <==> regex_accepts(source@),
            r matches Ok(m) ==> m@ == source@,
    {
        match new_regex(source) {
            Ok(regex) => Ok(Matcher { source: source.to_string(), regex }),
            Err(e) => Err(e),
        }
    }

    /// Whether the text matches the whole regex or part of it, as the regex
    /// says (anchors included).
    pub fn is_match(&self, text: &str) -> (r: bool)
        ensures
            r == regex_matches(self@, text@),
    {
        regex_is_match(self, text)
    }
}

/// Relies on `regex::Regex::is_match`: the answer depends on the regex's
/// source and the text alone.
#[verifier::external_body]
fn regex_is_match(m: &Matcher, text: &str) -> (r: bool)
    ensures
        r == regex_matches(m.source@, text@),
{
    m.regex.is_match(text)
}

} // verus!
