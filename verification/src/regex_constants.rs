//! The phone number pattern, compiled once and applied to request fields.
use vstd::prelude::*;
use vstd::string::*;

verus! {

/// The pattern of a phone number: a digit 1 to 9, then ten digits.
pub const PHONE_PATTERN: &'static str = "^[1-9]\\d{10}$";

/// `regex::Regex::new` accepts the pattern.
pub uninterp spec fn regex_pattern_valid(pattern: Seq<char>) -> bool;

/// A regex compiled from `pattern` matches somewhere in `text` (`Regex::is_match`).
pub uninterp spec fn regex_accepts(pattern: Seq<char>, text: Seq<char>) -> bool;

#[verifier::external_type_specification]
#[verifier::external_body]
pub struct ExRegex(regex::Regex);

#[verifier::external_type_specification]
#[verifier::external_body]
pub struct ExRegexError(regex::Error);

/// Trusted: `regex::Regex::new` compiles a pattern; whether it succeeds depends
/// on the pattern alone and is named `regex_pattern_valid`.
#[verifier::external_body]
fn compile_regex(pattern: &str) -> (r: Result<regex::Regex, regex::Error>)
    ensures
        r is Ok <==> regex_pattern_valid(pattern@),
{
    regex::Regex::new(pattern)
}

/// Trusted: `Regex::is_match` on the rule's compiled regex. A `PhoneRule` is
/// built only by `PhoneRule::new`, which compiles the regex from the rule's
/// pattern, so the answer depends on that pattern and the text alone; it is
/// named `regex_accepts`.
#[verifier::external_body]
fn rule_is_match(rule: &PhoneRule, text: &str) -> (b: bool)
    ensures
        b == regex_accepts(rule.pattern(), text@),
{
    rule.regex.is_match(text)
}

/// The pattern does not compile.
#[derive(Debug, Clone, Copy, PartialEq, Eq, Structural)]
pub struct InvalidPattern;

/// The phone pattern together with its compiled regex.
pub struct PhoneRule {
    pattern: String,
    regex: regex::Regex,
}

impl PhoneRule {
    /// The pattern the rule was compiled from.
    pub closed spec fn pattern(&self) -> Seq<char> {
        self.pattern@
    }

    /// Compiles `PHONE_PATTERN`.
    pub fn new() -> (r: Result<PhoneRule, InvalidPattern>)
        ensures
            r is Ok <==> regex_pattern_valid(PHONE_PATTERN@),
            r matches Ok(rule) ==> rule.pattern() == PHONE_PATTERN@,
    {
        match compile_regex(PHONE_PATTERN) {
            Ok(regex) => Ok(PhoneRule { pattern: String::from_str(PHONE_PATTERN), regex }),
            Err(_) => Err(InvalidPattern),
        }
    }

    /// Whether the pattern matches in `text`.
    pub fn matches(&self, text: &str) -> (b: bool)
        ensures
            b == regex_accepts(self.pattern(), text@),
    {
        rule_is_match(self, text)
    }
}

} // verus!
