use vstd::prelude::*;

use crate::logger::data_type::LogMessage;

verus! {

/// Specification of regex::Regex, a compiled pattern matcher; opaque here,
/// carried between compilation and matching.
#[verifier::external_type_specification]
#[verifier::external_body]
pub struct ExRegex(regex::Regex);

/// The pattern text a compiled regex was built from.
pub uninterp spec fn regex_pattern(re: regex::Regex) -> Seq<char>;

/// Whether the pattern text is a valid regex: a pure function of the
/// pattern, decided by the regex compiler.
pub uninterp spec fn regex_valid(pattern: Seq<char>) -> bool;

/// Whether the pattern matches somewhere in the text: a pure function of
/// pattern and text, computed by the regex engine.
pub uninterp spec fn regex_match(pattern: Seq<char>, text: Seq<char>) -> bool;

/// Relies on regex::Regex::new: compiles exactly the valid patterns, and
/// the compiled regex carries the pattern it was built from.
#[verifier::external_body]
fn regex_new(pattern: &str) -> (r: Option<regex::Regex>)
    ensures
        r is Some <==> regex_valid(pattern@),
        (match r {
            Some(re) => regex_pattern(re) == pattern@,
            None => true,
        }),
{
    regex::Regex::new(pattern).ok()
}

/// Relies on regex::Regex::is_match: a match depends on the compiled
/// pattern and the text alone.
#[verifier::external_body]
fn regex_is_match(re: &regex::Regex, text: &str) -> (r: bool)
    ensures
        r == regex_match(regex_pattern(*re), text@),
{
    re.is_match(text)
}

/// Filters messages by regex match, inspecting at most `analyze_count`
/// messages.
pub struct MessageRegexFilter {
    regex: regex::Regex,
    analyze_count: usize,
    analyzed: usize,
}

impl MessageRegexFilter {
    /// The pattern messages are matched against.
    pub closed spec fn pattern(&self) -> Seq<char> {
        regex_pattern(self.regex)
    }

    /// How many messages the filter may inspect in all.
    pub closed spec fn analyze_limit(&self) -> int {
        self.analyze_count as int
    }

    /// How many messages the filter has inspected.
    pub closed spec fn analyzed(&self) -> int {
        self.analyzed as int
    }

    /// A message matches when the pattern matches somewhere in its text.
    pub open spec fn matches(&self, log_message: LogMessage) -> bool {
        regex_match(self.pattern(), log_message.message@)
    }

    /// A filter for messages matching `regex_text`; fails exactly when the
    /// pattern does not compile.
    pub fn create(analyze_count: usize, regex_text: &str) -> (r: Result<
        MessageRegexFilter,
        &'static str,
    >)
        ensures
            r is Ok <==> regex_valid(regex_text@),
            (match r {
                Ok(f) => {
                    &&& f.pattern() == regex_text@
                    &&& f.analyze_limit() == analyze_count
                    &&& f.analyzed() == 0
                },
                Err(_) => true,
            }),
    {
        match regex_new(regex_text) {
            Some(regex) => Ok(MessageRegexFilter { analyze_count, regex, analyzed: 0 }),
            None => Err("Can not create regex filter"),
        }
    }

    /// Inspect one message, counting it against the analyze budget.
    pub fn check_match(&mut self, log_message: &LogMessage) -> (r: bool)
        ensures
            r == old(self).matches(*log_message),
            final(self).pattern() == old(self).pattern(),
            final(self).analyze_limit() == old(self).analyze_limit(),
            final(self).analyzed() == if old(self).analyzed() < usize::MAX {
                old(self).analyzed() + 1
            } else {
                old(self).analyzed()
            },
    {
        if self.analyzed < usize::MAX {
            self.analyzed = self.analyzed + 1;
        }
        regex_is_match(&self.regex, log_message.message.as_str())
    }

    /// Whether the analyze budget is spent.
    pub fn is_stop(&self) -> (r: bool)
        ensures
            r == (self.analyzed() >= self.analyze_limit()),
    {
        self.analyzed >= self.analyze_count
    }
}

} // verus!
