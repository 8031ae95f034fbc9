use vstd::prelude::*;

use crate::logger::data_type::LogMessage;

verus! {

/// What lowercasing a string yields: a pure function of the characters,
/// computed by the standard library's Unicode tables.
pub uninterp spec fn lower_of(s: Seq<char>) -> Seq<char>;

/// `needle` occurs contiguously somewhere in `hay`.
pub open spec fn seq_contains(hay: Seq<char>, needle: Seq<char>) -> bool {
    exists|i: int|
        0 <= i <= hay.len() - needle.len() && #[trigger] hay.subrange(i, i + needle.len() as int)
            == needle
}

/// Relies on str::to_lowercase: the result depends on the characters alone.
#[verifier::external_body]
fn to_lowercase_string(s: &str) -> (r: String)
    ensures
        r@ == lower_of(s@),
{
    s.to_lowercase()
}

/// Relies on str::contains with a string pattern: substring containment
/// over the characters.
#[verifier::external_body]
fn str_contains(hay: &str, needle: &str) -> (r: bool)
    ensures
        r == seq_contains(hay@, needle@),
{
    hay.contains(needle)
}

/// Filters messages by case-insensitive substring containment, inspecting
/// at most `analyze_count` messages.
pub struct MessageContainsFilter {
    contains_text: String,
    analyze_count: usize,
    analyzed: usize,
}

impl MessageContainsFilter {
    /// The lowercased text a message must contain.
    pub closed spec fn needle(&self) -> Seq<char> {
        self.contains_text@
    }

    /// How many messages the filter may inspect in all.
    pub closed spec fn analyze_limit(&self) -> int {
        self.analyze_count as int
    }

    /// How many messages the filter has inspected.
    pub closed spec fn analyzed(&self) -> int {
        self.analyzed as int
    }

    /// A message matches when its lowercased text contains the needle.
    pub open spec fn matches(&self, log_message: LogMessage) -> bool {
        seq_contains(lower_of(log_message.message@), self.needle())
    }

    /// A filter for messages containing `contains_text`, case-insensitively.
    pub fn create(analyze_count: usize, contains_text: &str) -> (r: Result<
        MessageContainsFilter,
        &'static str,
    >)
        ensures
            r is Ok,
            (match r {
                Ok(f) => {
                    &&& f.needle() == lower_of(contains_text@)
                    &&& f.analyze_limit() == analyze_count
                    &&& f.analyzed() == 0
                },
                Err(_) => false,
            }),
    {
        Ok(
            MessageContainsFilter {
                analyze_count,
                contains_text: to_lowercase_string(contains_text),
                analyzed: 0,
            },
        )
    }

    /// Inspect one message, counting it against the analyze budget.
    pub fn check_match(&mut self, log_message: &LogMessage) -> (r: bool)
        ensures
            r == old(self).matches(*log_message),
            final(self).needle() == old(self).needle(),
            final(self).analyze_limit() == old(self).analyze_limit(),
            final(self).analyzed() == if old(self).analyzed() < usize::MAX {
                old(self).analyzed() + 1
            } else {
                old(self).analyzed()
            },
    {
        if self.analyzed < usize::MAX {
            self.analyzed = self.analyzed + 1;
        }
        str_contains(to_lowercase_string(log_message.message.as_str()).as_str(), self.contains_text.as_str())
    }

    /// Whether the analyze budget is spent.
    pub fn is_stop(&self) -> (r: bool)
        ensures
            r == (self.analyzed() >= self.analyze_limit()),
    {
        self.analyzed >= self.analyze_count
    }
}

} // verus!
