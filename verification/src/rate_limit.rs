//! Upstream rate limits: how a refusal is classified and what callers are told.
use crate::text::{
    ascii_lower, ascii_lower_chars, contains_chars, occurs_at, occurs_in, parts_are_found,
};
use vstd::prelude::*;

verus! {

/// Why a credential is set aside for a while, as credential bookkeeping records it.
#[derive(Debug, Clone, Copy, PartialEq, Eq, Structural)]
pub enum RateLimitReason {
    Normal,
    Suspicious,
}

/// What kind of rate limit a refusal of the upstream service speaks of.
#[derive(Debug, Clone, Copy, PartialEq, Eq, Structural)]
pub enum UpstreamRateLimitKind {
    Normal,
    Suspicious,
}

/// The phrases that mark a refusal as one for suspicious activity.
pub open spec fn suspicious_phrases() -> Seq<Seq<char>> {
    seq!["suspicious activity"@, "temporary limits"@, "while we investigate"@]
}

/// `body` holds one of the suspicious phrases, whatever the case of its ASCII letters.
pub open spec fn is_suspicious(body: Seq<char>) -> bool {
    exists|i: int|
        0 <= i < suspicious_phrases().len() && occurs_in(
            ascii_lower(body),
            #[trigger] suspicious_phrases()[i],
        )
}

/// The kind of rate limit that `body` speaks of.
pub open spec fn kind_of_body(body: Seq<char>) -> UpstreamRateLimitKind {
    if is_suspicious(body) {
        UpstreamRateLimitKind::Suspicious
    } else {
        UpstreamRateLimitKind::Normal
    }
}

impl UpstreamRateLimitKind {
    /// The name of this kind in log lines.
    pub open spec fn label(self) -> Seq<char> {
        match self {
            UpstreamRateLimitKind::Normal => "normal"@,
            UpstreamRateLimitKind::Suspicious => "suspicious"@,
        }
    }

    /// The reason recorded for a credential that ran into this kind of limit.
    pub open spec fn recorded_reason(self) -> RateLimitReason {
        match self {
            UpstreamRateLimitKind::Normal => RateLimitReason::Normal,
            UpstreamRateLimitKind::Suspicious => RateLimitReason::Suspicious,
        }
    }

    /// The name of this kind in log lines.
    pub fn as_log_label(self) -> (label: &'static str)
        ensures
            label@ == self.label(),
    {
        match self {
            UpstreamRateLimitKind::Normal => "normal",
            UpstreamRateLimitKind::Suspicious => "suspicious",
        }
    }

    /// The reason recorded for a credential that ran into this kind of limit.
    pub fn reason(self) -> (reason: RateLimitReason)
        ensures
            reason == self.recorded_reason(),
    {
        match self {
            UpstreamRateLimitKind::Normal => RateLimitReason::Normal,
            UpstreamRateLimitKind::Suspicious => RateLimitReason::Suspicious,
        }
    }
}

/// Tells from the body of a rate limit refusal which kind of limit it is.
pub(crate) fn classify_body(body: &str) -> (kind: UpstreamRateLimitKind)
    ensures
        kind == kind_of_body(body@),
{
    let normalized = ascii_lower_chars(body);
    let ghost phrases = suspicious_phrases();
    let suspicious = contains_chars(&normalized, "suspicious activity") || contains_chars(
        &normalized,
        "temporary limits",
    ) || contains_chars(&normalized, "while we investigate");
    proof {
        assert(phrases.len() == 3);
        assert(phrases[0] == "suspicious activity"@);
        assert(phrases[1] == "temporary limits"@);
        assert(phrases[2] == "while we investigate"@);
        assert(suspicious == is_suspicious(body@));
    }
    if suspicious {
        UpstreamRateLimitKind::Suspicious
    } else {
        UpstreamRateLimitKind::Normal
    }
}

/// What a [`RateLimitError`] says: its message and when to try again.
pub struct RateLimitErrorView {
    pub message: Seq<char>,
    pub retry_after_seconds: Option<u64>,
}

/// The error for a request that upstream rate limits kept from being served.
#[derive(Debug)]
pub struct RateLimitError {
    message: String,
    retry_after_seconds: Option<u64>,
}

impl View for RateLimitError {
    type V = RateLimitErrorView;

    closed spec fn view(&self) -> RateLimitErrorView {
        RateLimitErrorView {
            message: self.message@,
            retry_after_seconds: self.retry_after_seconds,
        }
    }
}

/// `String::from` on a string slice yields a string with the same characters.
pub assume_specification<'a>[ <String as From<&'a str>>::from ](s: &str) -> (text: String)
    ensures
        text@ == s@,
;

impl RateLimitError {
    /// An error with the given message and the given time to wait.
    pub fn new<S: Into<String>>(message: S, retry_after_seconds: Option<u64>) -> (error: Self)
        ensures
            error@.retry_after_seconds == retry_after_seconds,
            exists|text: String|
                call_ensures(S::into, (message,), text) && error@.message == text@,
    {
        RateLimitError { message: message.into(), retry_after_seconds }
    }

    /// How many seconds to wait before the next try, if that is known.
    pub fn retry_after_seconds(&self) -> (seconds: Option<u64>)
        ensures
            seconds == self@.retry_after_seconds,
    {
        self.retry_after_seconds
    }

    /// The message of this error.
    pub fn message(&self) -> (message: &str)
        ensures
            message@ == self@.message,
    {
        self.message.as_str()
    }
}

/// The case of ASCII letters has no bearing on the kind of limit that a body speaks of.
pub proof fn case_has_no_bearing(body: Seq<char>)
    ensures
        kind_of_body(ascii_lower(body)) == kind_of_body(body),
{
    assert(ascii_lower(ascii_lower(body)) =~= ascii_lower(body));
}

/// What stands around a suspicious text has no bearing on it.
pub proof fn context_has_no_bearing(before: Seq<char>, body: Seq<char>, behind: Seq<char>)
    requires
        is_suspicious(body),
    ensures
        is_suspicious(before + body + behind),
{
    let whole = before + body + behind;
    let i = choose|i: int|
        0 <= i < suspicious_phrases().len() && occurs_in(
            ascii_lower(body),
            #[trigger] suspicious_phrases()[i],
        );
    let phrase = suspicious_phrases()[i];
    let at = choose|at: int| occurs_at(ascii_lower(body), phrase, at);
    let there = before.len() + at;
    assert(ascii_lower(whole).subrange(there, there + phrase.len()) =~= ascii_lower(body).subrange(
        at,
        at + phrase.len(),
    ));
    assert(occurs_at(ascii_lower(whole), phrase, there));
}

/// A body speaks of suspicious activity if one of three phrases occurs in it, whatever the case
/// of its letters, and of an ordinary limit if none does.
pub proof fn three_phrases_are_suspicious(body: Seq<char>)
    ensures
        kind_of_body(body) is Suspicious <==> {
            ||| occurs_in(ascii_lower(body), "suspicious activity"@)
            ||| occurs_in(ascii_lower(body), "temporary limits"@)
            ||| occurs_in(ascii_lower(body), "while we investigate"@)
        },
        kind_of_body(body) is Normal || kind_of_body(body) is Suspicious,
{
    let phrases = suspicious_phrases();
    assert(phrases.len() == 3);
    assert(phrases[0] == "suspicious activity"@);
    assert(phrases[1] == "temporary limits"@);
    assert(phrases[2] == "while we investigate"@);
}

/// A body with one of the three phrases in it, in small letters, speaks of suspicious activity,
/// whatever stands before the phrase and behind it.
pub proof fn phrases_mark_suspicious_bodies(
    before: Seq<char>,
    phrase: Seq<char>,
    behind: Seq<char>,
)
    requires
        phrase == "suspicious activity"@ || phrase == "temporary limits"@ || phrase
            == "while we investigate"@,
    ensures
        kind_of_body(before + phrase + behind) is Suspicious,
{
    reveal_strlit("suspicious activity");
    reveal_strlit("temporary limits");
    reveal_strlit("while we investigate");
    let body = before + phrase + behind;
    assert(ascii_lower(phrase) =~= phrase);
    assert(ascii_lower(body) =~= ascii_lower(before) + phrase + ascii_lower(behind));
    parts_are_found(ascii_lower(before), phrase, ascii_lower(behind));
    three_phrases_are_suspicious(body);
}

/// The two kinds of limit are recorded and logged each under its own name.
pub proof fn kinds_keep_their_names(kind: UpstreamRateLimitKind)
    ensures
        kind is Normal ==> kind.recorded_reason() is Normal && kind.label() == "normal"@,
        kind is Suspicious ==> kind.recorded_reason() is Suspicious && kind.label()
            == "suspicious"@,
{
}

} // verus!
