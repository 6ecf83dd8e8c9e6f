//! The decisions around applying an action and fetching transfer lists: which
//! operation the service is asked for, what a slow or refused attempt leads
//! to, and when a failed fetch is tried again.
use vstd::prelude::*;
use crate::model::ActionType;
use crate::text::{contains_text, contains_what_stands_within, has_infix};
use vstd::string::*;

verus! {

/// Seconds that one attempt at an action may take before it counts as failed.
pub const ACTION_TIMEOUT_SECS: u64 = 10;

/// Seconds to pause before repeating an action that the service rate-limited.
pub const RATE_LIMIT_PAUSE_SECS: u64 = 2;

/// The most times a transfer list is asked for.
pub const MAX_FETCH_ATTEMPTS: u32 = 3;

/// The name of an action as the results show it.
pub open spec fn action_label_text(a: ActionType) -> Seq<char> {
    match a {
        ActionType::StopSeeding => "Stop Seeding"@,
        ActionType::Delete => "Delete"@,
        ActionType::Stop => "Stop"@,
        ActionType::Resume => "Resume"@,
        ActionType::Restart => "Restart"@,
        ActionType::Reannounce => "Reannounce"@,
        ActionType::ForceStart => "Force Start"@,
    }
}

/// The name of an action as it is written in code (its `Debug` form).
pub open spec fn action_debug_text(a: ActionType) -> Seq<char> {
    match a {
        ActionType::StopSeeding => "StopSeeding"@,
        ActionType::Delete => "Delete"@,
        ActionType::Stop => "Stop"@,
        ActionType::Resume => "Resume"@,
        ActionType::Restart => "Restart"@,
        ActionType::Reannounce => "Reannounce"@,
        ActionType::ForceStart => "ForceStart"@,
    }
}

/// The torrent operation that carries out an action.
pub open spec fn torrent_operation_text(a: ActionType) -> Seq<char> {
    match a {
        ActionType::StopSeeding => "stop_seeding"@,
        ActionType::Delete => "delete"@,
        ActionType::Stop => "stop"@,
        ActionType::Resume => "resume"@,
        ActionType::Restart => "restart"@,
        ActionType::Reannounce => "reannounce"@,
        ActionType::ForceStart => "start"@,
    }
}

/// The web or usenet operation that carries out an action, where there is one.
pub open spec fn transfer_operation_text(a: ActionType) -> Option<Seq<char>> {
    match a {
        ActionType::Delete => Some("delete"@),
        ActionType::Stop => Some("stop"@),
        ActionType::Resume => Some("resume"@),
        _ => None,
    }
}

/// A web or usenet download is asked for the same operation as a torrent
/// would be for the same action; and distinct actions ask a torrent for
/// distinct operations and are shown under distinct names.
pub proof fn operations_agree_across_kinds(a: ActionType, b: ActionType)
    ensures
        transfer_operation_text(a) matches Some(op) ==> op == torrent_operation_text(a),
        a != b ==> torrent_operation_text(a) != torrent_operation_text(b),
        a != b ==> action_label_text(a) != action_label_text(b),
{
    reveal_strlit("stop_seeding");
    reveal_strlit("delete");
    reveal_strlit("stop");
    reveal_strlit("resume");
    reveal_strlit("restart");
    reveal_strlit("reannounce");
    reveal_strlit("start");
    reveal_strlit("Stop Seeding");
    reveal_strlit("Delete");
    reveal_strlit("Stop");
    reveal_strlit("Resume");
    reveal_strlit("Restart");
    reveal_strlit("Reannounce");
    reveal_strlit("Force Start");
    if a != b {
        assert(torrent_operation_text(a).len() != torrent_operation_text(b).len()
            || torrent_operation_text(a)[0] != torrent_operation_text(b)[0]
            || torrent_operation_text(a)[2] != torrent_operation_text(b)[2]);
        assert(action_label_text(a).len() != action_label_text(b).len()
            || action_label_text(a)[0] != action_label_text(b)[0]
            || action_label_text(a)[2] != action_label_text(b)[2]);
    }
}

/// The name of `a` as the results show it.
pub fn action_label(a: ActionType) -> (r: String)
    ensures
        r@ == action_label_text(a),
{
    let s = match a {
        ActionType::StopSeeding => "Stop Seeding",
        ActionType::Delete => "Delete",
        ActionType::Stop => "Stop",
        ActionType::Resume => "Resume",
        ActionType::Restart => "Restart",
        ActionType::Reannounce => "Reannounce",
        ActionType::ForceStart => "Force Start",
    };
    String::from_str(s)
}

/// The `Debug` name of `a`.
pub fn action_debug_name(a: ActionType) -> (r: &'static str)
    ensures
        r@ == action_debug_text(a),
{
    match a {
        ActionType::StopSeeding => "StopSeeding",
        ActionType::Delete => "Delete",
        ActionType::Stop => "Stop",
        ActionType::Resume => "Resume",
        ActionType::Restart => "Restart",
        ActionType::Reannounce => "Reannounce",
        ActionType::ForceStart => "ForceStart",
    }
}

/// The torrent operation for `a`.
pub fn torrent_operation(a: ActionType) -> (r: &'static str)
    ensures
        r@ == torrent_operation_text(a),
{
    match a {
        ActionType::StopSeeding => "stop_seeding",
        ActionType::Delete => "delete",
        ActionType::Stop => "stop",
        ActionType::Resume => "resume",
        ActionType::Restart => "restart",
        ActionType::Reannounce => "reannounce",
        ActionType::ForceStart => "start",
    }
}

/// The refusal of an action that a kind of transfer does not support.
pub open spec fn unsupported_text(a: ActionType, kind: Seq<char>) -> Seq<char> {
    "Action "@ + action_debug_text(a) + " not supported for "@ + kind
}

fn transfer_operation(a: ActionType, kind: &str) -> (r: Result<&'static str, String>)
    ensures
        match transfer_operation_text(a) {
            Some(op) => r matches Ok(s) && s@ == op,
            None => r matches Err(e) && e@ == unsupported_text(a, kind@),
        },
{
    match a {
        ActionType::Delete => Ok("delete"),
        ActionType::Stop => Ok("stop"),
        ActionType::Resume => Ok("resume"),
        _ => {
            let mut e = String::from_str("Action ");
            e.append(action_debug_name(a));
            e.append(" not supported for ");
            e.append(kind);
            Err(e)
        },
    }
}

/// The web download operation for `a`, or the refusal where there is none.
pub fn webdl_operation(a: ActionType) -> (r: Result<&'static str, String>)
    ensures
        match transfer_operation_text(a) {
            Some(op) => r matches Ok(s) && s@ == op,
            None => r matches Err(e) && e@ == unsupported_text(a, "web downloads"@),
        },
{
    transfer_operation(a, "web downloads")
}

/// The usenet download operation for `a`, or the refusal where there is none.
pub fn usenet_operation(a: ActionType) -> (r: Result<&'static str, String>)
    ensures
        match transfer_operation_text(a) {
            Some(op) => r matches Ok(s) && s@ == op,
            None => r matches Err(e) && e@ == unsupported_text(a, "usenet downloads"@),
        },
{
    transfer_operation(a, "usenet downloads")
}

/// How the first attempt at an action on one transfer ended.
#[derive(Debug)]
pub enum AttemptOutcome {
    /// The service answered within the time allowed.
    Finished(Result<(), String>),
    /// No answer came within `ACTION_TIMEOUT_SECS`.
    TimedOut,
}

/// What follows the first attempt at an action.
#[derive(Debug)]
pub enum AttemptStep {
    /// The result is final.
    Settled(Result<(), String>),
    /// Pause this many seconds, then try once more; that answer is final.
    RetryAfter(u64),
}

/// A refusal that names the service's rate limit.
pub open spec fn rate_limited(e: Seq<char>) -> bool {
    has_infix(e, "429"@) || has_infix(e, "Rate limit"@)
}

/// Decides what the first attempt's outcome leads to.
pub fn settle_first_attempt(o: AttemptOutcome) -> (s: AttemptStep)
    ensures
        match o {
            AttemptOutcome::Finished(Ok(())) => s == AttemptStep::Settled(Ok(())),
            AttemptOutcome::Finished(Err(e)) => if rate_limited(e@) {
                s == AttemptStep::RetryAfter(RATE_LIMIT_PAUSE_SECS)
            } else {
                s == AttemptStep::Settled(Err(e))
            },
            AttemptOutcome::TimedOut => s matches AttemptStep::Settled(Err(e)) && e@
                == "Action timed out after 10 seconds"@,
        },
{
    match o {
        AttemptOutcome::Finished(Ok(())) => AttemptStep::Settled(Ok(())),
        AttemptOutcome::Finished(Err(e)) => {
            if contains_text(e.as_str(), "429") || contains_text(e.as_str(), "Rate limit") {
                AttemptStep::RetryAfter(RATE_LIMIT_PAUSE_SECS)
            } else {
                AttemptStep::Settled(Err(e))
            }
        },
        AttemptOutcome::TimedOut => AttemptStep::Settled(
            Err(String::from_str("Action timed out after 10 seconds")),
        ),
    }
}

/// A fetch error that is worth trying again: a gateway or network failure.
pub open spec fn transient_error(e: Seq<char>) -> bool {
    ||| has_infix(e, "530"@)
    ||| has_infix(e, "504"@)
    ||| has_infix(e, "502"@)
    ||| has_infix(e, "503"@)
    ||| has_infix(e, "Network error"@)
}

/// Whether the fetch error `e` is worth trying again.
pub fn is_transient_error(e: &str) -> (r: bool)
    ensures
        r == transient_error(e@),
{
    contains_text(e, "530") || contains_text(e, "504") || contains_text(e, "502") || contains_text(
        e,
        "503",
    ) || contains_text(e, "Network error")
}

/// What follows a failed fetch.
#[derive(Debug)]
pub enum FetchStep {
    /// Pause this many seconds, then ask again.
    Retry(u64),
    /// Give up with this error.
    Fail(String),
}

/// Whether attempt number `attempt` at a fetch that failed with `e` is
/// followed by another.
pub open spec fn fetch_retried(attempt: int, e: Seq<char>) -> bool {
    transient_error(e) && attempt < MAX_FETCH_ATTEMPTS
}

/// The error that a failed fetch of `kind` ends with.
pub open spec fn fetch_failure_text(kind: Seq<char>, e: Seq<char>) -> Seq<char> {
    "Failed to fetch "@ + kind + ": "@ + e
}

/// Decides what follows attempt number `attempt` (counting from one) at
/// fetching the list of `kind`, which failed with the error text `e`: a pause
/// of `attempt` seconds and another try, or the final error.
pub fn after_fetch_error(attempt: u32, kind: &str, e: &str) -> (s: FetchStep)
    requires
        1 <= attempt <= MAX_FETCH_ATTEMPTS,
    ensures
        fetch_retried(attempt as int, e@) ==> s == FetchStep::Retry(attempt as u64),
        !fetch_retried(attempt as int, e@) ==> (s matches FetchStep::Fail(m) && m@ == fetch_failure_text(kind@, e@)),
{
    if is_transient_error(e) && attempt < MAX_FETCH_ATTEMPTS {
        FetchStep::Retry(attempt as u64)
    } else {
        let mut m = String::from_str("Failed to fetch ");
        m.append(kind);
        m.append(": ");
        m.append(e);
        FetchStep::Fail(m)
    }
}

/// The error when the service answers a fetch of `kind` without a list.
pub fn missing_data_error(kind: &str) -> (m: String)
    ensures
        m@ == "No "@ + kind@ + " data returned"@,
{
    let mut m = String::from_str("No ");
    m.append(kind);
    m.append(" data returned");
    m
}

/// The error when every attempt at fetching `kind` was used up.
pub fn attempts_exhausted_error(kind: &str) -> (m: String)
    ensures
        m@ == "Failed to fetch "@ + kind@ + " after 3 attempts"@,
{
    let mut m = String::from_str("Failed to fetch ");
    m.append(kind);
    m.append(" after 3 attempts");
    m
}

/// A fetch is made at most `MAX_FETCH_ATTEMPTS` times: the last attempt is
/// never followed by another, whatever its error, and an attempt that is
/// followed by another leaves the next one within the allowance.
pub proof fn fetch_attempts_bounded(attempt: int, e: Seq<char>)
    requires
        1 <= attempt <= MAX_FETCH_ATTEMPTS,
    ensures
        !fetch_retried(MAX_FETCH_ATTEMPTS as int, e),
        fetch_retried(attempt, e) ==> attempt + 1 <= MAX_FETCH_ATTEMPTS,
{
}

/// An error that mentions the rate limit ("429" or "Rate limit") anywhere
/// leads to a pause and one more try; one that mentions a gateway failure
/// ("502", "503", "504" or "530") or a network error anywhere is worth
/// fetching again.
pub proof fn errors_recognised_anywhere(before: Seq<char>, after: Seq<char>)
    ensures
        rate_limited(before + "429"@ + after),
        rate_limited(before + "Rate limit"@ + after),
        transient_error(before + "502"@ + after),
        transient_error(before + "503"@ + after),
        transient_error(before + "504"@ + after),
        transient_error(before + "530"@ + after),
        transient_error(before + "Network error"@ + after),
{
    contains_what_stands_within(before, "429"@, after);
    contains_what_stands_within(before, "Rate limit"@, after);
    contains_what_stands_within(before, "502"@, after);
    contains_what_stands_within(before, "503"@, after);
    contains_what_stands_within(before, "504"@, after);
    contains_what_stands_within(before, "530"@, after);
    contains_what_stands_within(before, "Network error"@, after);
}

} // verus!
