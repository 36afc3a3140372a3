//! Pure predicates over timestamps and offsets, and the parsing of
//! operator-authored RFC 3339 annotations.
//!
//! Times are whole seconds since the Unix epoch.

use vstd::prelude::*;

verus! {

/// Whether a deadline derived from `target` and `offset_sec` has passed:
/// false when either is absent, else true iff `target - offset_sec <= now`.
/// A negative offset places the deadline after `target` (the revoke path
/// passes the negated revoke delay against the rotation time).
pub open spec fn spec_past_deadline(now: i64, target: Option<i64>, offset_sec: Option<i64>) -> bool {
    &&& target is Some
    &&& offset_sec is Some
    &&& target->0 - offset_sec->0 <= now
}

/// Executable form of [`spec_past_deadline`]; total for every input.
pub fn is_time_after_deadline(now: i64, target: Option<i64>, deadline_sec: Option<i64>) -> (r: bool)
    ensures
        r == spec_past_deadline(now, target, deadline_sec),
{
    match (target, deadline_sec) {
        (Some(t), Some(off)) => {
            let deadline: i128 = t as i128 - off as i128;
            deadline <= now as i128
        },
        _ => false,
    }
}

/// What `chrono`'s RFC 3339 parser yields for a string: the instant as
/// seconds since the Unix epoch, or nothing when the string is not a valid
/// RFC 3339 timestamp. The result depends on the characters alone.
pub uninterp spec fn rfc3339_epoch(s: Seq<char>) -> Option<int>;

/// Relies on `chrono::DateTime::parse_from_rfc3339` and
/// `chrono::DateTime::timestamp`: parses an RFC 3339 timestamp and yields
/// its epoch second; the result is a function of the string alone.
#[verifier::external_body]
fn parse_rfc3339(s: &String) -> (r: Option<i64>)
    ensures
        r is Some <==> rfc3339_epoch(s@) is Some,
        r matches Some(t) ==> rfc3339_epoch(s@) == Some(t as int),
{
    chrono::DateTime::parse_from_rfc3339(s.as_str()).ok().map(|d| d.timestamp())
}

/// Whether an operator-requested annotation asks for an action: false when
/// the annotation is absent or unparseable; true when the rule never ran
/// successfully; else true iff the last successful run predates the request.
pub open spec fn spec_annotation_requests(
    last_success: Option<i64>,
    requested: Option<int>,
) -> bool {
    &&& requested is Some
    &&& match last_success {
        None => true,
        Some(l) => l < requested->0,
    }
}

/// The parsed instant of an optional annotation string: absent or
/// unparseable collapse to `None`.
pub open spec fn spec_requested_at(annotation: Option<Seq<char>>) -> Option<int> {
    match annotation {
        None => None,
        Some(s) => rfc3339_epoch(s),
    }
}

/// The mathematical view of an optional machine integer.
pub open spec fn opt_int(o: Option<i64>) -> Option<int> {
    match o {
        None => None,
        Some(v) => Some(v as int),
    }
}

/// Executable form of [`spec_annotation_requests`] over an annotation
/// already parsed to an epoch second (`None`: absent or unparseable).
pub fn annotation_requests(last_success: Option<i64>, requested: Option<i64>) -> (r: bool)
    ensures
        r == spec_annotation_requests(last_success, opt_int(requested)),
{
    match requested {
        None => false,
        Some(t) => match last_success {
            None => true,
            Some(l) => l < t,
        },
    }
}

/// The view of an optional borrowed string.
pub open spec fn opt_str_view(o: Option<&String>) -> Option<Seq<char>> {
    match o {
        None => None,
        Some(s) => Some(s@),
    }
}

/// Parses an optional annotation string to its epoch second; absent and
/// unparseable collapse to `None`.
pub fn parse_annotation(annotation: Option<&String>) -> (r: Option<i64>)
    ensures
        opt_int(r) == spec_requested_at(opt_str_view(annotation)),
{
    match annotation {
        None => None,
        Some(s) => parse_rfc3339(s),
    }
}

/// Executable form of [`spec_annotation_requests`] over the raw annotation
/// string, as read from the rule's metadata.
pub fn check_request_annotation(last_success: Option<i64>, annotation: Option<&String>) -> (r:
    bool)
    ensures
        r == spec_annotation_requests(
            last_success,
            spec_requested_at(opt_str_view(annotation)),
        ),
{
    match annotation {
        None => false,
        Some(s) => match parse_rfc3339(s) {
            None => false,
            Some(t) => match last_success {
                None => true,
                Some(l) => l < t,
            },
        },
    }
}

} // verus!
