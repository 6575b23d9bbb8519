//! The line protocol codec: classifies one line of the worker's standard
//! output and decodes its payload into a typed event.
//!
//! A line beginning with `PROGRESS:` carries a progress payload, one
//! beginning with `RESULT:` carries a result payload; every other line is
//! diagnostic noise and yields nothing. A recognized line whose payload does
//! not decode also yields nothing: progress loss must never abort a run, so
//! malformed payloads degrade to "no event", never to an error.

use vstd::prelude::*;

use crate::json::{
    get_bool_field, get_str_field, get_str_list_field, get_u64_field, has_field, json_bool_field,
    json_has_field, json_str_field, json_str_list_field, json_u64_field, json_valid,
};
use crate::text::{slice_starts_with, starts_with};
use vstd::string::StrSliceExecFns;
use vstd::string::StringSliceAdditionalSpecFns;

verus! {

/// One progress report from the worker: a step counter, the total step
/// count, the remaining candidate count, a human-readable message, and the
/// candidate names currently under consideration (empty when the wire
/// payload omits them).
#[derive(Debug, Clone, PartialEq, Eq)]
pub struct ProgressEvent {
    pub step: u32,
    pub total: u32,
    pub remaining: u32,
    pub message: String,
    pub names: Vec<String>,
}

/// The matched entity that the worker reports at the end of a search.
/// `confirmed` defaults to false when absent from the wire payload.
#[derive(Debug, Clone, PartialEq, Eq)]
pub struct ResultRecord {
    pub id: String,
    pub username: String,
    pub display_name: String,
    pub avatar: String,
    pub roles: Vec<String>,
    pub confirmed: bool,
}

/// A decoded event of the search protocol.
#[derive(Debug, Clone, PartialEq, Eq)]
pub enum SearchEvent {
    Progress(ProgressEvent),
    Found(ResultRecord),
}

/// The bytes of the progress line prefix.
pub open spec fn progress_prefix() -> Seq<u8> {
    "PROGRESS:".spec_bytes()
}

/// The bytes of the result line prefix.
pub open spec fn result_prefix() -> Seq<u8> {
    "RESULT:".spec_bytes()
}

/// The bytes of the probe verdict line prefix.
pub open spec fn connected_prefix() -> Seq<u8> {
    "CONNECTED:".spec_bytes()
}

/// What kind of line of the search protocol this is, by its prefix.
pub enum LineKind {
    ProgressLine,
    ResultLine,
    OtherLine,
}

/// Classifies a line of the search protocol by its prefix.
pub open spec fn classify(line: Seq<u8>) -> LineKind {
    if starts_with(line, progress_prefix()) {
        LineKind::ProgressLine
    } else if starts_with(line, result_prefix()) {
        LineKind::ResultLine
    } else {
        LineKind::OtherLine
    }
}

/// The payload of a line: what follows the given prefix.
pub open spec fn payload_after(line: Seq<u8>, prefix: Seq<u8>) -> Seq<u8> {
    line.subrange(prefix.len() as int, line.len() as int)
}

/// A progress payload is acceptable when its three counters are present as
/// integers that fit `u32`, its message is present as a string, and its
/// optional name list, if present at all, is an array of strings.
pub open spec fn progress_payload_ok(s: Seq<u8>) -> bool {
    &&& u32_field_ok(s, "step"@)
    &&& u32_field_ok(s, "total"@)
    &&& u32_field_ok(s, "remaining"@)
    &&& json_str_field(s, "message"@) is Some
    &&& (!json_has_field(s, "names"@) || json_str_list_field(s, "names"@) is Some)
}

/// The field at `key` is an unsigned integer that fits `u32`.
pub open spec fn u32_field_ok(s: Seq<u8>, key: Seq<char>) -> bool {
    match json_u64_field(s, key) {
        Some(n) => n <= u32::MAX,
        None => false,
    }
}

/// The name list of a progress payload: the `names` field when present,
/// empty when absent.
pub open spec fn names_or_empty(s: Seq<u8>) -> Seq<Seq<char>> {
    if json_has_field(s, "names"@) {
        json_str_list_field(s, "names"@).unwrap()
    } else {
        Seq::empty()
    }
}

/// `p` is the progress event that the payload bytes `s` describe.
pub open spec fn progress_matches(p: ProgressEvent, s: Seq<u8>) -> bool {
    &&& Some(p.step as u64) == json_u64_field(s, "step"@)
    &&& Some(p.total as u64) == json_u64_field(s, "total"@)
    &&& Some(p.remaining as u64) == json_u64_field(s, "remaining"@)
    &&& Some(p.message@) == json_str_field(s, "message"@)
    &&& p.names.deep_view() == names_or_empty(s)
}

/// A result payload is acceptable when its four identity fields are present
/// as strings, its role list is present as an array of strings, and its
/// optional confirmed flag, if present at all, is a boolean.
pub open spec fn result_payload_ok(s: Seq<u8>) -> bool {
    &&& json_str_field(s, "id"@) is Some
    &&& json_str_field(s, "username"@) is Some
    &&& json_str_field(s, "displayName"@) is Some
    &&& json_str_field(s, "avatar"@) is Some
    &&& json_str_list_field(s, "roles"@) is Some
    &&& (!json_has_field(s, "confirmed"@) || json_bool_field(s, "confirmed"@) is Some)
}

/// `r` is the result record that the payload bytes `s` describe; the
/// confirmed flag defaults to false when the payload omits it.
pub open spec fn record_matches(r: ResultRecord, s: Seq<u8>) -> bool {
    &&& Some(r.id@) == json_str_field(s, "id"@)
    &&& Some(r.username@) == json_str_field(s, "username"@)
    &&& Some(r.display_name@) == json_str_field(s, "displayName"@)
    &&& Some(r.avatar@) == json_str_field(s, "avatar"@)
    &&& Some(r.roles.deep_view()) == json_str_list_field(s, "roles"@)
    &&& r.confirmed == (if json_has_field(s, "confirmed"@) {
        json_bool_field(s, "confirmed"@).unwrap()
    } else {
        false
    })
}

/// Whether a line of the search protocol yields an event: it must carry a
/// recognized prefix and an acceptable payload.
pub open spec fn yields_event(line: Seq<u8>) -> bool {
    match classify(line) {
        LineKind::ProgressLine => progress_payload_ok(payload_after(line, progress_prefix())),
        LineKind::ResultLine => result_payload_ok(payload_after(line, result_prefix())),
        LineKind::OtherLine => false,
    }
}

/// A line that carries neither the progress prefix nor the result prefix
/// yields no event, whatever its content.
pub proof fn lemma_unrecognized_line_yields_nothing(line: Seq<u8>)
    requires
        !starts_with(line, progress_prefix()),
        !starts_with(line, result_prefix()),
    ensures
        !yields_event(line),
{
}

/// Decodes a progress payload; `None` when any required field is missing,
/// ill-typed, or out of range. A payload that is not valid JSON yields
/// nothing and raises no error.
pub fn decode_progress_payload(body: &[u8]) -> (r: Option<ProgressEvent>)
    ensures
        r is Some <==> progress_payload_ok(body@),
        r matches Some(p) ==> progress_matches(p, body@),
        !json_valid(body@) ==> r is None,
{
    let step = match get_u64_field(body, "step") {
        Some(n) => n,
        None => {
            return None;
        },
    };
    let total = match get_u64_field(body, "total") {
        Some(n) => n,
        None => {
            return None;
        },
    };
    let remaining = match get_u64_field(body, "remaining") {
        Some(n) => n,
        None => {
            return None;
        },
    };
    if step > u32::MAX as u64 || total > u32::MAX as u64 || remaining > u32::MAX as u64 {
        return None;
    }
    let message = match get_str_field(body, "message") {
        Some(m) => m,
        None => {
            return None;
        },
    };
    let names: Vec<String> = if has_field(body, "names") {
        match get_str_list_field(body, "names") {
            Some(v) => v,
            None => {
                return None;
            },
        }
    } else {
        Vec::new()
    };
    proof {
        assert(names.deep_view() =~~= names_or_empty(body@));
    }
    Some(
        ProgressEvent {
            step: step as u32,
            total: total as u32,
            remaining: remaining as u32,
            message,
            names,
        },
    )
}

/// Decodes a result payload; `None` when any required field is missing or
/// ill-typed. An absent confirmed flag defaults to false. A payload that is
/// not valid JSON yields nothing and raises no error.
pub fn decode_result_payload(body: &[u8]) -> (r: Option<ResultRecord>)
    ensures
        r is Some <==> result_payload_ok(body@),
        r matches Some(rec) ==> record_matches(rec, body@),
        !json_valid(body@) ==> r is None,
{
    let id = match get_str_field(body, "id") {
        Some(v) => v,
        None => {
            return None;
        },
    };
    let username = match get_str_field(body, "username") {
        Some(v) => v,
        None => {
            return None;
        },
    };
    let display_name = match get_str_field(body, "displayName") {
        Some(v) => v,
        None => {
            return None;
        },
    };
    let avatar = match get_str_field(body, "avatar") {
        Some(v) => v,
        None => {
            return None;
        },
    };
    let roles = match get_str_list_field(body, "roles") {
        Some(v) => v,
        None => {
            return None;
        },
    };
    let confirmed: bool = if has_field(body, "confirmed") {
        match get_bool_field(body, "confirmed") {
            Some(v) => v,
            None => {
                return None;
            },
        }
    } else {
        false
    };
    Some(ResultRecord { id, username, display_name, avatar, roles, confirmed })
}

/// Decodes one line of the search protocol. Unrecognized lines and
/// recognized lines with unacceptable payloads — in particular, payloads
/// that are not valid JSON — yield no event and no error.
pub fn decode_search_line(line: &[u8]) -> (r: Option<SearchEvent>)
    ensures
        r is Some <==> yields_event(line@),
        r matches Some(SearchEvent::Progress(p)) ==> classify(line@) is ProgressLine
            && progress_matches(p, payload_after(line@, progress_prefix())),
        r matches Some(SearchEvent::Found(rec)) ==> classify(line@) is ResultLine
            && record_matches(rec, payload_after(line@, result_prefix())),
        classify(line@) is ProgressLine && !json_valid(payload_after(line@, progress_prefix()))
            ==> r is None,
        classify(line@) is ResultLine && !json_valid(payload_after(line@, result_prefix()))
            ==> r is None,
{
    let progress_tag = "PROGRESS:".as_bytes_vec();
    if slice_starts_with(line, progress_tag.as_slice()) {
        let body = &line[progress_tag.len()..line.len()];
        proof {
            assert(body@ == payload_after(line@, progress_prefix()));
        }
        return match decode_progress_payload(body) {
            Some(p) => Some(SearchEvent::Progress(p)),
            None => None,
        };
    }
    let result_tag = "RESULT:".as_bytes_vec();
    if slice_starts_with(line, result_tag.as_slice()) {
        let body = &line[result_tag.len()..line.len()];
        proof {
            assert(body@ == payload_after(line@, result_prefix()));
        }
        return match decode_result_payload(body) {
            Some(rec) => Some(SearchEvent::Found(rec)),
            None => None,
        };
    }
    None
}

} // verus!
