//! The keys under which responses are cached, and how long.
use vstd::prelude::*;
use vstd::string::*;
use crate::dto::ListEventsQuery;
use crate::text::{concat2, concat3, i64_to_string, signed_decimal};
use crate::trusted::{parse_u64, u64_of_text};

verus! {

/// How long a response is cached where nothing is configured, in seconds.
pub const DEFAULT_CACHE_TTL_SECONDS: u64 = 60;

/// The key of an entry within the name space of the service.
pub open spec fn namespaced(prefix: Seq<char>, key: Seq<char>) -> Seq<char> {
    prefix + ":"@ + key
}

/// The key of an entry within the name space of the service.
pub fn namespaced_key(prefix: &str, key: &str) -> (full: String)
    ensures
        full@ == namespaced(prefix@, key@),
{
    concat3(prefix, ":", key)
}

/// The pattern that matches every key of a scope.
pub open spec fn scope_pattern(prefix: Seq<char>, scope: Seq<char>) -> Seq<char> {
    prefix + ":"@ + scope + "*"@
}

/// The pattern that matches every key of a scope.
pub fn purge_pattern(prefix: &str, scope: &str) -> (pattern: String)
    ensures
        pattern@ == scope_pattern(prefix@, scope@),
{
    let mut pattern = concat3(prefix, ":", scope);
    pattern.append("*");
    pattern
}

/// The lifetime of an entry: at least one second.
pub fn effective_ttl(ttl_seconds: u64) -> (ttl: u64)
    ensures
        ttl == if ttl_seconds < 1 {
            1u64
        } else {
            ttl_seconds
        },
{
    if ttl_seconds < 1 {
        1
    } else {
        ttl_seconds
    }
}

/// The configured lifetime: the number that the setting denotes, or the
/// default where it is absent or denotes none.
pub open spec fn configured_ttl(setting: Option<Seq<char>>) -> u64 {
    match setting {
        Some(text) => match u64_of_text(text) {
            Some(n) => n,
            None => DEFAULT_CACHE_TTL_SECONDS,
        },
        None => DEFAULT_CACHE_TTL_SECONDS,
    }
}

/// Reads the configured lifetime.
pub fn cache_ttl(setting: Option<&str>) -> (ttl: u64)
    ensures
        ttl == configured_ttl(crate::cookies::opt_str_text(setting)),
{
    match setting {
        Some(text) => match parse_u64(text) {
            Some(n) => n,
            None => DEFAULT_CACHE_TTL_SECONDS,
        },
        None => DEFAULT_CACHE_TTL_SECONDS,
    }
}

/// Where a scan of the key space goes on: at the cursor that the server
/// returned, unless that is zero, which ends the scan.
pub fn next_scan_cursor(returned: u64) -> (next: Option<u64>)
    ensures
        next == if returned == 0 {
            None::<u64>
        } else {
            Some(returned)
        },
{
    if returned == 0 {
        None
    } else {
        Some(returned)
    }
}

/// The key of a single public event.
pub fn public_event_key(id: i64) -> (key: String)
    ensures
        key@ == "public:events:item:"@ + signed_decimal(id as int),
{
    concat2("public:events:item:", i64_to_string(id).as_str())
}

/// The key of a single public organizer.
pub fn public_organizer_key(id: i64) -> (key: String)
    ensures
        key@ == "public:organizers:item:"@ + signed_decimal(id as int),
{
    concat2("public:organizers:item:", i64_to_string(id).as_str())
}

/// The key of the calendar of an organizer.
pub fn organizer_calendar_key(organizer_id: i64) -> (key: String)
    ensures
        key@ == "ical:organizer:"@ + signed_decimal(organizer_id as int),
{
    concat2("ical:organizer:", i64_to_string(organizer_id).as_str())
}

/// How an optional number is written in a key.
pub open spec fn shown_number(n: Option<i64>) -> Seq<char> {
    match n {
        Some(v) => "Some("@ + signed_decimal(v as int) + ")"@,
        None => "None"@,
    }
}

/// How an optional flag is written in a key.
pub open spec fn shown_flag(b: Option<bool>) -> Seq<char> {
    match b {
        Some(true) => "Some(true)"@,
        Some(false) => "Some(false)"@,
        None => "None"@,
    }
}

/// The key of a list of public events: it names every field of the query.
pub open spec fn events_list_key(q: ListEventsQuery) -> Seq<char> {
    "public:events:list:ListEventsQuery { organizer_id: "@ + shown_number(q.organizer_id)
        + ", upcoming_only: "@ + shown_flag(q.upcoming_only) + ", limit: "@ + shown_number(q.limit)
        + ", offset: "@ + shown_number(q.offset) + " }"@
}

fn show_number(n: Option<i64>) -> (text: String)
    ensures
        text@ == shown_number(n),
{
    match n {
        Some(v) => concat3("Some(", i64_to_string(v).as_str(), ")"),
        None => "None".to_string(),
    }
}

fn show_flag(b: Option<bool>) -> (text: String)
    ensures
        text@ == shown_flag(b),
{
    match b {
        Some(true) => "Some(true)".to_string(),
        Some(false) => "Some(false)".to_string(),
        None => "None".to_string(),
    }
}

/// The key of a list of public events.
pub fn public_events_list_key(query: &ListEventsQuery) -> (key: String)
    ensures
        key@ == events_list_key(*query),
{
    let mut key = "public:events:list:ListEventsQuery { organizer_id: ".to_string();
    key.append(show_number(query.organizer_id).as_str());
    key.append(", upcoming_only: ");
    key.append(show_flag(query.upcoming_only).as_str());
    key.append(", limit: ");
    key.append(show_number(query.limit).as_str());
    key.append(", offset: ");
    key.append(show_number(query.offset).as_str());
    key.append(" }");
    key
}

} // verus!
