//! Reading the session cookie of a request and writing the one of a response.
use vstd::prelude::*;
use vstd::string::*;
use crate::seqs::{first_match, lemma_first_match_at, lemma_first_match_none};
use crate::text::{decimal, opt_text, str_eq, u64_to_string};
use crate::trusted::{cookie_pairs, pair_texts, split_cookie_header};

verus! {

/// How long a session lasts, in seconds. Sessions are not extended by use.
pub const SESSION_TTL_SECONDS: u64 = 86400;

/// How long a session lasts, in microseconds.
pub const SESSION_TTL_MICROS: i64 = 86400000000;

/// The pairs that carry the given name.
pub open spec fn is_named(name: Seq<char>) -> spec_fn(Option<(Seq<char>, Seq<char>)>) -> bool {
    |p: Option<(Seq<char>, Seq<char>)>| p matches Some(pair) && pair.0 == name
}

/// The value of the first pair with the given name.
pub open spec fn value_of(pairs: Seq<Option<(Seq<char>, Seq<char>)>>, name: Seq<char>) -> Option<
    Seq<char>,
> {
    match first_match(pairs, is_named(name)) {
        Some(Some(pair)) => Some(pair.1),
        _ => None,
    }
}

/// The value that a `Cookie` header gives to a name: that of the first
/// well-formed pair with the name, and none where the header is absent.
pub open spec fn cookie_value(header: Option<Seq<char>>, name: Seq<char>) -> Option<Seq<char>> {
    match header {
        Some(h) => value_of(cookie_pairs(h), name),
        None => None,
    }
}

/// The characters of an optional string slice.
pub open spec fn opt_str_text(o: Option<&str>) -> Option<Seq<char>> {
    match o {
        Some(s) => Some(s@),
        None => None,
    }
}

/// The value of the first pair with the given name.
pub fn find_cookie(pairs: &Vec<Option<(String, String)>>, name: &str) -> (value: Option<String>)
    ensures
        opt_text(value) == value_of(pair_texts(pairs@), name@),
{
    let ghost views = pair_texts(pairs@);
    let mut i: usize = 0;
    while i < pairs.len()
        invariant
            i <= pairs.len(),
            views == pair_texts(pairs@),
            forall|j: int| 0 <= j < i ==> !is_named(name@)(#[trigger] views[j]),
        decreases pairs.len() - i,
    {
        match &pairs[i] {
            Some(pair) => {
                if str_eq(pair.0.as_str(), name) {
                    proof {
                        lemma_first_match_at(views, is_named(name@), i as int);
                    }
                    return Some(pair.1.clone());
                }
            },
            None => {},
        }
        i = i + 1;
    }
    proof {
        lemma_first_match_none(views, is_named(name@));
    }
    None
}

/// The value a request's `Cookie` header gives to `name`.
pub fn get_cookie(cookie_header: Option<&str>, name: &str) -> (value: Option<String>)
    ensures
        opt_text(value) == cookie_value(opt_str_text(cookie_header), name@),
{
    match cookie_header {
        Some(header) => {
            let pairs = split_cookie_header(header);
            find_cookie(&pairs, name)
        },
        None => None,
    }
}

/// Whether session cookies are marked `Secure`, given the value of the
/// configuration flag: only the exact text `false` switches it off.
pub open spec fn secure_by_flag(flag: Option<Seq<char>>) -> bool {
    flag != Some("false"@)
}

/// Reads the configuration flag that switches `Secure` off for local
/// development.
pub fn cookie_secure(flag: Option<&str>) -> (secure: bool)
    ensures
        secure == secure_by_flag(opt_str_text(flag)),
{
    match flag {
        Some(text) => !str_eq(text, "false"),
        None => true,
    }
}

/// The attributes of every session cookie.
pub open spec fn cookie_attributes(secure: bool) -> Seq<char> {
    if secure {
        "Path=/; HttpOnly; SameSite=Lax; Secure"@
    } else {
        "Path=/; HttpOnly; SameSite=Lax"@
    }
}

/// The attributes of every session cookie.
pub fn session_cookie_attributes(secure: bool) -> (attributes: String)
    ensures
        attributes@ == cookie_attributes(secure),
{
    if secure {
        "Path=/; HttpOnly; SameSite=Lax; Secure".to_string()
    } else {
        "Path=/; HttpOnly; SameSite=Lax".to_string()
    }
}

/// The `Set-Cookie` value that hands a session to the client.
pub open spec fn session_cookie_text(session_id: Seq<char>, secure: bool) -> Seq<char> {
    "session_id="@ + session_id + "; "@ + cookie_attributes(secure) + "; Max-Age="@ + decimal(
        SESSION_TTL_SECONDS as nat,
    )
}

/// The `Set-Cookie` value that hands a session to the client.
pub fn session_cookie(session_id: &str, secure: bool) -> (cookie: String)
    ensures
        cookie@ == session_cookie_text(session_id@, secure),
{
    let attributes = session_cookie_attributes(secure);
    let max_age = u64_to_string(SESSION_TTL_SECONDS);
    let mut cookie = "session_id=".to_string();
    cookie.append(session_id);
    cookie.append("; ");
    cookie.append(attributes.as_str());
    cookie.append("; Max-Age=");
    cookie.append(max_age.as_str());
    cookie
}

/// The `Set-Cookie` value that takes the session from the client.
pub open spec fn expired_cookie_text(secure: bool) -> Seq<char> {
    "session_id=; "@ + cookie_attributes(secure) + "; Max-Age=0"@
}

/// The `Set-Cookie` value that takes the session from the client.
pub fn expired_session_cookie(secure: bool) -> (cookie: String)
    ensures
        cookie@ == expired_cookie_text(secure),
{
    let attributes = session_cookie_attributes(secure);
    let mut cookie = "session_id=; ".to_string();
    cookie.append(attributes.as_str());
    cookie.append("; Max-Age=0");
    cookie
}

} // verus!
