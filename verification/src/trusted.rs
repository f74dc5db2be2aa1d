//! The boundary to code that is not verified here: random numbers, the clock,
//! password hashing, and the parsers and encoders of other crates. Each function
//! below makes one such call; its contract is believed, not proved.
use vstd::prelude::*;
use vstd::string::*;
use argon2::Argon2;
use argon2::password_hash::rand_core::OsRng;
use base64::Engine;
use base64::engine::general_purpose;
use cookie::Cookie;
use password_hash::{PasswordHash, PasswordHasher, PasswordVerifier, SaltString};
use password_policy::{HighSecurityPolicy, PasswordPolicy, COMMON_PASSWORDS};
use rand::RngCore;
use chrono::{Datelike, TimeZone, Timelike};
use chrono_tz::Europe::Berlin;
use uuid::Uuid;
use crate::policy::{has_digit, has_lowercase, has_symbol, has_uppercase, utf8_len};
use crate::text::opt_text;

verus! {

/// The characters of each text in a list.
pub open spec fn texts(list: Seq<String>) -> Seq<Seq<char>> {
    list.map_values(|s: String| s@)
}

/// The characters of each name and value in a list of optional pairs.
pub open spec fn pair_texts(list: Seq<Option<(String, String)>>) -> Seq<Option<(Seq<char>, Seq<char>)>> {
    list.map_values(
        |p: Option<(String, String)>|
            match p {
                Some(pair) => Some((pair.0@, pair.1@)),
                None => None,
            },
    )
}

/// `chrono::Utc::now`, as microseconds since the Unix epoch. Nothing is
/// claimed of the value.
#[verifier::external_body]
pub(crate) fn current_time_micros() -> (now: i64) {
    chrono::Utc::now().timestamp_micros()
}

/// `rand::thread_rng().fill_bytes` on a fresh buffer of `len` bytes. Only the
/// length of the result is claimed.
#[verifier::external_body]
pub(crate) fn thread_random_bytes(len: usize) -> (bytes: Vec<u8>)
    requires
        len <= 4096,
    ensures
        bytes@.len() == len,
{
    let mut bytes = vec![0u8; len];
    rand::thread_rng().fill_bytes(&mut bytes);
    bytes
}

/// `OsRng.fill_bytes` on a fresh buffer of `len` bytes. Only the length of the
/// result is claimed.
#[verifier::external_body]
pub(crate) fn os_random_bytes(len: usize) -> (bytes: Vec<u8>)
    requires
        len <= 4096,
    ensures
        bytes@.len() == len,
{
    let mut bytes = vec![0u8; len];
    OsRng.fill_bytes(&mut bytes);
    bytes
}

/// What the URL-safe base64 alphabet without padding makes of `bytes`.
pub uninterp spec fn base64_url_no_pad(bytes: Seq<u8>) -> Seq<char>;

/// The characters of the URL-safe base64 alphabet.
pub open spec fn is_url_safe_char(c: char) -> bool {
    ('A' <= c && c <= 'Z') || ('a' <= c && c <= 'z') || ('0' <= c && c <= '9') || c == '-'
        || c == '_'
}

/// Whether a text holds characters of the URL-safe base64 alphabet only.
pub open spec fn is_url_safe_text(text: Seq<char>) -> bool {
    forall|i: int| 0 <= i < text.len() ==> is_url_safe_char(#[trigger] text[i])
}

/// The number of characters that base64 without padding makes of `bytes`
/// bytes: four for every three bytes, and two or three for one or two bytes
/// that are left.
pub open spec fn base64_len(bytes: nat) -> nat {
    ((4 * bytes + 2) / 3) as nat
}

/// `base64::engine::general_purpose::URL_SAFE_NO_PAD.encode`: the result is a
/// function of the bytes alone, has the length of the encoding without
/// padding, holds characters of the URL-safe alphabet only, and is the
/// encoding of no other bytes.
#[verifier::external_body]
pub(crate) fn encode_base64_url_no_pad(bytes: &Vec<u8>) -> (text: String)
    ensures
        text@ == base64_url_no_pad(bytes@),
        text@.len() == base64_len(bytes@.len()),
        is_url_safe_text(text@),
        forall|other: Seq<u8>| #[trigger] base64_url_no_pad(other) == text@ ==> other == bytes@,
{
    general_purpose::URL_SAFE_NO_PAD.encode(bytes)
}

/// Whether a 128-bit number packs a version 4 UUID: the four version bits
/// hold 4, and the two variant bits hold binary 10, the variant of the RFC.
/// The other 122 bits are free.
pub open spec fn is_version4(id: u128) -> bool {
    (id >> 76) & 0xf == 4 && (id >> 62) & 0x3 == 2
}

/// `uuid::Uuid::new_v4`, as the 128-bit number the identifier packs. The
/// version and variant bits are claimed, which `new_v4` sets by a mask;
/// nothing is claimed of the random bits.
#[verifier::external_body]
pub(crate) fn random_uuid() -> (id: u128)
    ensures
        is_version4(id),
{
    Uuid::new_v4().as_u128()
}

/// The identifier a text denotes, if it is one of the UUID notations.
pub uninterp spec fn uuid_parse(text: Seq<char>) -> Option<u128>;

/// `uuid::Uuid::parse_str`, with the identifier as a 128-bit number: the result
/// is a function of the text alone.
#[verifier::external_body]
pub(crate) fn parse_uuid(text: &str) -> (id: Option<u128>)
    ensures
        id == uuid_parse(text@),
{
    Uuid::parse_str(text).ok().map(|u| u.as_u128())
}

/// The hyphenated lower-case notation of an identifier.
pub uninterp spec fn uuid_text(id: u128) -> Seq<char>;

/// `Display` of `uuid::Uuid`: the hyphenated notation, a function of the
/// identifier alone, which `parse_str` reads back as the same identifier.
#[verifier::external_body]
pub(crate) fn format_uuid(id: u128) -> (text: String)
    ensures
        text@ == uuid_text(id),
        uuid_parse(text@) == Some(id),
{
    Uuid::from_u128(id).to_string()
}

/// The characters of the standard base64 alphabet.
pub open spec fn is_base64_char(c: char) -> bool {
    ('A' <= c && c <= 'Z') || ('a' <= c && c <= 'z') || ('0' <= c && c <= '9') || c == '+'
        || c == '/'
}

/// The form of a salt of sixteen bytes: 22 characters of the standard base64
/// alphabet, without padding.
pub open spec fn is_salt_text(salt: Seq<char>) -> bool {
    salt.len() == 22 && forall|i: int| 0 <= i < salt.len() ==> is_base64_char(#[trigger] salt[i])
}

/// `SaltString::generate(&mut OsRng)`, as text: sixteen random bytes in
/// base64 without padding. The form of the text is claimed, nothing of the
/// bytes.
#[verifier::external_body]
pub(crate) fn generate_salt() -> (salt: String)
    ensures
        is_salt_text(salt@),
{
    SaltString::generate(&mut OsRng).as_str().to_string()
}

/// The PHC string Argon2id with its default parameters derives from a
/// password and a salt; `None` where the salt or the password is refused.
pub uninterp spec fn argon2_phc(password: Seq<char>, salt: Seq<char>) -> Option<Seq<char>>;

/// Whether Argon2 finds that `password` matches the PHC string `phc`; `false`
/// too where `phc` is no PHC string.
pub uninterp spec fn argon2_accepts(password: Seq<char>, phc: Seq<char>) -> bool;

/// `Argon2::default().hash_password` with a salt in B64 text: the result is a
/// function of password and salt, and a hash it gives verifies against the
/// same password.
#[verifier::external_body]
pub(crate) fn argon2_hash(password: &str, salt: &str) -> (phc: Option<String>)
    ensures
        opt_text(phc) == argon2_phc(password@, salt@),
        phc matches Some(h) ==> argon2_accepts(password@, h@),
{
    let salt = SaltString::from_b64(salt).ok()?;
    let hash = Argon2::default().hash_password(password.as_bytes(), &salt).ok()?;
    Some(hash.to_string())
}

/// `Argon2::default().verify_password` against a stored PHC string, parsed by
/// `PasswordHash::new`: the result is a function of password and string.
#[verifier::external_body]
pub(crate) fn argon2_verify(password: &str, phc: &str) -> (ok: bool)
    ensures
        ok == argon2_accepts(password@, phc@),
{
    match PasswordHash::new(phc) {
        Ok(parsed) => Argon2::default().verify_password(password.as_bytes(), &parsed).is_ok(),
        Err(_) => false,
    }
}

/// The name and value of each segment of a `Cookie` header, in order; `None`
/// for a segment that is no `name=value` pair.
pub uninterp spec fn cookie_pairs(header: Seq<char>) -> Seq<Option<(Seq<char>, Seq<char>)>>;

/// `cookie::Cookie::split_parse`, each parsed cookie reduced to its name and
/// value: the result is a function of the header alone.
#[verifier::external_body]
pub(crate) fn split_cookie_header(header: &str) -> (pairs: Vec<Option<(String, String)>>)
    ensures
        pair_texts(pairs@) == cookie_pairs(header@),
{
    Cookie::split_parse(header)
        .map(|c| c.ok().map(|c| (c.name().to_string(), c.value().to_string())))
        .collect()
}

/// The lower-case form of a text under Unicode's default case mapping.
pub uninterp spec fn lowercase(text: Seq<char>) -> Seq<char>;

/// `str::to_lowercase`: the result is a function of the text alone.
#[verifier::external_body]
pub(crate) fn to_lowercase(text: &str) -> (lowered: String)
    ensures
        lowered@ == lowercase(text@),
{
    text.to_lowercase()
}

/// Whether `needle` occurs in `haystack` as a contiguous run of characters.
pub open spec fn is_substring(needle: Seq<char>, haystack: Seq<char>) -> bool {
    exists|i: int|
        0 <= i <= haystack.len() - needle.len() && #[trigger] haystack.subrange(
            i,
            i + needle.len(),
        ) == needle
}

/// `str::contains` with a string pattern: true exactly where the pattern
/// matches a sub-slice.
#[verifier::external_body]
pub(crate) fn str_contains(haystack: &str, needle: &str) -> (found: bool)
    ensures
        found == is_substring(needle@, haystack@),
{
    haystack.contains(needle)
}

/// `text` with every occurrence of the character `from` replaced by `to`.
pub open spec fn replaced(text: Seq<char>, from: char, to: Seq<char>) -> Seq<char>
    decreases text.len(),
{
    if text.len() == 0 {
        Seq::<char>::empty()
    } else {
        replaced(text.drop_last(), from, to) + (if text.last() == from {
            to
        } else {
            seq![text.last()]
        })
    }
}

/// `str::replace` with a character pattern: every match is replaced.
#[verifier::external_body]
pub(crate) fn replace_char(text: &str, from: char, to: &str) -> (out: String)
    ensures
        out@ == replaced(text@, from, to@),
{
    text.replace(from, to)
}

/// The passwords that are too common to accept, in lower case.
pub open spec fn common_passwords() -> Seq<Seq<char>> {
    seq![
        "password"@,
        "123456"@,
        "password123"@,
        "admin"@,
        "qwerty"@,
        "letmein"@,
        "welcome"@,
        "monkey"@,
        "dragon"@,
        "master"@,
        "sunshine"@,
        "princess"@,
    ]
}

/// The list `password_policy::COMMON_PASSWORDS`, as owned texts.
#[verifier::external_body]
pub(crate) fn common_password_list() -> (list: Vec<String>)
    ensures
        texts(list@) == common_passwords(),
{
    COMMON_PASSWORDS.iter().map(|s| s.to_string()).collect()
}

/// The fewest bytes with which a password of all four character classes
/// reaches the sixty bits of entropy that the high-security policy demands.
/// The policy counts the length in bytes times the binary logarithm of 94,
/// the size of the four classes together: ten bytes give more than 65 bits,
/// nine fewer than 59.
pub const ENTROPY_BYTES: usize = 10;

/// What the high-security policy with the given minimum length accepts: a
/// password of at least that many bytes that holds a lower-case letter, an
/// upper-case letter, a digit and a symbol, and has the bytes that its
/// entropy demand asks of such a password.
pub open spec fn high_security_accepts(password: Seq<char>, min_length: usize) -> bool {
    &&& utf8_len(password) >= min_length
    &&& has_lowercase(password)
    &&& has_uppercase(password)
    &&& has_digit(password)
    &&& has_symbol(password)
    &&& utf8_len(password) >= ENTROPY_BYTES
}

/// `HighSecurityPolicy::meets_requirements` on the default policy with
/// `min_length` set: the length in bytes, the four character classes, and the
/// entropy of sixty bits, which the policy computes from the length and the
/// classes alone.
#[verifier::external_body]
pub(crate) fn policy_accepts(password: &str, min_length: usize) -> (ok: bool)
    ensures
        ok == high_security_accepts(password@, min_length),
{
    let policy = HighSecurityPolicy { min_length, ..Default::default() };
    policy.meets_requirements(password)
}

/// The field `min_entropy` of the default `HighSecurityPolicy` with
/// `min_length` set, formatted without fraction digits: the default is sixty
/// bits, whatever the minimum length.
#[verifier::external_body]
pub(crate) fn policy_min_entropy(min_length: usize) -> (bits: String)
    ensures
        bits@ == "60"@,
{
    let policy = HighSecurityPolicy { min_length, ..Default::default() };
    format!("{:.0}", policy.min_entropy)
}

/// The JSON string literal for a text, with its quotes and escapes.
pub uninterp spec fn json_string_text(text: Seq<char>) -> Option<Seq<char>>;

/// `serde_json::to_string` on a string slice: the result is a function of the
/// text alone.
#[verifier::external_body]
pub(crate) fn json_quote(text: &str) -> (quoted: Option<String>)
    ensures
        opt_text(quoted) == json_string_text(text@),
{
    serde_json::to_string(text).ok()
}

/// The RFC 3339 notation in UTC of an instant given in microseconds since the
/// Unix epoch; `None` where the calendar cannot hold the instant.
pub uninterp spec fn rfc3339_text(micros: i64) -> Option<Seq<char>>;

/// `chrono::DateTime::from_timestamp_micros` followed by `to_rfc3339_opts`
/// with automatic sub-second digits and `Z`: the result is a function of the
/// instant alone.
#[verifier::external_body]
pub(crate) fn format_rfc3339(micros: i64) -> (text: Option<String>)
    ensures
        opt_text(text) == rfc3339_text(micros),
{
    chrono::DateTime::from_timestamp_micros(micros).map(
        |t| t.to_rfc3339_opts(chrono::SecondsFormat::AutoSi, true),
    )
}

/// A text without the white space at its two ends.
pub uninterp spec fn trimmed(text: Seq<char>) -> Seq<char>;

/// `str::trim`: the result is a function of the text alone.
#[verifier::external_body]
pub(crate) fn trim(text: &str) -> (out: String)
    ensures
        out@ == trimmed(text@),
{
    text.trim().to_string()
}

/// `text` without the characters `c` at its end.
pub open spec fn without_trailing(text: Seq<char>, c: char) -> Seq<char>
    decreases text.len(),
{
    if text.len() > 0 && text.last() == c {
        without_trailing(text.drop_last(), c)
    } else {
        text
    }
}

/// `str::trim_end_matches` with a character pattern: every match at the end
/// is removed.
#[verifier::external_body]
pub(crate) fn trim_end_char(text: &str, c: char) -> (out: String)
    ensures
        out@ == without_trailing(text@, c),
{
    text.trim_end_matches(c).to_string()
}

/// What follows `prefix` in `text`, if `text` starts with it.
pub open spec fn after_prefix(text: Seq<char>, prefix: Seq<char>) -> Option<Seq<char>> {
    if prefix.len() <= text.len() && text.subrange(0, prefix.len() as int) == prefix {
        Some(text.subrange(prefix.len() as int, text.len() as int))
    } else {
        None
    }
}

/// `str::strip_prefix` with a string pattern.
#[verifier::external_body]
pub(crate) fn strip_prefix(text: &str, prefix: &str) -> (rest: Option<String>)
    ensures
        opt_text(rest) == after_prefix(text@, prefix@),
{
    text.strip_prefix(prefix).map(|rest| rest.to_string())
}

/// The number below 65536 that a text denotes in decimal, if it denotes one.
pub uninterp spec fn u16_of_text(text: Seq<char>) -> Option<u16>;

/// `str::parse::<u16>`: the result is a function of the text alone.
#[verifier::external_body]
pub(crate) fn parse_u16(text: &str) -> (n: Option<u16>)
    ensures
        n == u16_of_text(text@),
{
    text.parse::<u16>().ok()
}

/// The number below 2^64 that a text denotes in decimal, if it denotes one.
pub uninterp spec fn u64_of_text(text: Seq<char>) -> Option<u64>;

/// `str::parse::<u64>`: the result is a function of the text alone.
#[verifier::external_body]
pub(crate) fn parse_u64(text: &str) -> (n: Option<u64>)
    ensures
        n == u64_of_text(text@),
{
    text.parse::<u64>().ok()
}

/// Whether a text is a mailbox: an address, or a name followed by an address
/// in angle brackets.
pub uninterp spec fn is_mailbox(text: Seq<char>) -> bool;

/// `lettre::message::Mailbox::from_str`, reduced to whether it succeeds: the
/// result is a function of the text alone.
#[verifier::external_body]
pub(crate) fn mailbox_parses(text: &str) -> (ok: bool)
    ensures
        ok == is_mailbox(text@),
{
    text.parse::<lettre::message::Mailbox>().is_ok()
}

/// The first instant of the year 0 in UTC, in microseconds since the Unix
/// epoch.
pub const FIRST_INSTANT: i64 = -62167219200000000;

/// The last instant of the year 9999 in UTC, in microseconds since the Unix
/// epoch.
pub const LAST_INSTANT: i64 = 253402300799999999;

/// The last day of the year 9999, counted from January 1 of the year 1 as
/// day 1.
pub const LAST_DAY: i32 = 3652059;

/// Whether an instant lies in the years 0 to 9999 in UTC. Local times are
/// asked for such instants only, so that they lie well within the range of the
/// calendar.
pub open spec fn in_calendar(micros: i64) -> bool {
    FIRST_INSTANT <= micros <= LAST_INSTANT
}

/// The date and time of day that an instant has in Berlin: year, month, day,
/// hour, minute and second; `None` where the calendar cannot hold the
/// instant.
pub uninterp spec fn berlin_civil(micros: i64) -> Option<(i32, u32, u32, u32, u32, u32)>;

/// `with_timezone(&chrono_tz::Europe::Berlin)` on the instant, read through
/// `Datelike` and `Timelike`: the result is a function of the instant alone.
#[verifier::external_body]
pub(crate) fn to_berlin_civil(micros: i64) -> (civil: Option<(i32, u32, u32, u32, u32, u32)>)
    requires
        in_calendar(micros),
    ensures
        civil == berlin_civil(micros),
{
    chrono::DateTime::from_timestamp_micros(micros).map(
        |t| {
            let local = t.with_timezone(&Berlin);
            (local.year(), local.month(), local.day(), local.hour(), local.minute(), local.second())
        },
    )
}

/// The day that an instant falls on in Berlin, counted from January 1 of the
/// year 1 as day 1, and the number of days since the Monday of its week.
pub uninterp spec fn berlin_day(micros: i64) -> Option<(i32, u32)>;

/// `with_timezone(&Berlin).date_naive()` on the instant, read through
/// `num_days_from_ce` and `weekday().num_days_from_monday()`: the result is a
/// function of the instant alone.
#[verifier::external_body]
pub(crate) fn to_berlin_day(micros: i64) -> (day: Option<(i32, u32)>)
    requires
        in_calendar(micros),
    ensures
        day == berlin_day(micros),
{
    chrono::DateTime::from_timestamp_micros(micros).map(
        |t| {
            let date = t.with_timezone(&Berlin).date_naive();
            (date.num_days_from_ce(), date.weekday().num_days_from_monday())
        },
    )
}

/// The instant at which a day begins in Berlin, given the day counted from
/// January 1 of the year 1; `None` where the calendar cannot hold the day or
/// the day has no midnight there.
pub uninterp spec fn berlin_midnight(day: i32) -> Option<i64>;

/// `Berlin.from_local_datetime` at midnight of the day, its earliest reading
/// taken as an instant: the result is a function of the day alone.
#[verifier::external_body]
pub(crate) fn to_berlin_midnight(day: i32) -> (instant: Option<i64>)
    requires
        1 <= day <= LAST_DAY,
    ensures
        instant == berlin_midnight(day),
{
    let midnight = chrono::NaiveDate::from_num_days_from_ce_opt(day)?.and_hms_opt(0, 0, 0)?;
    let local = Berlin.from_local_datetime(&midnight).earliest()?;
    Some(local.with_timezone(&chrono::Utc).timestamp_micros())
}

/// The ISO week that an instant falls in in Berlin: the year of the week, and
/// its number.
pub uninterp spec fn berlin_iso_week(micros: i64) -> Option<(i32, u32)>;

/// `with_timezone(&Berlin).iso_week()` on the instant: the result is a
/// function of the instant alone.
#[verifier::external_body]
pub(crate) fn to_berlin_iso_week(micros: i64) -> (week: Option<(i32, u32)>)
    requires
        in_calendar(micros),
    ensures
        week == berlin_iso_week(micros),
{
    chrono::DateTime::from_timestamp_micros(micros).map(
        |t| {
            let week = t.with_timezone(&Berlin).iso_week();
            (week.year(), week.week())
        },
    )
}

} // verus!
