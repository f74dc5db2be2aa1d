//! Where the instants and random values come from that the operations take as
//! arguments.
use vstd::prelude::*;
use vstd::string::*;
use crate::auth::valid_instant;
use crate::error::{AppError, AppErrorView};
use crate::shared::{SETUP_TOKEN_TTL_MICROS, TOKEN_BYTES};
use crate::trusted::{
    base64_len, base64_url_no_pad, current_time_micros, encode_base64_url_no_pad, generate_salt,
    is_salt_text, is_url_safe_text, is_version4, os_random_bytes, random_uuid,
};

verus! {

/// Whether an instant read from the clock can be used: every lifetime of the
/// service can be added to it.
pub fn usable_instant(now: i64) -> (r: Result<i64, AppError>)
    ensures
        match r {
            Ok(instant) => valid_instant(now) && instant == now,
            Err(e) => !valid_instant(now) && e@ == AppErrorView::Internal(
                "system clock out of range"@,
            ),
        },
{
    if now <= i64::MAX - SETUP_TOKEN_TTL_MICROS {
        Ok(now)
    } else {
        Err(AppError::internal("system clock out of range"))
    }
}

/// The present instant, in microseconds since the Unix epoch. It fails where
/// the clock is so far in the future that a lifetime cannot be added to it.
pub fn current_instant() -> (r: Result<i64, AppError>)
    ensures
        match r {
            Ok(now) => valid_instant(now),
            Err(e) => e@ == AppErrorView::Internal("system clock out of range"@),
        },
{
    usable_instant(current_time_micros())
}

/// A fresh session identifier: a version 4 UUID with random bits.
pub fn new_session_id() -> (id: u128)
    ensures
        is_version4(id),
{
    random_uuid()
}

/// A fresh salt for hashing a password: sixteen random bytes in base64, in
/// the form that the hasher takes.
pub fn new_salt() -> (salt: String)
    ensures
        is_salt_text(salt@),
{
    generate_salt()
}

/// The reset token that encodes the given bytes.
pub fn reset_token_from_bytes(bytes: &Vec<u8>) -> (token: String)
    ensures
        token@ == base64_url_no_pad(bytes@),
        token@.len() == base64_len(bytes@.len()),
        is_url_safe_text(token@),
        forall|other: Seq<u8>| #[trigger] base64_url_no_pad(other) == token@ ==> other == bytes@,
{
    encode_base64_url_no_pad(bytes)
}

/// A fresh reset token: thirty-two random bytes in URL-safe base64.
pub fn generate_reset_token() -> (token: String)
    ensures
        exists|bytes: Seq<u8>| bytes.len() == TOKEN_BYTES && token@ == base64_url_no_pad(bytes),
        token@.len() == base64_len(TOKEN_BYTES as nat),
        is_url_safe_text(token@),
{
    let bytes = os_random_bytes(TOKEN_BYTES);
    reset_token_from_bytes(&bytes)
}

} // verus!
