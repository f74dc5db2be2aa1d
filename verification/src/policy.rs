//! The password policy: which passwords an account may be given.
//!
//! A password is held against the rules in a fixed order, and the first rule it
//! breaks decides the message.
use vstd::prelude::*;
use vstd::string::*;
use vstd::utf8::encode_utf8;
use crate::error::{AppError, AppErrorView};
use crate::text::{concat3, u64_to_string, decimal};
use crate::trusted::{
    common_password_list, common_passwords, high_security_accepts, is_substring, lowercase,
    policy_accepts, policy_min_entropy, str_contains, texts, to_lowercase,
};

verus! {

/// The fewest bytes a password may have.
pub const MIN_PASSWORD_LENGTH: usize = 20;

pub open spec fn is_ascii_lowercase(c: char) -> bool {
    'a' <= c && c <= 'z'
}

pub open spec fn is_ascii_uppercase(c: char) -> bool {
    'A' <= c && c <= 'Z'
}

pub open spec fn is_ascii_digit(c: char) -> bool {
    '0' <= c && c <= '9'
}

pub open spec fn is_ascii_alphanumeric(c: char) -> bool {
    is_ascii_lowercase(c) || is_ascii_uppercase(c) || is_ascii_digit(c)
}

pub open spec fn has_lowercase(s: Seq<char>) -> bool {
    exists|i: int| 0 <= i < s.len() && is_ascii_lowercase(#[trigger] s[i])
}

pub open spec fn has_uppercase(s: Seq<char>) -> bool {
    exists|i: int| 0 <= i < s.len() && is_ascii_uppercase(#[trigger] s[i])
}

pub open spec fn has_digit(s: Seq<char>) -> bool {
    exists|i: int| 0 <= i < s.len() && is_ascii_digit(#[trigger] s[i])
}

/// Whether some character is neither an ASCII letter nor an ASCII digit.
pub open spec fn has_symbol(s: Seq<char>) -> bool {
    exists|i: int| 0 <= i < s.len() && !is_ascii_alphanumeric(#[trigger] s[i])
}

/// Whether a lower-cased password holds one of the common passwords.
pub open spec fn holds_common_password(lowered: Seq<char>) -> bool {
    exists|k: int|
        0 <= k < common_passwords().len() && is_substring(#[trigger] common_passwords()[k], lowered)
}

/// The number of bytes of a text in UTF-8.
pub open spec fn utf8_len(s: Seq<char>) -> nat {
    encode_utf8(s).len()
}

pub open spec fn too_short_message() -> Seq<char> {
    "password must be at least "@ + decimal(MIN_PASSWORD_LENGTH as nat) + " characters long"@
}

pub open spec fn low_entropy_message(entropy_bits: Seq<char>) -> Seq<char> {
    "password must provide at least "@ + entropy_bits + " bits of entropy"@
}

/// The message of the first rule that a password breaks, `None` if it breaks
/// none. `lowered` is the password in lower case, `accepted` the verdict of the
/// entropy policy and `entropy_bits` the entropy that policy demands.
pub open spec fn password_rejection(
    password: Seq<char>,
    lowered: Seq<char>,
    accepted: bool,
    entropy_bits: Seq<char>,
) -> Option<Seq<char>> {
    if utf8_len(password) < MIN_PASSWORD_LENGTH {
        Some(too_short_message())
    } else if !has_lowercase(password) {
        Some("password must include at least one lowercase letter"@)
    } else if !has_uppercase(password) {
        Some("password must include at least one uppercase letter"@)
    } else if !has_digit(password) {
        Some("password must include at least one number"@)
    } else if !has_symbol(password) {
        Some("password must include at least one symbol"@)
    } else if holds_common_password(lowered) {
        Some("password is too common or predictable"@)
    } else if !accepted {
        Some(low_entropy_message(entropy_bits))
    } else {
        None
    }
}

/// The outcome of the policy as a result: success, or a validation failure with
/// the message of the first broken rule.
pub open spec fn password_verdict(
    password: Seq<char>,
    lowered: Seq<char>,
    accepted: bool,
    entropy_bits: Seq<char>,
) -> Result<(), AppErrorView> {
    match password_rejection(password, lowered, accepted, entropy_bits) {
        Some(message) => Err(AppErrorView::Validation(message)),
        None => Ok(()),
    }
}

/// The mathematical value of a unit result.
pub open spec fn unit_result_view(r: Result<(), AppError>) -> Result<(), AppErrorView> {
    match r {
        Ok(_) => Ok(()),
        Err(e) => Err(e@),
    }
}

/// The character classes a text holds.
pub struct CharClasses {
    pub lowercase: bool,
    pub uppercase: bool,
    pub digit: bool,
    pub symbol: bool,
}

/// Finds which character classes occur in a text.
pub fn char_classes(s: &str) -> (found: CharClasses)
    ensures
        found.lowercase == has_lowercase(s@),
        found.uppercase == has_uppercase(s@),
        found.digit == has_digit(s@),
        found.symbol == has_symbol(s@),
{
    let mut lowercase = false;
    let mut uppercase = false;
    let mut digit = false;
    let mut symbol = false;
    for c in it: s.chars()
        invariant
            it.seq() == s@,
            lowercase == (exists|i: int| 0 <= i < it.index() && is_ascii_lowercase(#[trigger] s@[i])),
            uppercase == (exists|i: int| 0 <= i < it.index() && is_ascii_uppercase(#[trigger] s@[i])),
            digit == (exists|i: int| 0 <= i < it.index() && is_ascii_digit(#[trigger] s@[i])),
            symbol == (exists|i: int| 0 <= i < it.index() && !is_ascii_alphanumeric(#[trigger] s@[i])),
    {
        if 'a' <= c && c <= 'z' {
            lowercase = true;
        } else if 'A' <= c && c <= 'Z' {
            uppercase = true;
        } else if '0' <= c && c <= '9' {
            digit = true;
        } else {
            symbol = true;
        }
    }
    CharClasses { lowercase, uppercase, digit, symbol }
}

/// Whether a lower-cased password holds one of the common passwords.
pub fn contains_common_password(lowered: &str) -> (hit: bool)
    ensures
        hit == holds_common_password(lowered@),
{
    let list = common_password_list();
    let mut k: usize = 0;
    while k < list.len()
        invariant
            k <= list.len(),
            texts(list@) == common_passwords(),
            forall|j: int| 0 <= j < k ==> !is_substring(#[trigger] common_passwords()[j], lowered@),
        decreases list.len() - k,
    {
        assert(texts(list@)[k as int] == list@[k as int]@);
        if str_contains(lowered, list[k].as_str()) {
            return true;
        }
        k = k + 1;
    }
    assert(texts(list@).len() == list@.len());
    false
}

/// Holds a password against the policy, given its lower-case form, the verdict
/// of the entropy policy and the entropy that policy demands.
pub fn check_password(password: &str, lowered: &str, accepted: bool, entropy_bits: &str) -> (r:
    Result<(), AppError>)
    ensures
        unit_result_view(r) == password_verdict(password@, lowered@, accepted, entropy_bits@),
{
    if password.as_bytes().len() < MIN_PASSWORD_LENGTH {
        let count = u64_to_string(MIN_PASSWORD_LENGTH as u64);
        let message = concat3("password must be at least ", count.as_str(), " characters long");
        return Err(AppError::Validation(message));
    }
    let classes = char_classes(password);
    if !classes.lowercase {
        return Err(AppError::validation("password must include at least one lowercase letter"));
    }
    if !classes.uppercase {
        return Err(AppError::validation("password must include at least one uppercase letter"));
    }
    if !classes.digit {
        return Err(AppError::validation("password must include at least one number"));
    }
    if !classes.symbol {
        return Err(AppError::validation("password must include at least one symbol"));
    }
    if contains_common_password(lowered) {
        return Err(AppError::validation("password is too common or predictable"));
    }
    if !accepted {
        let message = concat3("password must provide at least ", entropy_bits, " bits of entropy");
        return Err(AppError::Validation(message));
    }
    Ok(())
}

/// The entropy, in whole bits, that the policy demands of a password.
pub open spec fn entropy_bits() -> Seq<char> {
    "60"@
}

/// The entropy, in whole bits, that the policy demands of a password.
pub fn required_entropy_bits() -> (bits: String)
    ensures
        bits@ == entropy_bits(),
{
    policy_min_entropy(MIN_PASSWORD_LENGTH)
}

/// The verdict of the password policy on a password: the message of the first
/// rule that it breaks, or success.
pub open spec fn policy_verdict(password: Seq<char>) -> Result<(), AppErrorView> {
    password_verdict(
        password,
        lowercase(password),
        high_security_accepts(password, MIN_PASSWORD_LENGTH),
        entropy_bits(),
    )
}

/// What the rules come to: a password is accepted exactly when it has the
/// minimum length in bytes, holds all four character classes, and holds no
/// common password in its lower-case form. The demand for entropy refuses no
/// password that the rules before it let through.
pub proof fn law_policy_accepts_by_length_classes_and_blocklist(password: Seq<char>)
    ensures
        policy_verdict(password) is Ok <==> utf8_len(password) >= MIN_PASSWORD_LENGTH
            && has_lowercase(password) && has_uppercase(password) && has_digit(password)
            && has_symbol(password) && !holds_common_password(lowercase(password)),
        policy_verdict(password) != Err::<(), AppErrorView>(
            AppErrorView::Validation(low_entropy_message(entropy_bits())),
        ),
{
    let low = low_entropy_message(entropy_bits());
    reveal_strlit("password must provide at least ");
    reveal_strlit("password must be at least ");
    reveal_strlit("password must include at least one lowercase letter");
    reveal_strlit("password must include at least one uppercase letter");
    reveal_strlit("password must include at least one number");
    reveal_strlit("password must include at least one symbol");
    reveal_strlit("password is too common or predictable");
    assert(low[9] == 'm');
    assert(low[14] == 'p');
    assert(too_short_message()[14] == 'b');
    assert("password must include at least one lowercase letter"@[14] == 'i');
    assert("password must include at least one uppercase letter"@[14] == 'i');
    assert("password must include at least one number"@[14] == 'i');
    assert("password must include at least one symbol"@[14] == 'i');
    assert("password is too common or predictable"@[9] == 'i');
}

/// Holds a password against the policy: the length in bytes, the four
/// character classes, the common passwords, and the entropy that the
/// high-security policy demands, in this order.
pub fn ensure_password_requirements(password: &str) -> (r: Result<(), AppError>)
    ensures
        unit_result_view(r) == policy_verdict(password@),
{
    let lowered = to_lowercase(password);
    let accepted = policy_accepts(password, MIN_PASSWORD_LENGTH);
    let entropy_bits = required_entropy_bits();
    check_password(password, lowered.as_str(), accepted, entropy_bits.as_str())
}

} // verus!
