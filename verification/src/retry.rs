//! Classification of rename failures and the bounded-retry policy.
//!
//! A rename that fails because another process briefly holds the file
//! (OS codes 32 and 33, the sharing-violation and lock-violation
//! conditions) is transient and worth retrying after a fixed delay, up
//! to a fixed number of attempts; every other failure is permanent and
//! reported at once. The host performs the actual rename calls and the
//! delays; it consults [`should_retry`] after every failed attempt and
//! builds the terminal diagnostic with [`failure_message`].

use vstd::prelude::*;

use crate::numfmt::{decimal_i32, decimal_str};

verus! {

/// Total number of rename attempts allowed for one item (1 initial + 9 retries).
pub const RENAME_MAX_RETRIES: u32 = 10;

/// Fixed delay, in milliseconds, between two attempts on the same item.
pub const RENAME_RETRY_DELAY_MS: u64 = 180;

/// True for the OS error codes that indicate transient contention:
/// 32 (sharing violation) and 33 (lock violation).
pub open spec fn spec_is_transient(code: Option<i32>) -> bool {
    code == Some(32i32) || code == Some(33i32)
}

/// True when a failed attempt should be followed by another one: the
/// failure is transient and the attempt bound is not yet reached.
pub open spec fn spec_should_retry(attempt: u32, code: Option<i32>) -> bool {
    spec_is_transient(code) && attempt < RENAME_MAX_RETRIES
}

/// The message reported for a terminal rename failure: for a transient
/// code (retries exhausted) the retry diagnostic carrying the OS text and
/// the numeric code; for any other failure the OS text unchanged.
pub open spec fn spec_failure_message(code: Option<i32>, text: Seq<char>) -> Seq<char> {
    if spec_is_transient(code) {
        "file_in_use_after_retry:"@ + text + " (os error "@ + decimal_str(code->Some_0 as int)
            + ")"@
    } else {
        text
    }
}

/// True for the OS error codes treated as transient contention.
pub fn is_transient_os_code(code: Option<i32>) -> (r: bool)
    ensures
        r == spec_is_transient(code),
{
    match code {
        Some(32) => true,
        Some(33) => true,
        _ => false,
    }
}

/// Decides, after the failed attempt number `attempt` ended with OS code
/// `code`, whether the host should delay and try again.
pub fn should_retry(attempt: u32, code: Option<i32>) -> (r: bool)
    ensures
        r == spec_should_retry(attempt, code),
{
    is_transient_os_code(code) && attempt < RENAME_MAX_RETRIES
}

/// Builds the message for a terminal rename failure from the OS error
/// code and its textual description.
pub fn failure_message(code: Option<i32>, text: &str) -> (r: String)
    ensures
        r@ == spec_failure_message(code, text@),
{
    if is_transient_os_code(code) {
        let c: i32 = match code {
            Some(c) => c,
            None => 0,
        };
        let mut m = String::from_str("file_in_use_after_retry:");
        m.append(text);
        m.append(" (os error ");
        let num = decimal_i32(c);
        m.append(num.as_str());
        m.append(")");
        proof {
            assert(m@ =~= spec_failure_message(code, text@));
        }
        m
    } else {
        text.to_owned()
    }
}

} // verus!
