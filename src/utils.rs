//! Sandbox names and the wall clock.

use rand::distributions::Alphanumeric;
use rand::Rng;
use std::time::{Duration, SystemTime, SystemTimeError};
use vstd::prelude::*;

verus! {

/// Number of characters in a sandbox name.
pub const NAME_LEN: usize = 16;

/// An ASCII letter or digit.
pub open spec fn is_alphanumeric(c: char) -> bool {
    ('a' <= c && c <= 'z') || ('A' <= c && c <= 'Z') || ('0' <= c && c <= '9')
}

/// A well-formed sandbox name: `NAME_LEN` ASCII letters and digits.
pub open spec fn is_sandbox_name(s: Seq<char>) -> bool {
    &&& s.len() == NAME_LEN
    &&& forall|i: int| 0 <= i < s.len() ==> is_alphanumeric(#[trigger] s[i])
}

/// Relies on rand's `Alphanumeric` distribution, drawn from the thread-local
/// generator: each sample is one of `A-Z`, `a-z`, `0-9`.
#[verifier::external_body]
fn draw_alphanumeric(len: usize) -> (r: String)
    ensures
        r@.len() == len,
        forall|i: int| 0 <= i < r@.len() ==> is_alphanumeric(#[trigger] r@[i]),
{
    rand::thread_rng().sample_iter(&Alphanumeric).take(len).map(char::from).collect()
}

/// A fresh random name for one sandbox.
///
/// Names are not checked against sandboxes that are alive already: with 62
/// choices per character a collision is improbable, and accepted as such.
pub fn random_string() -> (r: String)
    ensures
        is_sandbox_name(r@),
{
    draw_alphanumeric(NAME_LEN)
}

#[verifier::external_type_specification]
#[verifier::external_body]
pub struct ExSystemTime(SystemTime);

#[verifier::external_type_specification]
#[verifier::external_body]
pub struct ExSystemTimeError(SystemTimeError);

/// Relies on `SystemTime::now`: the current time of the system clock.
pub assume_specification[ SystemTime::now ]() -> SystemTime;

/// Relies on `Duration::as_millis`: the whole milliseconds of a duration.
pub assume_specification[ Duration::as_millis ](d: &Duration) -> u128;

/// Relies on `SystemTime::duration_since` against `UNIX_EPOCH`: fails when
/// the time lies before the epoch.
#[verifier::external_body]
fn since_epoch(t: &SystemTime) -> (r: Result<Duration, SystemTimeError>) {
    t.duration_since(std::time::UNIX_EPOCH)
}

/// Milliseconds since the Unix epoch, as read from an elapsed time in
/// milliseconds: `None` when the clock was before the epoch (`elapsed` is
/// `None`) or when the count does not fit an `i64`.
pub fn millis_from_elapsed(elapsed: Option<u128>) -> (r: Option<i64>)
    ensures
        r == (match elapsed {
            Some(ms) => if ms <= i64::MAX as u128 { Some(ms as i64) } else { None },
            None => None,
        }),
{
    match elapsed {
        Some(ms) => {
            if ms <= i64::MAX as u128 {
                Some(ms as i64)
            } else {
                None
            }
        },
        None => None,
    }
}

/// The current time in milliseconds since the Unix epoch, or `None` where
/// the system clock stands before the epoch or beyond the range of `i64`.
pub fn current_time_millis() -> (r: Option<i64>)
    ensures
        r matches Some(ms) ==> ms >= 0,
{
    let now = SystemTime::now();
    let elapsed = match since_epoch(&now) {
        Ok(d) => Some(d.as_millis()),
        Err(_) => None,
    };
    millis_from_elapsed(elapsed)
}

} // verus!
