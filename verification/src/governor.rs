//! The rate-limit governor: how long a sweep pauses before it retries.

use vstd::prelude::*;

verus! {

/// Seconds between `now` and the instant at which the rate-limit window
/// reopens; zero when that instant has already passed.
pub open spec fn pause_seconds(reset_epoch_seconds: int, now_epoch_seconds: int) -> int {
    if reset_epoch_seconds > now_epoch_seconds {
        reset_epoch_seconds - now_epoch_seconds
    } else {
        0
    }
}

/// Computes the pause that a rate-limit signal asks for.
///
/// The reset time announced by the remote service is taken verbatim: the
/// pause is the distance from `now_epoch_seconds` to `reset_epoch_seconds`,
/// and zero when the clock is already at or past the reset time.
pub fn handle_rate_limit(reset_epoch_seconds: i64, now_epoch_seconds: i64) -> (sleep_duration: u64)
    ensures
        sleep_duration == pause_seconds(reset_epoch_seconds as int, now_epoch_seconds as int),
{
    if reset_epoch_seconds > now_epoch_seconds {
        let distance: i128 = reset_epoch_seconds as i128 - now_epoch_seconds as i128;
        distance as u64
    } else {
        0
    }
}

/// A pause is never negative, and waiting it out reaches the reset time
/// exactly when the reset time lies ahead.
pub proof fn lemma_pause_reaches_reset(reset_epoch_seconds: int, now_epoch_seconds: int)
    ensures
        pause_seconds(reset_epoch_seconds, now_epoch_seconds) >= 0,
        now_epoch_seconds + pause_seconds(reset_epoch_seconds, now_epoch_seconds)
            >= reset_epoch_seconds,
        reset_epoch_seconds >= now_epoch_seconds ==> now_epoch_seconds + pause_seconds(
            reset_epoch_seconds,
            now_epoch_seconds,
        ) == reset_epoch_seconds,
{
}

} // verus!
