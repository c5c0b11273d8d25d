//! How long the user has been away, and whether that still counts as present.

use vstd::prelude::*;

verus! {

/// A user who has been idle for this many whole minutes, or longer, is not reported.
pub const IDLE_THRESHOLD_MINUTES: u64 = 2;

/// Seconds in one minute.
pub const SECONDS_PER_MINUTE: u64 = 60;

/// The whole minutes in `seconds`; a started minute does not count.
pub open spec fn whole_minutes(seconds: u64) -> int {
    seconds as int / SECONDS_PER_MINUTE as int
}

/// Whether a user idle for `seconds` still counts as present.
pub open spec fn counts_as_present(seconds: u64) -> bool {
    whole_minutes(seconds) < IDLE_THRESHOLD_MINUTES
}

/// Asks `user_idle::UserIdle::get_time` for the time since the user's last input and hands
/// back its whole seconds, or `None` where the platform gave an error.
///
/// Nothing is claimed of the number: it is whatever the window system says at the moment of
/// the call. One thing lies outside any contract: on X11 the crate asks the default display
/// and does not guard against there being none.
#[verifier::external_body]
pub(crate) fn read_idle_seconds() -> (reading: Option<u64>) {
    match user_idle::UserIdle::get_time() {
        Ok(idle) => Some(idle.as_seconds()),
        Err(_) => None,
    }
}

/// Decides whether a user who has been idle for `idle_seconds` is reported as present:
/// exactly while the idle time is below 120 seconds.
pub fn is_present(idle_seconds: u64) -> (present: bool)
    ensures
        present == counts_as_present(idle_seconds),
        present == (idle_seconds < 120),
{
    idle_seconds / SECONDS_PER_MINUTE < IDLE_THRESHOLD_MINUTES
}

} // verus!
