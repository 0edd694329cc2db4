//! The cooldown gate: whether an action is still rate-limited.

use vstd::prelude::*;

verus! {

/// An action last done at `then` is still on cooldown at `now`: less than
/// `cooldown` has passed. All three are in milliseconds. A `then` of zero
/// stands for a member who never acted, and such a member is on no cooldown.
pub open spec fn cooldown_active(now: int, then: int, cooldown: int) -> bool {
    then != 0 && now - then < cooldown
}

/// What is left of a cooldown at `now`, zero once it is over and zero for a
/// member who never acted.
pub open spec fn cooldown_left(now: int, then: int, cooldown: int) -> int {
    if cooldown_active(now, then, cooldown) {
        cooldown - (now - then)
    } else {
        0
    }
}

/// Right after an action any cooldown is active. The clock is not at zero:
/// that timestamp stands for no action at all.
pub proof fn lemma_cooldown_begins(now: int, cooldown: int)
    requires
        cooldown > 0,
        now != 0,
    ensures
        cooldown_active(now, now, cooldown),
{
}

/// One millisecond past its length a cooldown is over.
pub proof fn lemma_cooldown_ends(now: int, cooldown: int)
    ensures
        !cooldown_active(now, now - cooldown - 1, cooldown),
{
}

/// A member who never acted is on no cooldown, whatever the clock and the
/// cooldown's length are, and has nothing to wait.
pub proof fn lemma_never_acted(now: int, cooldown: int)
    ensures
        !cooldown_active(now, 0, cooldown),
        cooldown_left(now, 0, cooldown) == 0,
{
}

/// Whether an action last done at `timestamp_then` is on cooldown at
/// `timestamp_now`. A `timestamp_then` of zero is never on cooldown.
pub fn is_cooldowned(timestamp_now: u64, timestamp_then: u64, cooldown: u64) -> (active: bool)
    ensures
        active == cooldown_active(timestamp_now as int, timestamp_then as int, cooldown as int),
        timestamp_then == 0 ==> !active,
{
    timestamp_then != 0 && (timestamp_now as i128) - (timestamp_then as i128) < (cooldown as i128)
}

/// The milliseconds left of a cooldown, zero once it is over.
pub fn cooldown_remaining(timestamp_now: u64, timestamp_then: u64, cooldown: u64) -> (left: u128)
    ensures
        left == cooldown_left(timestamp_now as int, timestamp_then as int, cooldown as int),
        timestamp_then == 0 ==> left == 0,
{
    let passed: i128 = (timestamp_now as i128) - (timestamp_then as i128);
    if timestamp_then != 0 && passed < (cooldown as i128) {
        ((cooldown as i128) - passed) as u128
    } else {
        0
    }
}

/// The time of the last action, zero for a member who never acted.
pub open spec fn last_action(last: Option<u64>) -> int {
    match last {
        Some(at) => at as int,
        None => 0,
    }
}

/// Whether a member who last acted at `last` is, at `now`, within a cooldown
/// of `cooldown_seconds`. A member without a timestamp, or with one of zero,
/// never acted and is on no cooldown.
pub fn on_cooldown(now: u64, last: Option<u64>, cooldown_seconds: i64) -> (active: bool)
    ensures
        active == cooldown_active(now as int, last_action(last), cooldown_seconds * 1000),
        last_action(last) == 0 ==> !active,
{
    let then: u64 = match last {
        Some(at) => at,
        None => 0,
    };
    then != 0 && (now as i128) - (then as i128) < (cooldown_seconds as i128) * 1000
}

/// The milliseconds that a member who last acted at `last` has to wait at
/// `now` under a cooldown of `cooldown_seconds`, zero once it is over.
pub fn cooldown_wait(now: u64, last: Option<u64>, cooldown_seconds: i64) -> (left: u128)
    ensures
        left == cooldown_left(now as int, last_action(last), cooldown_seconds * 1000),
        last_action(last) == 0 ==> left == 0,
{
    let then: u64 = match last {
        Some(at) => at,
        None => 0,
    };
    let passed: i128 = (now as i128) - (then as i128);
    let cooldown: i128 = (cooldown_seconds as i128) * 1000;
    if then != 0 && passed < cooldown {
        (cooldown - passed) as u128
    } else {
        0
    }
}

} // verus!
