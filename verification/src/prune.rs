//! Deciding which members the administrative prune command removes.
//!
//! A member is pruned when the unverified role is their only role and they
//! joined more than three days ago. The three-day grace period is computed
//! through the calendar library; the decision over its result is verified.

use vstd::prelude::*;

verus! {

/// Does the member hold exactly the one role `role`?
pub open spec fn only_role(roles: Seq<u64>, role: u64) -> bool {
    roles =~= seq![role]
}

/// Relies on chrono::DateTime::<Utc>::from_timestamp and
/// DateTime::checked_add_days: on a UTC datetime, adding days keeps the
/// time of day, so the (non-leap) unix timestamp advances by exactly
/// 86400 seconds per day; either call returns None when the input or the
/// result is out of chrono's datetime range.
#[verifier::external_body]
fn add_days_to_unix(ts: i64, days: u64) -> (r: Option<i64>)
    ensures
        r is Some ==> r->0 == ts + days * 86400,
{
    match chrono::DateTime::<chrono::Utc>::from_timestamp(ts, 0) {
        Some(dt) => match dt.checked_add_days(chrono::Days::new(days)) {
            Some(moved) => Some(moved.timestamp()),
            None => None,
        },
        None => None,
    }
}

/// The decision over the computed grace deadline: prune exactly when the
/// unverified role is the member's only role and the deadline (when it
/// could be computed) lies strictly in the past.
pub fn prune_decision(roles: &Vec<u64>, prune_role: u64, grace_deadline: Option<i64>, now: i64)
    -> (b: bool)
    ensures
        b == (only_role(roles@, prune_role) && grace_deadline is Some && grace_deadline->0 < now),
{
    let only = roles.len() == 1 && roles[0] == prune_role;
    proof {
        if only {
            assert(roles@ =~= seq![prune_role]);
        } else {
            assert(!(roles@ =~= seq![prune_role]));
        }
    }
    match grace_deadline {
        Some(t) => only && t < now,
        None => false,
    }
}

/// Should this member be pruned? `joined_at_unix` is the unix timestamp of
/// when they joined, if known; `now_unix` the current unix timestamp. True
/// only for a member whose single role is the unverified one and whose
/// three-day grace period has passed; a member whose join time is unknown,
/// or whose grace deadline the calendar library cannot represent, is kept.
pub fn member_is_prunable(
    roles: &Vec<u64>,
    prune_role: u64,
    joined_at_unix: Option<i64>,
    now_unix: i64,
) -> (b: bool)
    ensures
        b ==> only_role(roles@, prune_role),
        b ==> joined_at_unix is Some,
        b ==> joined_at_unix->0 + 3 * 86400 < now_unix,
{
    match joined_at_unix {
        None => false,
        Some(ts) => {
            let deadline = add_days_to_unix(ts, 3);
            prune_decision(roles, prune_role, deadline, now_unix)
        },
    }
}

} // verus!
