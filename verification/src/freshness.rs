//! Freshness gate: a pure comparison of a claimed timestamp against the
//! current time within a tolerance.
//!
//! The accepted window is the open interval from `claimed - tolerance`,
//! clamped at zero by saturating subtraction, up to `claimed + tolerance`.
//! Both bounds are excluded, so the window is under `2 * tolerance` seconds
//! wide and behaves asymmetrically when `claimed < tolerance`.

use vstd::prelude::*;

verus! {

/// The tolerance, in seconds, that the request interceptor allows between
/// the claimed timestamp and the wall clock.
pub const TOLERANCE_SECONDS: u64 = 5;

/// The freshness policy: `now` is strictly below `claimed + tolerance` and
/// strictly above `claimed - tolerance` saturated at zero.
pub open spec fn spec_is_fresh(now: u64, claimed: u64, tolerance: u64) -> bool {
    &&& (now as int) < claimed as int + tolerance as int
    &&& (now as int) > (if claimed >= tolerance {
        claimed - tolerance
    } else {
        0
    })
}

/// Decides whether a claimed timestamp is fresh at time `now`, never
/// overflowing: a claim is stale once `now` reaches `claimed + tolerance`,
/// and too new while `now` is at or below `claimed - tolerance` saturated
/// at zero.
pub fn is_fresh(now: u64, claimed: u64, tolerance: u64) -> (r: bool)
    ensures
        r == spec_is_fresh(now, claimed, tolerance),
{
    let lower = if claimed >= tolerance {
        claimed - tolerance
    } else {
        0
    };
    if now <= lower {
        return false;
    }
    if now >= claimed && now - claimed >= tolerance {
        return false;
    }
    true
}

} // verus!
