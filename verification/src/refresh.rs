//! Token lifecycle: what one tick of the refresh loop must do, and how a
//! refresh outcome is installed.
//!
//! The refresh loop runs concurrently with the session client. Each tick it
//! refreshes the shared token when its remaining validity is below a
//! low-water mark, and validates it unconditionally. A failed refresh leaves
//! the token untouched: stale but usable, with the failure surfaced to the
//! caller.

use vstd::prelude::*;

verus! {

/// Seconds between two ticks of the refresh loop.
pub const TICK_INTERVAL_SECS: u64 = 30;

/// Low-water mark in seconds: a token whose remaining validity is below this
/// is refreshed on the next tick.
pub const LOW_WATER_SECS: u64 = 60;

/// A bearer credential with its expiry, as the core reads it. The outside
/// token provider constructs these; the core only compares expiries and
/// swaps values.
pub struct Token {
    pub access_token: String,
    pub refresh_token: String,
    /// Seconds since the provider's epoch at which the credential expires.
    pub expires_at: u64,
}

/// What one tick of the refresh loop must do.
pub struct TickPlan {
    /// Perform a refresh call before validating.
    pub refresh: bool,
    /// Perform a validation call. Always set: every tick validates.
    pub validate: bool,
}

/// Remaining validity in seconds of a token expiring at `expires_at`,
/// observed at `now`. An already-expired token has none left.
pub open spec fn remaining_validity(expires_at: u64, now: u64) -> int {
    if expires_at >= now {
        expires_at - now
    } else {
        0
    }
}

/// Decide one tick of the refresh loop: exactly one refresh call when the
/// remaining validity is under the low-water mark, none otherwise, and one
/// validation call either way.
pub fn plan_tick(now: u64, expires_at: u64) -> (plan: TickPlan)
    ensures
        plan.validate,
        plan.refresh <==> remaining_validity(expires_at, now) < LOW_WATER_SECS,
{
    let remaining: u64 = if expires_at >= now {
        expires_at - now
    } else {
        0
    };
    TickPlan { refresh: remaining < LOW_WATER_SECS, validate: true }
}

/// Outcome of one refresh call against the outside token provider.
pub enum RefreshOutcome {
    /// The provider handed back a replacement credential.
    Refreshed(Token),
    /// The refresh call failed.
    Failed,
}

/// Install the outcome of a refresh call: a replacement credential is
/// adopted whole; on failure the token is left untouched (stale but usable)
/// and the failure is reported to the caller.
pub fn apply_refresh(token: &mut Token, outcome: RefreshOutcome) -> (ok: bool)
    ensures
        match outcome {
            RefreshOutcome::Refreshed(fresh) => ok && *final(token) == fresh,
            RefreshOutcome::Failed => !ok && *final(token) == *old(token),
        },
{
    match outcome {
        RefreshOutcome::Refreshed(fresh) => {
            *token = fresh;
            true
        }
        RefreshOutcome::Failed => false,
    }
}

} // verus!
