use vstd::prelude::*;
use crate::errors::ErrorCode;
use crate::pubkey::Pubkey;

verus! {

/// One developer's deployment counters.
#[derive(Clone, Copy, Debug, PartialEq, Eq)]
pub struct UserDeployStats {
    /// The developer; all zero while the record is unassigned.
    pub user: Pubkey,
    /// Sessions opened and not yet ended.
    pub active_sessions: u32,
    /// Deployments requested since `last_reset`.
    pub daily_deploys: u32,
    /// Deployments requested in all.
    pub total_deploys: u64,
    /// When the daily counter was last set to zero.
    pub last_reset: i64,
}

impl UserDeployStats {
    /// Seconds after which the daily counter starts over.
    pub const DAY_SECONDS: i64 = 86400;

    /// The record as a request at time `now` finds it, before it is counted:
    /// an unassigned record is taken over by `developer` with all counters at
    /// zero, and the daily counter starts over once more than a day has
    /// passed since the last reset.
    pub open spec fn refreshed(self, developer: Pubkey, now: i64) -> UserDeployStats {
        let owned = if self.user.is_unassigned() {
            UserDeployStats {
                user: developer,
                active_sessions: 0,
                daily_deploys: 0,
                total_deploys: 0,
                last_reset: now,
            }
        } else {
            self
        };
        if now - owned.last_reset > Self::DAY_SECONDS {
            UserDeployStats { daily_deploys: 0, last_reset: now, ..owned }
        } else {
            owned
        }
    }

    /// Whether counting one more request would overflow a counter.
    pub open spec fn count_overflows(self, developer: Pubkey, now: i64) -> bool {
        let fresh = self.refreshed(developer, now);
        ||| fresh.active_sessions == u32::MAX
        ||| fresh.daily_deploys == u32::MAX
        ||| fresh.total_deploys == u64::MAX
    }

    /// The record after one more request by `developer` at time `now`.
    pub open spec fn after_request(self, developer: Pubkey, now: i64) -> UserDeployStats {
        let fresh = self.refreshed(developer, now);
        UserDeployStats {
            active_sessions: (fresh.active_sessions + 1) as u32,
            daily_deploys: (fresh.daily_deploys + 1) as u32,
            total_deploys: (fresh.total_deploys + 1) as u64,
            ..fresh
        }
    }

    /// Counts one more request by `developer` at time `now`: the session, the
    /// day's and the lifetime counters each go up by one, the day's counter
    /// starting over when more than 86,400 seconds have passed since the last
    /// reset. Refused, with the record unchanged, when a counter is full.
    pub fn record_request(&mut self, developer: Pubkey, now: i64) -> (r: Result<(), ErrorCode>)
        ensures
            match r {
                Ok(_) => !old(self).count_overflows(developer, now) && *final(self) == old(self).after_request(developer, now),
                Err(e) => e == ErrorCode::CalculationOverflow && old(self).count_overflows(
                    developer,
                    now,
                ) && *final(self) == *old(self),
            },
    {
        let mut fresh = *self;
        if fresh.user.is_default() {
            fresh.user = developer;
            fresh.active_sessions = 0;
            fresh.daily_deploys = 0;
            fresh.total_deploys = 0;
            fresh.last_reset = now;
        }
        if now as i128 - fresh.last_reset as i128 > Self::DAY_SECONDS as i128 {
            fresh.daily_deploys = 0;
            fresh.last_reset = now;
        }
        if fresh.active_sessions == u32::MAX || fresh.daily_deploys == u32::MAX
            || fresh.total_deploys == u64::MAX {
            return Err(ErrorCode::CalculationOverflow);
        }
        fresh.active_sessions = fresh.active_sessions + 1;
        fresh.daily_deploys = fresh.daily_deploys + 1;
        fresh.total_deploys = fresh.total_deploys + 1;
        *self = fresh;
        Ok(())
    }
}

} // verus!
