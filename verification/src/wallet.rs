//! Per-user currency ledger: an integer balance and a cooldown-gated
//! periodic credit.

use vstd::prelude::*;

verus! {

/// Seconds a user must wait after a daily credit before the next one.
pub const DAILY_COOLDOWN_SECS: i64 = 86400;

/// Tabs granted by one successful daily credit.
pub const DAILY_REWARD_TABS: i64 = 100;

/// Largest instant the ledger accepts; keeps one cooldown window of headroom
/// above any stored claim instant, so cooldown arithmetic never overflows.
pub const MAX_INSTANT: i64 = i64::MAX - DAILY_COOLDOWN_SECS;

/// Ledger failures surfaced to the caller of the wallet view.
#[derive(Debug, PartialEq, Eq)]
pub enum WalletError {
    /// A read found no record for the user.
    NoUserFound,
    /// A debit asked for more tabs than the balance holds.
    NotEnoughTabs,
    /// The daily credit was claimed again before the cooldown elapsed.
    DailyOnCooldown { remaining_secs: i64 },
}

/// The per-user ledger: a tab balance and the instant of the last daily
/// claim (`0` means the daily credit was never claimed).
#[derive(Debug)]
pub struct WalletUser {
    pub tabs: i64,
    pub last_daily_ts: i64,
}

/// Whether `now` still falls inside the cooldown window after the last claim.
pub open spec fn daily_on_cooldown(w: WalletUser, now: i64) -> bool {
    w.last_daily_ts != 0 && now - w.last_daily_ts < DAILY_COOLDOWN_SECS
}

/// The ledger after `credit_daily` at `now`: unchanged while on cooldown,
/// otherwise the reward is added (saturating at the balance's maximum) and
/// the claim instant is set to `now`.
pub open spec fn credit_daily_effect(w: WalletUser, now: i64) -> WalletUser {
    if daily_on_cooldown(w, now) {
        w
    } else {
        WalletUser {
            tabs: if w.tabs + DAILY_REWARD_TABS <= i64::MAX {
                (w.tabs + DAILY_REWARD_TABS) as i64
            } else {
                i64::MAX
            },
            last_daily_ts: now,
        }
    }
}

/// The ledger after `debit(amount)`: unchanged when the balance is short,
/// otherwise the amount is subtracted.
pub open spec fn debit_effect(w: WalletUser, amount: i64) -> WalletUser {
    if w.tabs < amount {
        w
    } else {
        WalletUser { tabs: (w.tabs - amount) as i64, last_daily_ts: w.last_daily_ts }
    }
}

impl Clone for WalletUser {
    fn clone(&self) -> (r: Self)
        ensures
            r == *self,
    {
        WalletUser { tabs: self.tabs, last_daily_ts: self.last_daily_ts }
    }
}

impl WalletUser {
    /// Well-formedness: the balance never goes negative, and the claim
    /// instant stays in the range where cooldown arithmetic cannot overflow.
    pub open spec fn wf(self) -> bool {
        &&& 0 <= self.tabs
        &&& 0 <= self.last_daily_ts <= MAX_INSTANT
    }

    /// A fresh ledger: empty balance, daily never claimed.
    pub fn new() -> (r: Self)
        ensures
            r.wf(),
            r.tabs == 0,
            r.last_daily_ts == 0,
    {
        WalletUser { tabs: 0, last_daily_ts: 0 }
    }

    /// Claim the daily reward at instant `now`.
    ///
    /// The first claim always succeeds; a claim before the cooldown has
    /// elapsed fails with the exact number of seconds left; a claim at or
    /// after the cooldown boundary succeeds again.
    pub fn credit_daily(&mut self, now: i64) -> (r: Result<i64, WalletError>)
        requires
            old(self).wf(),
            0 <= now <= MAX_INSTANT,
        ensures
            final(self).wf(),
            *final(self) == credit_daily_effect(*old(self), now),
            r is Ok <==> !daily_on_cooldown(*old(self), now),
            r matches Ok(balance) ==> balance == final(self).tabs,
            r matches Err(e) ==> e == (WalletError::DailyOnCooldown {
                remaining_secs: (DAILY_COOLDOWN_SECS - (now - old(self).last_daily_ts)) as i64,
            }),
    {
        if self.last_daily_ts != 0 && now - self.last_daily_ts < DAILY_COOLDOWN_SECS {
            let remaining: i64 = DAILY_COOLDOWN_SECS - (now - self.last_daily_ts);
            return Err(WalletError::DailyOnCooldown { remaining_secs: remaining });
        }
        if self.tabs <= i64::MAX - DAILY_REWARD_TABS {
            self.tabs = self.tabs + DAILY_REWARD_TABS;
        } else {
            self.tabs = i64::MAX;
        }
        self.last_daily_ts = now;
        Ok(self.tabs)
    }

    /// Spend `amount` tabs; fails without touching the balance when the
    /// balance is too small.
    pub fn debit(&mut self, amount: i64) -> (r: Result<i64, WalletError>)
        requires
            old(self).wf(),
            0 <= amount,
        ensures
            final(self).wf(),
            *final(self) == debit_effect(*old(self), amount),
            r is Ok <==> old(self).tabs >= amount,
            r matches Ok(balance) ==> balance == final(self).tabs,
            r matches Err(e) ==> e == WalletError::NotEnoughTabs,
    {
        if self.tabs < amount {
            return Err(WalletError::NotEnoughTabs);
        }
        self.tabs = self.tabs - amount;
        Ok(self.tabs)
    }
}

} // verus!
