//! The composite per-user record: profiles, schedule, and ledger together.
//! A record is created lazily on first write and always carries all three
//! parts.

use vstd::prelude::*;
use crate::mimic::{MimicUser, MimicUserView, mimic_user_wf, default_mimic_user};
use crate::schedule::{ScheduleUser, ScheduleUserView, events_sorted, default_schedule_user};
use crate::wallet::WalletUser;

verus! {

/// One user's whole record.
#[derive(Debug)]
pub struct User {
    pub mimic: MimicUser,
    pub schedule: ScheduleUser,
    pub wallet: WalletUser,
}

/// Mathematical model of a [`User`].
#[verifier::ext_equal]
pub struct UserView {
    pub mimic: MimicUserView,
    pub schedule: ScheduleUserView,
    pub wallet: WalletUser,
}

impl View for User {
    type V = UserView;

    open spec fn view(&self) -> UserView {
        UserView { mimic: self.mimic@, schedule: self.schedule@, wallet: self.wallet }
    }
}

/// Well-formedness of a whole record: every part well-formed.
pub open spec fn user_wf(v: UserView) -> bool {
    &&& mimic_user_wf(v.mimic)
    &&& events_sorted(v.schedule.events)
    &&& v.wallet.wf()
}

/// The model of the record a write materializes for a user seen for the
/// first time.
pub open spec fn default_user() -> UserView {
    UserView {
        mimic: default_mimic_user(),
        schedule: default_schedule_user(),
        wallet: WalletUser { tabs: 0, last_daily_ts: 0 },
    }
}

/// `u` with its profile part replaced.
pub open spec fn with_mimic(u: UserView, m: MimicUserView) -> UserView {
    UserView { mimic: m, schedule: u.schedule, wallet: u.wallet }
}

/// `u` with its schedule part replaced.
pub open spec fn with_schedule(u: UserView, s: ScheduleUserView) -> UserView {
    UserView { mimic: u.mimic, schedule: s, wallet: u.wallet }
}

/// `u` with its ledger part replaced.
pub open spec fn with_wallet(u: UserView, w: WalletUser) -> UserView {
    UserView { mimic: u.mimic, schedule: u.schedule, wallet: w }
}

impl User {
    /// Well-formedness of this record.
    pub open spec fn wf(self) -> bool {
        user_wf(self@)
    }

    /// A fresh record: no profiles, no events, an empty ledger.
    pub fn new() -> (r: Self)
        ensures
            r.wf(),
            r@ == default_user(),
    {
        let r = User { mimic: MimicUser::new(), schedule: ScheduleUser::new(), wallet: WalletUser::new() };
        proof {
            assert(r@ =~= default_user());
        }
        r
    }
}

impl Clone for User {
    fn clone(&self) -> (r: Self)
        ensures
            r@ == self@,
    {
        let r = User {
            mimic: self.mimic.clone(),
            schedule: self.schedule.clone(),
            wallet: self.wallet.clone(),
        };
        proof {
            assert(r@ =~= self@);
        }
        r
    }
}

} // verus!
