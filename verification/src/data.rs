//! The access arbiter: every domain operation against the record store
//! goes through a method here. A write materializes a default record for
//! an unseen user, applies one domain operation, and — only when the
//! operation succeeds — returns a full snapshot of the store for the
//! persistence writer. A failed operation never yields a snapshot. Reads
//! never create a record and fail with a not-found error instead.
//!
//! The surrounding process holds the store behind one store-wide
//! read/write lock and hands the returned snapshot to the persistence
//! queue after releasing it; the methods here are the whole critical
//! section, so a snapshot always reflects a single write's outcome.

use vstd::prelude::*;
use crate::mimic::{
    Mimic, MimicV, MimicError, add_mimic_effect, set_active_effect, set_channel_override_effect,
    set_auto_mode_effect, delete_mimic_effect, delete_channel_override_effect,
    delete_active_effect, force_auto_off_effect, spec_resolve_effective, spec_matching_names,
    has_name, has_channel, channel_index,
};
use crate::schedule::{
    ScheduleEvent, ScheduleError, add_event_effect, delete_event_effect, set_timezone_effect,
    prune_effect, made_event, spec_listing, spec_matching_event_names, has_event, tz_canon_of,
    parse_tz,
};
use crate::text::{deep_opt, deep_strings};
use crate::user::{with_mimic, with_schedule, with_wallet};
use crate::user_db::{UserDB, UserEntryV, db_has, db_index, db_user, db_write};
use crate::wallet::{
    WalletError, credit_daily_effect, debit_effect, daily_on_cooldown, DAILY_COOLDOWN_SECS,
    MAX_INSTANT,
};

verus! {

/// The shared state behind all command invocations: the record store.
#[derive(Debug)]
pub struct Data {
    pub user_db: UserDB,
}

/// The store after a profile add for `id`.
pub open spec fn mimic_add_db(s: Seq<UserEntryV>, id: u64, m: MimicV) -> Seq<UserEntryV> {
    db_write(s, id, with_mimic(db_user(s, id), add_mimic_effect(db_user(s, id).mimic, m)))
}

/// The store after `id` set its active mimic.
pub open spec fn mimic_set_active_db(s: Seq<UserEntryV>, id: u64, name: Seq<char>) -> Seq<
    UserEntryV,
> {
    db_write(s, id, with_mimic(db_user(s, id), set_active_effect(db_user(s, id).mimic, name)))
}

/// The store after `id` bound a mimic to a channel.
pub open spec fn mimic_set_channel_override_db(
    s: Seq<UserEntryV>,
    id: u64,
    channel: u64,
    name: Seq<char>,
) -> Seq<UserEntryV> {
    db_write(
        s,
        id,
        with_mimic(db_user(s, id), set_channel_override_effect(db_user(s, id).mimic, channel, name)),
    )
}

/// The store after `id` switched auto mode.
pub open spec fn mimic_set_auto_db(s: Seq<UserEntryV>, id: u64, enable: bool) -> Seq<UserEntryV> {
    db_write(s, id, with_mimic(db_user(s, id), set_auto_mode_effect(db_user(s, id).mimic, enable)))
}

/// The store after `id` deleted a mimic by name.
pub open spec fn mimic_delete_db(s: Seq<UserEntryV>, id: u64, name: Seq<char>) -> Seq<UserEntryV> {
    db_write(s, id, with_mimic(db_user(s, id), delete_mimic_effect(db_user(s, id).mimic, name)))
}

/// The store after `id` removed a channel override.
pub open spec fn mimic_delete_channel_override_db(
    s: Seq<UserEntryV>,
    id: u64,
    channel: u64,
) -> Seq<UserEntryV> {
    db_write(
        s,
        id,
        with_mimic(db_user(s, id), delete_channel_override_effect(db_user(s, id).mimic, channel)),
    )
}

/// The store after `id` unset its active mimic.
pub open spec fn mimic_delete_active_db(s: Seq<UserEntryV>, id: u64) -> Seq<UserEntryV> {
    db_write(s, id, with_mimic(db_user(s, id), delete_active_effect(db_user(s, id).mimic)))
}

/// The store after auto mode was forced off for `id`.
pub open spec fn mimic_force_auto_off_db(s: Seq<UserEntryV>, id: u64) -> Seq<UserEntryV> {
    db_write(s, id, with_mimic(db_user(s, id), force_auto_off_effect(db_user(s, id).mimic)))
}

/// The store after `id` added an event.
pub open spec fn schedule_add_db(s: Seq<UserEntryV>, id: u64, name: Seq<char>, when: i64) -> Seq<
    UserEntryV,
> {
    db_write(s, id, with_schedule(db_user(s, id), add_event_effect(db_user(s, id).schedule, name, when)))
}

/// The store after `id` listed its schedule, which prunes past events.
pub open spec fn schedule_list_db(s: Seq<UserEntryV>, id: u64, now: i64) -> Seq<UserEntryV> {
    db_write(s, id, with_schedule(db_user(s, id), prune_effect(db_user(s, id).schedule, now)))
}

/// The store after `id` deleted an event by name.
pub open spec fn schedule_delete_db(s: Seq<UserEntryV>, id: u64, name: Seq<char>) -> Seq<
    UserEntryV,
> {
    db_write(s, id, with_schedule(db_user(s, id), delete_event_effect(db_user(s, id).schedule, name)))
}

/// The store after `id` set its timezone: unchanged when the name is not
/// a recognised timezone, else the canonical name is stored.
pub open spec fn schedule_set_tz_db(s: Seq<UserEntryV>, id: u64, tz: Seq<char>) -> Seq<UserEntryV> {
    match tz_canon_of(tz) {
        Some(c) => db_write(
            s,
            id,
            with_schedule(db_user(s, id), set_timezone_effect(db_user(s, id).schedule, c)),
        ),
        None => s,
    }
}

/// The store after `id` claimed the daily credit.
pub open spec fn wallet_credit_db(s: Seq<UserEntryV>, id: u64, now: i64) -> Seq<UserEntryV> {
    db_write(s, id, with_wallet(db_user(s, id), credit_daily_effect(db_user(s, id).wallet, now)))
}

/// The store after `id` spent tabs.
pub open spec fn wallet_debit_db(s: Seq<UserEntryV>, id: u64, amount: i64) -> Seq<UserEntryV> {
    db_write(s, id, with_wallet(db_user(s, id), debit_effect(db_user(s, id).wallet, amount)))
}

impl Data {
    /// Well-formedness of the arbiter: the store is well-formed.
    pub open spec fn wf(self) -> bool {
        self.user_db.wf()
    }

    /// Wrap a loaded (or empty) store.
    pub fn new(user_db: UserDB) -> (r: Self)
        requires
            user_db.wf(),
        ensures
            r.wf(),
            r.user_db@ == user_db@,
    {
        Data { user_db }
    }

    /// Write: insert a mimic for `user_id` and make it active. Always
    /// succeeds and always yields a snapshot.
    pub fn mimic_add(&mut self, user_id: u64, name: String, avatar_url: Option<String>) -> (out: (
        Result<String, MimicError>,
        Option<UserDB>,
    ))
        requires
            old(self).wf(),
        ensures
            final(self).wf(),
            final(self).user_db@ == mimic_add_db(
                old(self).user_db@,
                user_id,
                MimicV { name: name@, avatar_url: deep_opt(avatar_url) },
            ),
            out.0 matches Ok(s) && s@ == name@,
            (out.1 is Some) == (out.0 is Ok),
            out.1 matches Some(db) ==> db@ == final(self).user_db@,
    {
        let ghost s0 = old(self).user_db@;
        let ghost mv = MimicV { name: name@, avatar_url: deep_opt(avatar_url) };
        let i = self.user_db.ensure_user(user_id);
        let mut entry = self.user_db.entries.remove(i);
        let m = Mimic { name, avatar_url };
        let r = entry.user.mimic.add_mimic(m);
        self.user_db.entries.insert(i, entry);
        proof {
            assert(self.user_db@ =~= mimic_add_db(s0, user_id, mv));
        }
        let snap = self.user_db.clone();
        (Ok(r), Some(snap))
    }

    /// Write: set `user_id`'s active mimic by exact name.
    pub fn mimic_set_active(&mut self, user_id: u64, name: &str) -> (out: (
        Result<String, MimicError>,
        Option<UserDB>,
    ))
        requires
            old(self).wf(),
        ensures
            final(self).wf(),
            final(self).user_db@ == mimic_set_active_db(old(self).user_db@, user_id, name@),
            out.0 is Ok <==> has_name(db_user(old(self).user_db@, user_id).mimic.mimics, name@),
            out.0 matches Ok(s) ==> s@ == name@,
            out.0 matches Err(e) ==> e == MimicError::MimicNotFound,
            (out.1 is Some) == (out.0 is Ok),
            out.1 matches Some(db) ==> db@ == final(self).user_db@,
    {
        let ghost s0 = old(self).user_db@;
        let i = self.user_db.ensure_user(user_id);
        let mut entry = self.user_db.entries.remove(i);
        let r = entry.user.mimic.set_active(name);
        self.user_db.entries.insert(i, entry);
        proof {
            assert(self.user_db@ =~= mimic_set_active_db(s0, user_id, name@));
        }
        match r {
            Ok(out) => {
                let snap = self.user_db.clone();
                (Ok(out), Some(snap))
            },
            Err(e) => (Err(e), None),
        }
    }

    /// Write: bind a mimic to a channel for `user_id`.
    pub fn mimic_set_channel_override(&mut self, user_id: u64, channel_id: u64, name: &str) -> (out: (
        Result<String, MimicError>,
        Option<UserDB>,
    ))
        requires
            old(self).wf(),
        ensures
            final(self).wf(),
            final(self).user_db@ == mimic_set_channel_override_db(
                old(self).user_db@,
                user_id,
                channel_id,
                name@,
            ),
            out.0 is Ok <==> has_name(db_user(old(self).user_db@, user_id).mimic.mimics, name@),
            out.0 matches Ok(s) ==> s@ == name@,
            out.0 matches Err(e) ==> e == MimicError::MimicNotFound,
            (out.1 is Some) == (out.0 is Ok),
            out.1 matches Some(db) ==> db@ == final(self).user_db@,
    {
        let ghost s0 = old(self).user_db@;
        let i = self.user_db.ensure_user(user_id);
        let mut entry = self.user_db.entries.remove(i);
        let r = entry.user.mimic.set_channel_override(channel_id, name);
        self.user_db.entries.insert(i, entry);
        proof {
            assert(self.user_db@ =~= mimic_set_channel_override_db(s0, user_id, channel_id, name@));
        }
        match r {
            Ok(out) => {
                let snap = self.user_db.clone();
                (Ok(out), Some(snap))
            },
            Err(e) => (Err(e), None),
        }
    }

    /// Write: switch auto mode for `user_id`; fails when no active mimic
    /// is set.
    pub fn mimic_set_auto(&mut self, user_id: u64, enable: bool) -> (out: (
        Result<bool, MimicError>,
        Option<UserDB>,
    ))
        requires
            old(self).wf(),
        ensures
            final(self).wf(),
            final(self).user_db@ == mimic_set_auto_db(old(self).user_db@, user_id, enable),
            out.0 is Ok <==> db_user(old(self).user_db@, user_id).mimic.active_mimic is Some,
            out.0 matches Ok(b) ==> b == enable,
            out.0 matches Err(e) ==> e == MimicError::NoActiveMimic,
            (out.1 is Some) == (out.0 is Ok),
            out.1 matches Some(db) ==> db@ == final(self).user_db@,
    {
        let ghost s0 = old(self).user_db@;
        let i = self.user_db.ensure_user(user_id);
        let mut entry = self.user_db.entries.remove(i);
        let r = entry.user.mimic.set_auto_mode(enable);
        self.user_db.entries.insert(i, entry);
        proof {
            assert(self.user_db@ =~= mimic_set_auto_db(s0, user_id, enable));
        }
        match r {
            Ok(out) => {
                let snap = self.user_db.clone();
                (Ok(out), Some(snap))
            },
            Err(e) => (Err(e), None),
        }
    }

    /// Write: delete `user_id`'s mimic by exact name; clears the active
    /// reference when it pointed at that name.
    pub fn mimic_delete(&mut self, user_id: u64, name: &str) -> (out: (
        Result<String, MimicError>,
        Option<UserDB>,
    ))
        requires
            old(self).wf(),
        ensures
            final(self).wf(),
            final(self).user_db@ == mimic_delete_db(old(self).user_db@, user_id, name@),
            out.0 is Ok <==> has_name(db_user(old(self).user_db@, user_id).mimic.mimics, name@),
            out.0 matches Ok(s) ==> s@ == name@,
            out.0 matches Err(e) ==> e == MimicError::MimicNotFound,
            (out.1 is Some) == (out.0 is Ok),
            out.1 matches Some(db) ==> db@ == final(self).user_db@,
    {
        let ghost s0 = old(self).user_db@;
        let i = self.user_db.ensure_user(user_id);
        let mut entry = self.user_db.entries.remove(i);
        let r = entry.user.mimic.delete_mimic(name);
        self.user_db.entries.insert(i, entry);
        proof {
            assert(self.user_db@ =~= mimic_delete_db(s0, user_id, name@));
        }
        match r {
            Ok(out) => {
                let snap = self.user_db.clone();
                (Ok(out), Some(snap))
            },
            Err(e) => (Err(e), None),
        }
    }

    /// Write: remove `user_id`'s override for a channel.
    pub fn mimic_delete_channel_override(&mut self, user_id: u64, channel_id: u64) -> (out: (
        Result<String, MimicError>,
        Option<UserDB>,
    ))
        requires
            old(self).wf(),
        ensures
            final(self).wf(),
            final(self).user_db@ == mimic_delete_channel_override_db(
                old(self).user_db@,
                user_id,
                channel_id,
            ),
            out.0 is Ok <==> has_channel(db_user(old(self).user_db@, user_id).mimic.overrides, channel_id),
            out.0 matches Ok(s) ==> s@ == db_user(old(self).user_db@, user_id).mimic.overrides[
                channel_index(db_user(old(self).user_db@, user_id).mimic.overrides, channel_id)
            ].mimic.name,
            out.0 matches Err(e) ==> e == MimicError::NoChannelOverride,
            (out.1 is Some) == (out.0 is Ok),
            out.1 matches Some(db) ==> db@ == final(self).user_db@,
    {
        let ghost s0 = old(self).user_db@;
        let i = self.user_db.ensure_user(user_id);
        let mut entry = self.user_db.entries.remove(i);
        let r = entry.user.mimic.delete_channel_override(channel_id);
        self.user_db.entries.insert(i, entry);
        proof {
            assert(self.user_db@ =~= mimic_delete_channel_override_db(s0, user_id, channel_id));
        }
        match r {
            Ok(out) => {
                let snap = self.user_db.clone();
                (Ok(out), Some(snap))
            },
            Err(e) => (Err(e), None),
        }
    }

    /// Write: unset `user_id`'s active mimic; refused while auto mode is
    /// on.
    pub fn mimic_delete_active(&mut self, user_id: u64) -> (out: (
        Result<String, MimicError>,
        Option<UserDB>,
    ))
        requires
            old(self).wf(),
        ensures
            final(self).wf(),
            final(self).user_db@ == mimic_delete_active_db(old(self).user_db@, user_id),
            out.0 is Ok <==> !db_user(old(self).user_db@, user_id).mimic.auto_mode
                && db_user(old(self).user_db@, user_id).mimic.active_mimic is Some,
            out.0 matches Ok(s) ==> db_user(old(self).user_db@, user_id).mimic.active_mimic
                matches Some(a) && s@ == a.name,
            out.0 matches Err(e) ==> e == if db_user(old(self).user_db@, user_id).mimic.auto_mode {
                MimicError::DeleteActiveMimicWithAutoModeEnabled
            } else {
                MimicError::NoActiveMimic
            },
            (out.1 is Some) == (out.0 is Ok),
            out.1 matches Some(db) ==> db@ == final(self).user_db@,
    {
        let ghost s0 = old(self).user_db@;
        let i = self.user_db.ensure_user(user_id);
        let mut entry = self.user_db.entries.remove(i);
        let r = entry.user.mimic.delete_active();
        self.user_db.entries.insert(i, entry);
        proof {
            assert(self.user_db@ =~= mimic_delete_active_db(s0, user_id));
        }
        match r {
            Ok(out) => {
                let snap = self.user_db.clone();
                (Ok(out), Some(snap))
            },
            Err(e) => (Err(e), None),
        }
    }

    /// Write: switch auto mode off for `user_id` unconditionally; used to
    /// reconcile a record whose auto mode dangles without an active mimic.
    pub fn mimic_force_auto_off(&mut self, user_id: u64) -> (out: (
        Result<(), MimicError>,
        Option<UserDB>,
    ))
        requires
            old(self).wf(),
        ensures
            final(self).wf(),
            final(self).user_db@ == mimic_force_auto_off_db(old(self).user_db@, user_id),
            out.0 is Ok,
            (out.1 is Some) == (out.0 is Ok),
            out.1 matches Some(db) ==> db@ == final(self).user_db@,
    {
        let ghost s0 = old(self).user_db@;
        let i = self.user_db.ensure_user(user_id);
        let mut entry = self.user_db.entries.remove(i);
        entry.user.mimic.force_auto_off();
        self.user_db.entries.insert(i, entry);
        proof {
            assert(self.user_db@ =~= mimic_force_auto_off_db(s0, user_id));
        }
        let snap = self.user_db.clone();
        (Ok(()), Some(snap))
    }

    /// Write: add an event to `user_id`'s schedule; returns the created
    /// event for the reminder scheduler. Always succeeds.
    pub fn schedule_add(&mut self, user_id: u64, name: String, when: i64) -> (out: (
        Result<ScheduleEvent, ScheduleError>,
        Option<UserDB>,
    ))
        requires
            old(self).wf(),
        ensures
            final(self).wf(),
            final(self).user_db@ == schedule_add_db(old(self).user_db@, user_id, name@, when),
            out.0 matches Ok(ev) && ev@ == made_event(
                db_user(old(self).user_db@, user_id).schedule,
                name@,
                when,
            ),
            (out.1 is Some) == (out.0 is Ok),
            out.1 matches Some(db) ==> db@ == final(self).user_db@,
    {
        let ghost s0 = old(self).user_db@;
        let ghost nv = name@;
        let i = self.user_db.ensure_user(user_id);
        let mut entry = self.user_db.entries.remove(i);
        let ev = entry.user.schedule.add_event(name, when);
        self.user_db.entries.insert(i, entry);
        proof {
            assert(self.user_db@ =~= schedule_add_db(s0, user_id, nv, when));
        }
        let snap = self.user_db.clone();
        (Ok(ev), Some(snap))
    }

    /// Write: prune `user_id`'s past events, then return the schedule as
    /// text. Always succeeds; the prune makes it a write.
    pub fn schedule_list(&mut self, user_id: u64, now: i64) -> (out: (
        Result<String, ScheduleError>,
        Option<UserDB>,
    ))
        requires
            old(self).wf(),
        ensures
            final(self).wf(),
            final(self).user_db@ == schedule_list_db(old(self).user_db@, user_id, now),
            out.0 matches Ok(t) && t@ == spec_listing(
                prune_effect(db_user(old(self).user_db@, user_id).schedule, now).events,
            ),
            (out.1 is Some) == (out.0 is Ok),
            out.1 matches Some(db) ==> db@ == final(self).user_db@,
    {
        let ghost s0 = old(self).user_db@;
        let i = self.user_db.ensure_user(user_id);
        let mut entry = self.user_db.entries.remove(i);
        entry.user.schedule.prune_past_events(now);
        let listing = entry.user.schedule.list_events();
        self.user_db.entries.insert(i, entry);
        proof {
            assert(self.user_db@ =~= schedule_list_db(s0, user_id, now));
        }
        let snap = self.user_db.clone();
        (Ok(listing), Some(snap))
    }

    /// Write: delete the first event of a name from `user_id`'s schedule.
    pub fn schedule_delete(&mut self, user_id: u64, name: &str) -> (out: (
        Result<String, ScheduleError>,
        Option<UserDB>,
    ))
        requires
            old(self).wf(),
        ensures
            final(self).wf(),
            final(self).user_db@ == schedule_delete_db(old(self).user_db@, user_id, name@),
            out.0 is Ok <==> has_event(db_user(old(self).user_db@, user_id).schedule.events, name@),
            out.0 matches Ok(s) ==> s@ == name@,
            out.0 matches Err(e) ==> e == ScheduleError::EventNotFound,
            (out.1 is Some) == (out.0 is Ok),
            out.1 matches Some(db) ==> db@ == final(self).user_db@,
    {
        let ghost s0 = old(self).user_db@;
        let i = self.user_db.ensure_user(user_id);
        let mut entry = self.user_db.entries.remove(i);
        let r = entry.user.schedule.delete_event(name);
        self.user_db.entries.insert(i, entry);
        proof {
            assert(self.user_db@ =~= schedule_delete_db(s0, user_id, name@));
        }
        match r {
            Ok(out) => {
                let snap = self.user_db.clone();
                (Ok(out), Some(snap))
            },
            Err(e) => (Err(e), None),
        }
    }

    /// Write: set `user_id`'s display timezone. An unrecognised name is
    /// rejected before the store is touched: no record is created, no
    /// snapshot is taken.
    pub fn schedule_set_tz(&mut self, user_id: u64, tz: &str) -> (out: (
        Result<String, ScheduleError>,
        Option<UserDB>,
    ))
        requires
            old(self).wf(),
        ensures
            final(self).wf(),
            final(self).user_db@ == schedule_set_tz_db(old(self).user_db@, user_id, tz@),
            out.0 is Ok <==> tz_canon_of(tz@) is Some,
            out.0 matches Ok(c) ==> tz_canon_of(tz@) == Some(c@),
            out.0 matches Err(e) ==> e == ScheduleError::ParseError,
            (out.1 is Some) == (out.0 is Ok),
            out.1 matches Some(db) ==> db@ == final(self).user_db@,
    {
        match parse_tz(tz) {
            Some(canon) => {
                let ghost s0 = old(self).user_db@;
                let ghost cv = canon@;
                let out_name = canon.clone();
                let i = self.user_db.ensure_user(user_id);
                let mut entry = self.user_db.entries.remove(i);
                entry.user.schedule.set_timezone(canon);
                self.user_db.entries.insert(i, entry);
                proof {
                    assert(self.user_db@ =~= db_write(
                        s0,
                        user_id,
                        with_schedule(
                            db_user(s0, user_id),
                            set_timezone_effect(db_user(s0, user_id).schedule, cv),
                        ),
                    ));
                }
                let snap = self.user_db.clone();
                (Ok(out_name), Some(snap))
            },
            None => (Err(ScheduleError::ParseError), None),
        }
    }

    /// Write: claim the daily credit for `user_id` at instant `now`. The
    /// first claim succeeds; a claim inside the cooldown window fails with
    /// the seconds left; a claim at or past the boundary succeeds.
    pub fn wallet_credit_daily(&mut self, user_id: u64, now: i64) -> (out: (
        Result<i64, WalletError>,
        Option<UserDB>,
    ))
        requires
            old(self).wf(),
            0 <= now <= MAX_INSTANT,
        ensures
            final(self).wf(),
            final(self).user_db@ == wallet_credit_db(old(self).user_db@, user_id, now),
            out.0 is Ok <==> !daily_on_cooldown(db_user(old(self).user_db@, user_id).wallet, now),
            out.0 matches Ok(balance) ==> balance == credit_daily_effect(
                db_user(old(self).user_db@, user_id).wallet,
                now,
            ).tabs,
            out.0 matches Err(e) ==> e == (WalletError::DailyOnCooldown {
                remaining_secs: (DAILY_COOLDOWN_SECS - (now - db_user(
                    old(self).user_db@,
                    user_id,
                ).wallet.last_daily_ts)) as i64,
            }),
            (out.1 is Some) == (out.0 is Ok),
            out.1 matches Some(db) ==> db@ == final(self).user_db@,
    {
        let ghost s0 = old(self).user_db@;
        let i = self.user_db.ensure_user(user_id);
        let mut entry = self.user_db.entries.remove(i);
        let r = entry.user.wallet.credit_daily(now);
        self.user_db.entries.insert(i, entry);
        proof {
            assert(self.user_db@ =~= wallet_credit_db(s0, user_id, now));
        }
        match r {
            Ok(balance) => {
                let snap = self.user_db.clone();
                (Ok(balance), Some(snap))
            },
            Err(e) => (Err(e), None),
        }
    }

    /// Write: spend `amount` tabs from `user_id`'s balance; fails without
    /// a snapshot when the balance is short.
    pub fn wallet_debit(&mut self, user_id: u64, amount: i64) -> (out: (
        Result<i64, WalletError>,
        Option<UserDB>,
    ))
        requires
            old(self).wf(),
            0 <= amount,
        ensures
            final(self).wf(),
            final(self).user_db@ == wallet_debit_db(old(self).user_db@, user_id, amount),
            out.0 is Ok <==> db_user(old(self).user_db@, user_id).wallet.tabs >= amount,
            out.0 matches Ok(balance) ==> balance == debit_effect(
                db_user(old(self).user_db@, user_id).wallet,
                amount,
            ).tabs,
            out.0 matches Err(e) ==> e == WalletError::NotEnoughTabs,
            (out.1 is Some) == (out.0 is Ok),
            out.1 matches Some(db) ==> db@ == final(self).user_db@,
    {
        let ghost s0 = old(self).user_db@;
        let i = self.user_db.ensure_user(user_id);
        let mut entry = self.user_db.entries.remove(i);
        let r = entry.user.wallet.debit(amount);
        self.user_db.entries.insert(i, entry);
        proof {
            assert(self.user_db@ =~= wallet_debit_db(s0, user_id, amount));
        }
        match r {
            Ok(balance) => {
                let snap = self.user_db.clone();
                (Ok(balance), Some(snap))
            },
            Err(e) => (Err(e), None),
        }
    }

    /// Read: the mimic `user_id` speaks as in `channel_id` — the channel
    /// override if bound, else the active mimic. Fails with `NoUserFound`
    /// when the user has no record (reads never create one), and with
    /// `NoActiveMimic` when nothing resolves.
    pub fn resolve_effective(&self, user_id: u64, channel_id: u64) -> (r: Result<
        Mimic,
        MimicError,
    >)
        requires
            self.wf(),
        ensures
            !db_has(self.user_db@, user_id) ==> r == Err::<Mimic, MimicError>(
                MimicError::NoUserFound,
            ),
            db_has(self.user_db@, user_id) ==> {
                let v = self.user_db@[db_index(self.user_db@, user_id)].user.mimic;
                &&& (r is Ok) == (spec_resolve_effective(v, channel_id) is Some)
                &&& (r matches Ok(m) ==> Some(m@) == spec_resolve_effective(v, channel_id))
                &&& (r matches Err(e) ==> e == MimicError::NoActiveMimic)
            },
    {
        match self.user_db.get_user(user_id) {
            Some(u) => u.mimic.get_active_mimic(channel_id),
            None => Err(MimicError::NoUserFound),
        }
    }

    /// Read: the mimic the auto-mode relay should use for a message from
    /// `user_id` in `channel_id`; refused while the user has no record or
    /// auto mode is off.
    pub fn auto_resolve(&self, user_id: u64, channel_id: u64) -> (r: Result<Mimic, MimicError>)
        requires
            self.wf(),
        ensures
            !db_has(self.user_db@, user_id) ==> r == Err::<Mimic, MimicError>(
                MimicError::NoUserFound,
            ),
            db_has(self.user_db@, user_id) ==> {
                let v = self.user_db@[db_index(self.user_db@, user_id)].user.mimic;
                &&& (!v.auto_mode ==> r == Err::<Mimic, MimicError>(MimicError::AutoModeFalse))
                &&& (v.auto_mode ==> {
                    &&& (r is Ok) == (spec_resolve_effective(v, channel_id) is Some)
                    &&& (r matches Ok(m) ==> Some(m@) == spec_resolve_effective(v, channel_id))
                    &&& (r matches Err(e) ==> e == MimicError::NoActiveMimic)
                })
            },
    {
        match self.user_db.get_user(user_id) {
            Some(u) => u.mimic.auto_resolve(channel_id),
            None => Err(MimicError::NoUserFound),
        }
    }

    /// Read: every mimic of `user_id` with an active-flag, in stored
    /// order; fails with `NoUserFound` when the user has no record.
    pub fn mimic_list(&self, user_id: u64) -> (r: Result<Vec<(Mimic, bool)>, MimicError>)
        requires
            self.wf(),
        ensures
            (r is Ok) == db_has(self.user_db@, user_id),
            r matches Ok(l) ==> {
                let v = self.user_db@[db_index(self.user_db@, user_id)].user.mimic;
                &&& l@.len() == v.mimics.len()
                &&& forall|i: int| 0 <= i < l@.len() ==> (#[trigger] l@[i]).0@ == v.mimics[i]
                    && (l@[i].1 == (v.active_mimic matches Some(a) && a.name == v.mimics[i].name))
            },
            r matches Err(e) ==> e == MimicError::NoUserFound,
    {
        match self.user_db.get_user(user_id) {
            Some(u) => Ok(u.mimic.list_profiles()),
            None => Err(MimicError::NoUserFound),
        }
    }

    /// Read: the names of `user_id`'s mimics starting with `partial`; a
    /// user without a record has none.
    pub fn mimic_matching_names(&self, user_id: u64, partial: &str) -> (r: Vec<String>)
        requires
            self.wf(),
        ensures
            deep_strings(r@) == if db_has(self.user_db@, user_id) {
                spec_matching_names(
                    self.user_db@[db_index(self.user_db@, user_id)].user.mimic.mimics,
                    partial@,
                )
            } else {
                Seq::<Seq<char>>::empty()
            },
    {
        match self.user_db.get_user(user_id) {
            Some(u) => u.mimic.matching_names(partial),
            None => {
                let r: Vec<String> = Vec::new();
                proof {
                    assert(deep_strings(r@) =~= Seq::<Seq<char>>::empty());
                }
                r
            },
        }
    }

    /// Read: the names of `user_id`'s events starting with `partial`; a
    /// user without a record has none.
    pub fn schedule_matching_names(&self, user_id: u64, partial: &str) -> (r: Vec<String>)
        requires
            self.wf(),
        ensures
            deep_strings(r@) == if db_has(self.user_db@, user_id) {
                spec_matching_event_names(
                    self.user_db@[db_index(self.user_db@, user_id)].user.schedule.events,
                    partial@,
                )
            } else {
                Seq::<Seq<char>>::empty()
            },
    {
        match self.user_db.get_user(user_id) {
            Some(u) => u.schedule.matching_event_names(partial),
            None => {
                let r: Vec<String> = Vec::new();
                proof {
                    assert(deep_strings(r@) =~= Seq::<Seq<char>>::empty());
                }
                r
            },
        }
    }

    /// Read: `user_id`'s display timezone; fails with `NoUserFound` when
    /// the user has no record.
    pub fn schedule_timezone(&self, user_id: u64) -> (r: Result<String, ScheduleError>)
        requires
            self.wf(),
        ensures
            (r is Ok) == db_has(self.user_db@, user_id),
            r matches Ok(t) ==> t@ == self.user_db@[db_index(
                self.user_db@,
                user_id,
            )].user.schedule.timezone,
            r matches Err(e) ==> e == ScheduleError::NoUserFound,
    {
        match self.user_db.get_user(user_id) {
            Some(u) => Ok(u.schedule.timezone.clone()),
            None => Err(ScheduleError::NoUserFound),
        }
    }
}

} // verus!
