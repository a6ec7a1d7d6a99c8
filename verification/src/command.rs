//! Writes as data: every mutating operation of the arbiter, reified as a
//! command. One spec function gives each command's effect on the store,
//! and `perform_all` proves that executing writes one after another —
//! which is all the store-wide exclusive lock ever allows — leaves the
//! store at the fold of those effects in completion order. That is the
//! serializability guarantee for any interleaving of writers.

use vstd::prelude::*;
use crate::data::{
    Data, mimic_add_db, mimic_set_active_db, mimic_set_channel_override_db, mimic_set_auto_db,
    mimic_delete_db, mimic_delete_channel_override_db, mimic_delete_active_db,
    mimic_force_auto_off_db, schedule_add_db, schedule_list_db, schedule_delete_db,
    schedule_set_tz_db, wallet_credit_db, wallet_debit_db,
};
use crate::mimic::{MimicV, has_name, has_channel};
use crate::schedule::{has_event, tz_canon_of};
use crate::text::deep_opt;
use crate::user_db::{UserDB, UserEntryV, db_user};
use crate::wallet::{daily_on_cooldown, MAX_INSTANT};

verus! {

/// One write against a user's record.
#[derive(Debug)]
pub enum UserCommand {
    MimicAdd { name: String, avatar_url: Option<String> },
    MimicSetActive { name: String },
    MimicSetChannelOverride { channel_id: u64, name: String },
    MimicSetAuto { enable: bool },
    MimicDelete { name: String },
    MimicDeleteChannelOverride { channel_id: u64 },
    MimicDeleteActive,
    MimicForceAutoOff,
    ScheduleAdd { name: String, when: i64 },
    ScheduleList { now: i64 },
    ScheduleDelete { name: String },
    ScheduleSetTz { tz: String },
    WalletCreditDaily { now: i64 },
    WalletDebit { amount: i64 },
}

/// The machine-limit conditions a command's arguments must meet.
pub open spec fn command_ok(cmd: UserCommand) -> bool {
    match cmd {
        UserCommand::WalletCreditDaily { now } => 0 <= now <= MAX_INSTANT,
        UserCommand::WalletDebit { amount } => 0 <= amount,
        _ => true,
    }
}

/// The store after `cmd` is performed for `id`.
pub open spec fn apply_write(s: Seq<UserEntryV>, id: u64, cmd: UserCommand) -> Seq<UserEntryV> {
    match cmd {
        UserCommand::MimicAdd { name, avatar_url } => mimic_add_db(
            s,
            id,
            MimicV { name: name@, avatar_url: deep_opt(avatar_url) },
        ),
        UserCommand::MimicSetActive { name } => mimic_set_active_db(s, id, name@),
        UserCommand::MimicSetChannelOverride { channel_id, name } => mimic_set_channel_override_db(
            s,
            id,
            channel_id,
            name@,
        ),
        UserCommand::MimicSetAuto { enable } => mimic_set_auto_db(s, id, enable),
        UserCommand::MimicDelete { name } => mimic_delete_db(s, id, name@),
        UserCommand::MimicDeleteChannelOverride { channel_id } => mimic_delete_channel_override_db(
            s,
            id,
            channel_id,
        ),
        UserCommand::MimicDeleteActive => mimic_delete_active_db(s, id),
        UserCommand::MimicForceAutoOff => mimic_force_auto_off_db(s, id),
        UserCommand::ScheduleAdd { name, when } => schedule_add_db(s, id, name@, when),
        UserCommand::ScheduleList { now } => schedule_list_db(s, id, now),
        UserCommand::ScheduleDelete { name } => schedule_delete_db(s, id, name@),
        UserCommand::ScheduleSetTz { tz } => schedule_set_tz_db(s, id, tz@),
        UserCommand::WalletCreditDaily { now } => wallet_credit_db(s, id, now),
        UserCommand::WalletDebit { amount } => wallet_debit_db(s, id, amount),
    }
}

/// Whether `cmd` succeeds against the store `s` — exactly the cases in
/// which the arbiter yields a snapshot for it.
pub open spec fn write_accepted(s: Seq<UserEntryV>, id: u64, cmd: UserCommand) -> bool {
    match cmd {
        UserCommand::MimicAdd { .. } => true,
        UserCommand::MimicSetActive { name } => has_name(db_user(s, id).mimic.mimics, name@),
        UserCommand::MimicSetChannelOverride { channel_id: _, name } => has_name(
            db_user(s, id).mimic.mimics,
            name@,
        ),
        UserCommand::MimicSetAuto { .. } => db_user(s, id).mimic.active_mimic is Some,
        UserCommand::MimicDelete { name } => has_name(db_user(s, id).mimic.mimics, name@),
        UserCommand::MimicDeleteChannelOverride { channel_id } => has_channel(
            db_user(s, id).mimic.overrides,
            channel_id,
        ),
        UserCommand::MimicDeleteActive => !db_user(s, id).mimic.auto_mode && db_user(
            s,
            id,
        ).mimic.active_mimic is Some,
        UserCommand::MimicForceAutoOff => true,
        UserCommand::ScheduleAdd { .. } => true,
        UserCommand::ScheduleList { .. } => true,
        UserCommand::ScheduleDelete { name } => has_event(db_user(s, id).schedule.events, name@),
        UserCommand::ScheduleSetTz { tz } => tz_canon_of(tz@) is Some,
        UserCommand::WalletCreditDaily { now } => !daily_on_cooldown(db_user(s, id).wallet, now),
        UserCommand::WalletDebit { amount } => db_user(s, id).wallet.tabs >= amount,
    }
}

/// The store after the commands in `cmds` are performed for `id`, first
/// to last: their completion order.
pub open spec fn apply_writes(s: Seq<UserEntryV>, id: u64, cmds: Seq<UserCommand>) -> Seq<
    UserEntryV,
>
    decreases cmds.len(),
{
    if cmds.len() == 0 {
        s
    } else {
        apply_write(apply_writes(s, id, cmds.drop_last()), id, cmds.last())
    }
}

/// Law: appending one more write to a batch applies it on top of the
/// batch's outcome — folding writes in completion order composes.
pub proof fn lemma_apply_writes_snoc(
    s: Seq<UserEntryV>,
    id: u64,
    cmds: Seq<UserCommand>,
    cmd: UserCommand,
)
    ensures
        apply_writes(s, id, cmds.push(cmd)) == apply_write(apply_writes(s, id, cmds), id, cmd),
{
    assert(cmds.push(cmd).drop_last() =~= cmds);
    assert(cmds.push(cmd).last() == cmd);
}

/// Law: one write for `id` leaves every other user's record exactly as
/// it was, and keeps the store's ids unique.
pub proof fn lemma_write_isolation(s: Seq<UserEntryV>, id: u64, cmd: UserCommand, other: u64)
    requires
        crate::user_db::ids_unique(s),
        other != id,
    ensures
        crate::user_db::ids_unique(apply_write(s, id, cmd)),
        crate::user_db::db_has(apply_write(s, id, cmd), other) == crate::user_db::db_has(s, other),
        crate::user_db::db_has(s, other) ==> apply_write(s, id, cmd)[crate::user_db::db_index(
            apply_write(s, id, cmd),
            other,
        )] == s[crate::user_db::db_index(s, other)],
{
    let u0 = db_user(s, id);
    match cmd {
        UserCommand::MimicAdd { name, avatar_url } => {
            crate::user_db::lemma_db_write_isolation(
                s,
                id,
                crate::user::with_mimic(
                    u0,
                    crate::mimic::add_mimic_effect(
                        u0.mimic,
                        MimicV { name: name@, avatar_url: deep_opt(avatar_url) },
                    ),
                ),
                other,
            );
        },
        UserCommand::MimicSetActive { name } => {
            crate::user_db::lemma_db_write_isolation(
                s,
                id,
                crate::user::with_mimic(u0, crate::mimic::set_active_effect(u0.mimic, name@)),
                other,
            );
        },
        UserCommand::MimicSetChannelOverride { channel_id, name } => {
            crate::user_db::lemma_db_write_isolation(
                s,
                id,
                crate::user::with_mimic(
                    u0,
                    crate::mimic::set_channel_override_effect(u0.mimic, channel_id, name@),
                ),
                other,
            );
        },
        UserCommand::MimicSetAuto { enable } => {
            crate::user_db::lemma_db_write_isolation(
                s,
                id,
                crate::user::with_mimic(u0, crate::mimic::set_auto_mode_effect(u0.mimic, enable)),
                other,
            );
        },
        UserCommand::MimicDelete { name } => {
            crate::user_db::lemma_db_write_isolation(
                s,
                id,
                crate::user::with_mimic(u0, crate::mimic::delete_mimic_effect(u0.mimic, name@)),
                other,
            );
        },
        UserCommand::MimicDeleteChannelOverride { channel_id } => {
            crate::user_db::lemma_db_write_isolation(
                s,
                id,
                crate::user::with_mimic(
                    u0,
                    crate::mimic::delete_channel_override_effect(u0.mimic, channel_id),
                ),
                other,
            );
        },
        UserCommand::MimicDeleteActive => {
            crate::user_db::lemma_db_write_isolation(
                s,
                id,
                crate::user::with_mimic(u0, crate::mimic::delete_active_effect(u0.mimic)),
                other,
            );
        },
        UserCommand::MimicForceAutoOff => {
            crate::user_db::lemma_db_write_isolation(
                s,
                id,
                crate::user::with_mimic(u0, crate::mimic::force_auto_off_effect(u0.mimic)),
                other,
            );
        },
        UserCommand::ScheduleAdd { name, when } => {
            crate::user_db::lemma_db_write_isolation(
                s,
                id,
                crate::user::with_schedule(
                    u0,
                    crate::schedule::add_event_effect(u0.schedule, name@, when),
                ),
                other,
            );
        },
        UserCommand::ScheduleList { now } => {
            crate::user_db::lemma_db_write_isolation(
                s,
                id,
                crate::user::with_schedule(u0, crate::schedule::prune_effect(u0.schedule, now)),
                other,
            );
        },
        UserCommand::ScheduleDelete { name } => {
            crate::user_db::lemma_db_write_isolation(
                s,
                id,
                crate::user::with_schedule(
                    u0,
                    crate::schedule::delete_event_effect(u0.schedule, name@),
                ),
                other,
            );
        },
        UserCommand::ScheduleSetTz { tz } => {
            match tz_canon_of(tz@) {
                Some(c) => {
                    crate::user_db::lemma_db_write_isolation(
                        s,
                        id,
                        crate::user::with_schedule(
                            u0,
                            crate::schedule::set_timezone_effect(u0.schedule, c),
                        ),
                        other,
                    );
                },
                None => {},
            }
        },
        UserCommand::WalletCreditDaily { now } => {
            crate::user_db::lemma_db_write_isolation(
                s,
                id,
                crate::user::with_wallet(
                    u0,
                    crate::wallet::credit_daily_effect(u0.wallet, now),
                ),
                other,
            );
        },
        UserCommand::WalletDebit { amount } => {
            crate::user_db::lemma_db_write_isolation(
                s,
                id,
                crate::user::with_wallet(u0, crate::wallet::debit_effect(u0.wallet, amount)),
                other,
            );
        },
    }
}

/// Law: a whole batch of writes for `id` leaves every other user's record
/// exactly as it was.
pub proof fn lemma_writes_isolation(
    s: Seq<UserEntryV>,
    id: u64,
    cmds: Seq<UserCommand>,
    other: u64,
)
    requires
        crate::user_db::ids_unique(s),
        other != id,
    ensures
        crate::user_db::ids_unique(apply_writes(s, id, cmds)),
        crate::user_db::db_has(apply_writes(s, id, cmds), other) == crate::user_db::db_has(
            s,
            other,
        ),
        crate::user_db::db_has(s, other) ==> apply_writes(s, id, cmds)[crate::user_db::db_index(
            apply_writes(s, id, cmds),
            other,
        )] == s[crate::user_db::db_index(s, other)],
    decreases cmds.len(),
{
    if cmds.len() > 0 {
        lemma_writes_isolation(s, id, cmds.drop_last(), other);
        lemma_write_isolation(apply_writes(s, id, cmds.drop_last()), id, cmds.last(), other);
    }
}

/// Perform one write command for `user_id`. The outcome says whether the
/// domain operation succeeded, and the snapshot is present exactly in
/// that case — a rejected write never queues one.
pub fn perform(data: &mut Data, user_id: u64, cmd: &UserCommand) -> (out: (bool, Option<UserDB>))
    requires
        old(data).wf(),
        command_ok(*cmd),
    ensures
        final(data).wf(),
        final(data).user_db@ == apply_write(old(data).user_db@, user_id, *cmd),
        out.0 == write_accepted(old(data).user_db@, user_id, *cmd),
        (out.1 is Some) == out.0,
        out.1 matches Some(db) ==> db@ == final(data).user_db@,
{
    match cmd {
        UserCommand::MimicAdd { name, avatar_url } => {
            let av = match avatar_url {
                Some(u) => Some(u.clone()),
                None => None,
            };
            let (r, snap) = data.mimic_add(user_id, name.clone(), av);
            (r.is_ok(), snap)
        },
        UserCommand::MimicSetActive { name } => {
            let (r, snap) = data.mimic_set_active(user_id, name.as_str());
            (r.is_ok(), snap)
        },
        UserCommand::MimicSetChannelOverride { channel_id, name } => {
            let (r, snap) = data.mimic_set_channel_override(user_id, *channel_id, name.as_str());
            (r.is_ok(), snap)
        },
        UserCommand::MimicSetAuto { enable } => {
            let (r, snap) = data.mimic_set_auto(user_id, *enable);
            (r.is_ok(), snap)
        },
        UserCommand::MimicDelete { name } => {
            let (r, snap) = data.mimic_delete(user_id, name.as_str());
            (r.is_ok(), snap)
        },
        UserCommand::MimicDeleteChannelOverride { channel_id } => {
            let (r, snap) = data.mimic_delete_channel_override(user_id, *channel_id);
            (r.is_ok(), snap)
        },
        UserCommand::MimicDeleteActive => {
            let (r, snap) = data.mimic_delete_active(user_id);
            (r.is_ok(), snap)
        },
        UserCommand::MimicForceAutoOff => {
            let (r, snap) = data.mimic_force_auto_off(user_id);
            (r.is_ok(), snap)
        },
        UserCommand::ScheduleAdd { name, when } => {
            let (r, snap) = data.schedule_add(user_id, name.clone(), *when);
            (r.is_ok(), snap)
        },
        UserCommand::ScheduleList { now } => {
            let (r, snap) = data.schedule_list(user_id, *now);
            (r.is_ok(), snap)
        },
        UserCommand::ScheduleDelete { name } => {
            let (r, snap) = data.schedule_delete(user_id, name.as_str());
            (r.is_ok(), snap)
        },
        UserCommand::ScheduleSetTz { tz } => {
            let (r, snap) = data.schedule_set_tz(user_id, tz.as_str());
            (r.is_ok(), snap)
        },
        UserCommand::WalletCreditDaily { now } => {
            let (r, snap) = data.wallet_credit_daily(user_id, *now);
            (r.is_ok(), snap)
        },
        UserCommand::WalletDebit { amount } => {
            let (r, snap) = data.wallet_debit(user_id, *amount);
            (r.is_ok(), snap)
        },
    }
}

/// Law: performing writes one after another — the only thing the
/// store-wide exclusive lock ever allows — leaves the store at the fold
/// of their effects in completion order. In particular the final record
/// of `user_id` is what applying the writes in that order produces.
pub fn perform_all(data: &mut Data, user_id: u64, cmds: &Vec<UserCommand>)
    requires
        old(data).wf(),
        forall|i: int| 0 <= i < cmds@.len() ==> command_ok(#[trigger] cmds@[i]),
    ensures
        final(data).wf(),
        final(data).user_db@ == apply_writes(old(data).user_db@, user_id, cmds@),
{
    let ghost s0 = old(data).user_db@;
    let n = cmds.len();
    let mut i: usize = 0;
    while i < n
        invariant
            data.wf(),
            n == cmds@.len(),
            0 <= i <= n,
            forall|k: int| 0 <= k < cmds@.len() ==> command_ok(#[trigger] cmds@[k]),
            data.user_db@ == apply_writes(s0, user_id, cmds@.take(i as int)),
        decreases n - i,
    {
        proof {
            assert(cmds@.take(i + 1).drop_last() =~= cmds@.take(i as int));
            assert(cmds@.take(i + 1).last() == cmds@[i as int]);
        }
        let (_ok, _snap) = perform(data, user_id, &cmds[i]);
        i = i + 1;
    }
    proof {
        assert(cmds@.take(n as int) =~= cmds@);
    }
}

} // verus!
