use pawthos::collab::{check_mm, APIKey, EmbedType};
use pawthos::command::{perform, perform_all, UserCommand};
use pawthos::data::Data;
use pawthos::persist::SnapshotSlot;
use pawthos::reminder::{arm, seed_timers};
use pawthos::schedule::ScheduleEvent;
use pawthos::user_db::UserDB;

fn fresh() -> Data {
    Data::new(UserDB::new())
}

const USER: u64 = 11;

#[test]
fn successful_write_queues_snapshot_of_the_new_state() {
    let mut data = fresh();
    let (r, snap) = data.mimic_add(USER, "Fox".to_string(), None);
    assert!(r.is_ok());
    let snap = snap.expect("a successful write yields a snapshot");
    assert_eq!(snap.entries.len(), 1);
    assert_eq!(snap.entries[0].id, USER);
    assert_eq!(snap.entries[0].user.mimic.mimics.len(), 1);
    assert_eq!(snap.entries[0].user.mimic.mimics[0].name, "Fox");
}

#[test]
fn failed_write_never_queues_a_snapshot() {
    let mut data = fresh();
    let (r, snap) = data.mimic_set_active(USER, "missing");
    assert!(r.is_err());
    assert!(snap.is_none());
    let (ok, snap) = perform(
        &mut data,
        USER,
        &UserCommand::MimicDelete { name: "missing".to_string() },
    );
    assert!(!ok);
    assert!(snap.is_none());
}

#[test]
fn commands_applied_in_order_give_the_sequential_outcome() {
    // The same writes, once through the command dispatcher in one batch
    // and once as direct sequential calls, leave equal records.
    let cmds = vec![
        UserCommand::MimicAdd { name: "Fox".to_string(), avatar_url: None },
        UserCommand::MimicAdd { name: "Wolf".to_string(), avatar_url: None },
        UserCommand::MimicSetActive { name: "Fox".to_string() },
        UserCommand::ScheduleAdd { name: "tea".to_string(), when: 99 },
        UserCommand::WalletCreditDaily { now: 5000 },
        UserCommand::WalletDebit { amount: 40 },
    ];
    let mut batched = fresh();
    perform_all(&mut batched, USER, &cmds);

    let mut sequential = fresh();
    sequential.mimic_add(USER, "Fox".to_string(), None);
    sequential.mimic_add(USER, "Wolf".to_string(), None);
    sequential.mimic_set_active(USER, "Fox");
    sequential.schedule_add(USER, "tea".to_string(), 99);
    sequential.wallet_credit_daily(USER, 5000);
    sequential.wallet_debit(USER, 40);

    for data in [&batched, &sequential] {
        assert_eq!(data.resolve_effective(USER, 1).unwrap().name, "Fox");
        assert_eq!(data.user_db.entries.len(), 1);
        let u = &data.user_db.entries[0].user;
        assert_eq!(u.mimic.mimics.len(), 2);
        assert_eq!(u.schedule.events.len(), 1);
        assert_eq!(u.schedule.events[0].name, "tea");
        assert_eq!(u.wallet.tabs, 60);
        assert_eq!(u.wallet.last_daily_ts, 5000);
    }
}

#[test]
fn snapshot_slot_coalesces_to_the_newest() {
    let mut slot = SnapshotSlot::new();
    let mut data = fresh();
    let (_, snap1) = data.mimic_add(USER, "Fox".to_string(), None);
    let (_, snap2) = data.mimic_add(USER, "Wolf".to_string(), None);
    slot.offer(snap1.unwrap());
    slot.offer(snap2.unwrap());
    let taken = slot.take().expect("the newest snapshot is pending");
    assert_eq!(taken.entries[0].user.mimic.mimics.len(), 2);
    assert!(slot.take().is_none());
}

#[test]
fn reminder_for_future_instant_sleeps_until_it() {
    let ev = ScheduleEvent { name: "tea".to_string(), when: 100, tz: "UTC".to_string() };
    let (timer, delay) = arm(USER, &ev, 40);
    assert_eq!(delay, 60);
    assert!(!timer.fired);
    assert_eq!(timer.instant, 100);
}

#[test]
fn reminder_for_past_instant_fires_at_once() {
    let ev = ScheduleEvent { name: "tea".to_string(), when: 10, tz: "UTC".to_string() };
    let (timer, delay) = arm(USER, &ev, 40);
    assert_eq!(delay, 0);
    assert!(!timer.fired);
}

#[test]
fn firing_a_reminder_yields_exactly_its_delivery() {
    let ev = ScheduleEvent { name: "tea time".to_string(), when: 100, tz: "UTC".to_string() };
    let (mut timer, _) = arm(USER, &ev, 40);
    let d = timer.fire();
    assert_eq!(d.user_id, USER);
    assert_eq!(d.text, "tea time");
    assert!(timer.fired);
}

#[test]
fn seeding_arms_one_timer_per_stored_event() {
    let mut data = fresh();
    data.schedule_add(1, "past".to_string(), 10);
    data.schedule_add(2, "future".to_string(), 100);
    let events = data.user_db.get_events();
    let timers = seed_timers(&events, 40);
    assert_eq!(timers.len(), 2);
    assert_eq!(timers[0].0.user_id, 1);
    assert_eq!(timers[0].1, 0);
    assert_eq!(timers[1].0.user_id, 2);
    assert_eq!(timers[1].1, 60);
}

#[test]
fn check_mm_accepts_only_zero() {
    assert!(check_mm(0).is_ok());
    assert_eq!(check_mm(5).unwrap_err(), 5);
}

#[test]
fn embed_type_distinguishes_reply_styles() {
    assert_ne!(EmbedType::Good, EmbedType::Bad);
    assert_ne!(EmbedType::Bad, EmbedType::Neutral);
    assert_eq!(EmbedType::Good, EmbedType::Good);
}

#[test]
fn api_key_carries_its_token() {
    let key = APIKey { token: "token-value".to_string() };
    assert_eq!(key.token, "token-value");
}
