use pawthos::data::Data;
use pawthos::user_db::UserDB;
use pawthos::wallet::{WalletError, DAILY_COOLDOWN_SECS, DAILY_REWARD_TABS};

fn fresh() -> Data {
    Data::new(UserDB::new())
}

const USER: u64 = 3;

#[test]
fn first_daily_always_succeeds() {
    let mut data = fresh();
    let (r, snap) = data.wallet_credit_daily(USER, 1000);
    assert_eq!(r.unwrap(), DAILY_REWARD_TABS);
    assert!(snap.is_some());
}

#[test]
fn second_daily_inside_cooldown_reports_exact_remaining_seconds() {
    let mut data = fresh();
    data.wallet_credit_daily(USER, 1000);
    let (r, snap) = data.wallet_credit_daily(USER, 1500);
    assert_eq!(
        r.unwrap_err(),
        WalletError::DailyOnCooldown { remaining_secs: DAILY_COOLDOWN_SECS - 500 }
    );
    assert!(snap.is_none());
    let (r, _) = data.wallet_credit_daily(USER, 1000 + DAILY_COOLDOWN_SECS - 1);
    assert_eq!(r.unwrap_err(), WalletError::DailyOnCooldown { remaining_secs: 1 });
}

#[test]
fn daily_at_exact_cooldown_boundary_succeeds() {
    let mut data = fresh();
    data.wallet_credit_daily(USER, 1000);
    let (r, snap) = data.wallet_credit_daily(USER, 1000 + DAILY_COOLDOWN_SECS);
    assert_eq!(r.unwrap(), 2 * DAILY_REWARD_TABS);
    assert!(snap.is_some());
}

#[test]
fn debit_fails_without_touching_a_short_balance() {
    let mut data = fresh();
    data.wallet_credit_daily(USER, 1000);
    let (r, snap) = data.wallet_debit(USER, DAILY_REWARD_TABS + 1);
    assert_eq!(r.unwrap_err(), WalletError::NotEnoughTabs);
    assert!(snap.is_none());
    let (r, snap) = data.wallet_debit(USER, 30);
    assert_eq!(r.unwrap(), DAILY_REWARD_TABS - 30);
    assert!(snap.is_some());
    let (r, _) = data.wallet_debit(USER, DAILY_REWARD_TABS - 30);
    assert_eq!(r.unwrap(), 0);
}

#[test]
fn failed_daily_still_materializes_the_record_without_snapshot() {
    let mut data = fresh();
    data.wallet_credit_daily(USER, 1000);
    assert_eq!(data.user_db.entries.len(), 1);
    let (r, snap) = data.wallet_debit(USER, 100000);
    assert!(r.is_err());
    assert!(snap.is_none());
    // The write materialized nothing new and the balance is untouched.
    assert_eq!(data.user_db.entries.len(), 1);
    let (r, _) = data.wallet_debit(USER, DAILY_REWARD_TABS);
    assert_eq!(r.unwrap(), 0);
}
