use pawthos::data::Data;
use pawthos::schedule::ScheduleError;
use pawthos::user_db::UserDB;

fn fresh() -> Data {
    Data::new(UserDB::new())
}

const USER: u64 = 7;

fn event_instants(data: &Data) -> Vec<(u64, i64)> {
    data.user_db.get_events().iter().map(|(id, ev)| (*id, ev.when)).collect()
}

#[test]
fn add_keeps_events_sorted_by_instant() {
    let mut data = fresh();
    data.schedule_add(USER, "late".to_string(), 50);
    data.schedule_add(USER, "early".to_string(), 10);
    data.schedule_add(USER, "middle".to_string(), 30);
    let evs = data.user_db.get_events();
    let whens: Vec<i64> = evs.iter().map(|(_, e)| e.when).collect();
    assert_eq!(whens, vec![10, 30, 50]);
    let names: Vec<&str> = evs.iter().map(|(_, e)| e.name.as_str()).collect();
    assert_eq!(names, vec!["early", "middle", "late"]);
}

#[test]
fn add_with_equal_instant_lands_after_existing() {
    let mut data = fresh();
    data.schedule_add(USER, "first".to_string(), 20);
    data.schedule_add(USER, "second".to_string(), 20);
    let evs = data.user_db.get_events();
    let names: Vec<&str> = evs.iter().map(|(_, e)| e.name.as_str()).collect();
    assert_eq!(names, vec!["first", "second"]);
}

#[test]
fn listing_prunes_exactly_past_events_and_keeps_order() {
    let mut data = fresh();
    data.schedule_add(USER, "a".to_string(), 10);
    data.schedule_add(USER, "b".to_string(), 20);
    data.schedule_add(USER, "c".to_string(), 30);
    data.schedule_add(USER, "d".to_string(), 40);
    // The boundary event (instant == now) is pruned too.
    let (r, snap) = data.schedule_list(USER, 20);
    assert!(r.is_ok());
    assert!(snap.is_some());
    let names: Vec<String> =
        data.user_db.get_events().iter().map(|(_, e)| e.name.clone()).collect();
    assert_eq!(names, vec!["c".to_string(), "d".to_string()]);
}

#[test]
fn listing_shows_instants_in_the_events_zone() {
    let mut data = fresh();
    data.schedule_add(USER, "epoch".to_string(), 0);
    let (r, _) = data.schedule_list(USER, -1);
    let listing = r.unwrap();
    assert!(listing.starts_with("epoch : "));
    assert!(listing.contains("1970-01-01"));
    assert!(listing.ends_with("\n"));
}

#[test]
fn delete_removes_first_match_only() {
    let mut data = fresh();
    data.schedule_add(USER, "dup".to_string(), 10);
    data.schedule_add(USER, "dup".to_string(), 20);
    let (r, snap) = data.schedule_delete(USER, "dup");
    assert_eq!(r.unwrap(), "dup");
    assert!(snap.is_some());
    assert_eq!(event_instants(&data), vec![(USER, 20)]);
    let (r, snap) = data.schedule_delete(USER, "missing");
    assert_eq!(r.unwrap_err(), ScheduleError::EventNotFound);
    assert!(snap.is_none());
}

#[test]
fn set_timezone_validates_and_canonicalizes() {
    let mut data = fresh();
    let (r, snap) = data.schedule_set_tz(USER, "America/New_York");
    assert_eq!(r.unwrap(), "America/New_York");
    assert!(snap.is_some());
    assert_eq!(data.schedule_timezone(USER).unwrap(), "America/New_York");
    let (r, snap) = data.schedule_set_tz(USER, "Not/A_Zone");
    assert_eq!(r.unwrap_err(), ScheduleError::ParseError);
    assert!(snap.is_none());
    assert_eq!(data.schedule_timezone(USER).unwrap(), "America/New_York");
}

#[test]
fn timezone_read_never_creates_a_record() {
    let data = fresh();
    assert_eq!(data.schedule_timezone(USER).unwrap_err(), ScheduleError::NoUserFound);
    assert!(data.user_db.entries.is_empty());
}

#[test]
fn new_events_carry_the_timezone_set_before_them() {
    let mut data = fresh();
    data.schedule_set_tz(USER, "Europe/Berlin");
    let (r, _) = data.schedule_add(USER, "party".to_string(), 0);
    let ev = r.unwrap();
    assert_eq!(ev.tz, "Europe/Berlin");
    assert_eq!(ev.when, 0);
    // Epoch is 01:00 in Berlin (UTC+1, no summer time in January).
    let (r, _) = data.schedule_list(USER, -1);
    let listing = r.unwrap();
    assert!(listing.contains("01:00:00"));
}

#[test]
fn schedule_matching_names_filters_by_prefix() {
    let mut data = fresh();
    data.schedule_add(USER, "standup".to_string(), 10);
    data.schedule_add(USER, "star-gazing".to_string(), 20);
    data.schedule_add(USER, "dinner".to_string(), 30);
    let names = data.schedule_matching_names(USER, "sta");
    assert_eq!(names, vec!["standup".to_string(), "star-gazing".to_string()]);
    assert!(data.schedule_matching_names(9999, "sta").is_empty());
}

#[test]
fn get_events_walks_all_users_in_store_order() {
    let mut data = fresh();
    data.schedule_add(1, "one".to_string(), 10);
    data.schedule_add(2, "two".to_string(), 5);
    data.schedule_add(1, "one-more".to_string(), 3);
    let evs = data.user_db.get_events();
    let pairs: Vec<(u64, &str)> = evs.iter().map(|(id, e)| (*id, e.name.as_str())).collect();
    assert_eq!(pairs, vec![(1, "one-more"), (1, "one"), (2, "two")]);
}
