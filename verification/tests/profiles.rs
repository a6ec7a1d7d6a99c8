use pawthos::data::Data;
use pawthos::mimic::{AutoChoice, MimicError};
use pawthos::user_db::UserDB;

fn fresh() -> Data {
    Data::new(UserDB::new())
}

const USER: u64 = 42;

/// Scenario: empty store, add "Fox" (with avatar) and "Wolf" (without),
/// set "Fox" active; resolving channel 5 yields "Fox".
fn scenario_a() -> Data {
    let mut data = fresh();
    let (r, snap) = data.mimic_add(USER, "Fox".to_string(), Some("http://avatar/fox".to_string()));
    assert_eq!(r.unwrap(), "Fox");
    assert!(snap.is_some());
    let (r, _) = data.mimic_add(USER, "Wolf".to_string(), None);
    assert_eq!(r.unwrap(), "Wolf");
    let (r, _) = data.mimic_set_active(USER, "Fox");
    assert_eq!(r.unwrap(), "Fox");
    data
}

#[test]
fn scenario_a_resolves_active() {
    let data = scenario_a();
    let m = data.resolve_effective(USER, 5).unwrap();
    assert_eq!(m.name, "Fox");
    assert_eq!(m.avatar_url.as_deref(), Some("http://avatar/fox"));
}

#[test]
fn scenario_b_channel_override_wins_only_on_its_channel() {
    let mut data = scenario_a();
    let (r, snap) = data.mimic_set_channel_override(USER, 5, "Wolf");
    assert_eq!(r.unwrap(), "Wolf");
    assert!(snap.is_some());
    assert_eq!(data.resolve_effective(USER, 5).unwrap().name, "Wolf");
    assert_eq!(data.resolve_effective(USER, 6).unwrap().name, "Fox");
}

#[test]
fn scenario_c_deleting_active_clears_reference() {
    let mut data = scenario_a();
    let (r, _) = data.mimic_delete(USER, "Fox");
    assert_eq!(r.unwrap(), "Fox");
    let e = data.resolve_effective(USER, 5).unwrap_err();
    assert_eq!(e, MimicError::NoActiveMimic);
}

#[test]
fn read_on_empty_store_fails_without_creating() {
    let data = fresh();
    assert_eq!(data.resolve_effective(USER, 1).unwrap_err(), MimicError::NoUserFound);
    assert_eq!(data.mimic_list(USER).unwrap_err(), MimicError::NoUserFound);
    assert!(data.user_db.entries.is_empty());
}

#[test]
fn add_same_name_other_case_replaces_instead_of_duplicating() {
    let mut data = fresh();
    data.mimic_add(USER, "Fox".to_string(), None);
    data.mimic_add(USER, "FOX".to_string(), Some("http://avatar/new".to_string()));
    let list = data.mimic_list(USER).unwrap();
    assert_eq!(list.len(), 1);
    assert_eq!(list[0].0.name, "FOX");
    assert_eq!(list[0].0.avatar_url.as_deref(), Some("http://avatar/new"));
}

#[test]
fn set_active_lookup_is_exact_case() {
    let mut data = fresh();
    data.mimic_add(USER, "Fox".to_string(), None);
    let (r, snap) = data.mimic_set_active(USER, "fox");
    assert_eq!(r.unwrap_err(), MimicError::MimicNotFound);
    assert!(snap.is_none());
    let (r, _) = data.mimic_set_active(USER, "Fox");
    assert_eq!(r.unwrap(), "Fox");
}

#[test]
fn list_marks_exactly_the_active_mimic() {
    let mut data = scenario_a();
    let list = data.mimic_list(USER).unwrap();
    assert_eq!(list.len(), 2);
    assert_eq!(list[0].0.name, "Fox");
    assert!(list[0].1);
    assert_eq!(list[1].0.name, "Wolf");
    assert!(!list[1].1);
}

#[test]
fn delete_channel_override_round_trip() {
    let mut data = scenario_a();
    data.mimic_set_channel_override(USER, 7, "Wolf");
    let (r, snap) = data.mimic_delete_channel_override(USER, 7);
    assert_eq!(r.unwrap(), "Wolf");
    assert!(snap.is_some());
    let (r, snap) = data.mimic_delete_channel_override(USER, 7);
    assert_eq!(r.unwrap_err(), MimicError::NoChannelOverride);
    assert!(snap.is_none());
    assert_eq!(data.resolve_effective(USER, 7).unwrap().name, "Fox");
}

#[test]
fn delete_active_refused_while_auto_mode_on() {
    let mut data = scenario_a();
    let (r, _) = data.mimic_set_auto(USER, true);
    assert_eq!(r.unwrap(), true);
    let (r, snap) = data.mimic_delete_active(USER);
    assert_eq!(r.unwrap_err(), MimicError::DeleteActiveMimicWithAutoModeEnabled);
    assert!(snap.is_none());
    let (r, _) = data.mimic_set_auto(USER, false);
    assert_eq!(r.unwrap(), false);
    let (r, _) = data.mimic_delete_active(USER);
    assert_eq!(r.unwrap(), "Fox");
    let (r, _) = data.mimic_delete_active(USER);
    assert_eq!(r.unwrap_err(), MimicError::NoActiveMimic);
}

#[test]
fn auto_mode_needs_an_active_mimic() {
    let mut data = fresh();
    data.mimic_add(USER, "Fox".to_string(), None);
    let (r, _) = data.mimic_delete_active(USER);
    assert_eq!(r.unwrap(), "Fox");
    let (r, snap) = data.mimic_set_auto(USER, true);
    assert_eq!(r.unwrap_err(), MimicError::NoActiveMimic);
    assert!(snap.is_none());
}

#[test]
fn auto_resolve_respects_auto_mode() {
    let mut data = scenario_a();
    assert_eq!(data.auto_resolve(USER, 5).unwrap_err(), MimicError::AutoModeFalse);
    data.mimic_set_auto(USER, true);
    assert_eq!(data.auto_resolve(USER, 5).unwrap().name, "Fox");
    let (r, snap) = data.mimic_force_auto_off(USER);
    assert!(r.is_ok());
    assert!(snap.is_some());
    assert_eq!(data.auto_resolve(USER, 5).unwrap_err(), MimicError::AutoModeFalse);
}

#[test]
fn auto_resolve_after_active_deleted_reports_dangling_auto() {
    let mut data = scenario_a();
    data.mimic_set_auto(USER, true);
    data.mimic_delete(USER, "Fox");
    assert_eq!(data.auto_resolve(USER, 5).unwrap_err(), MimicError::NoActiveMimic);
}

#[test]
fn matching_names_filters_by_prefix() {
    let mut data = fresh();
    data.mimic_add(USER, "Foxglove".to_string(), None);
    data.mimic_add(USER, "Fox".to_string(), None);
    data.mimic_add(USER, "Wolf".to_string(), None);
    let names = data.mimic_matching_names(USER, "Fox");
    assert_eq!(names, vec!["Foxglove".to_string(), "Fox".to_string()]);
    let all = data.mimic_matching_names(USER, "");
    assert_eq!(all.len(), 3);
    assert!(data.mimic_matching_names(7777, "Fox").is_empty());
}

#[test]
fn auto_choice_maps_to_bool() {
    assert!(AutoChoice::Enable.enabled());
    assert!(!AutoChoice::Disable.enabled());
}

#[test]
fn writes_for_different_users_stay_separate() {
    let mut data = fresh();
    data.mimic_add(1, "Fox".to_string(), None);
    data.mimic_add(2, "Wolf".to_string(), None);
    assert_eq!(data.resolve_effective(1, 9).unwrap().name, "Fox");
    assert_eq!(data.resolve_effective(2, 9).unwrap().name, "Wolf");
    assert_eq!(data.user_db.entries.len(), 2);
}
