use systemd_fail_notifications::dbus_systemd::dbus::UnitStatusRaw;
use systemd_fail_notifications::state::ChangedUnitStatus;
use systemd_fail_notifications::state::SystemdState;
use systemd_fail_notifications::state::SystemdStateImpl;
use systemd_fail_notifications::status::UnitStatus;

fn raw(name: &str, active_state: &str) -> UnitStatusRaw {
    UnitStatusRaw {
        name: String::from(name),
        description: String::from("desc"),
        load_state: String::from("test"),
        active_state: String::from(active_state),
        sub_state: String::from("test"),
        following_unit: String::from("test"),
    }
}

#[test]
fn on_state_changed_not_called_for_empty_new_state() {
    let mut state = SystemdStateImpl::new();
    let changes = state.apply_new_status(vec![]);
    assert_eq!(changes, vec![]);
}

#[test]
fn on_state_changed_called_for_new_state() {
    let test_status = UnitStatus::from(UnitStatusRaw {
        name: String::from("name"),
        description: String::from("desc"),
        load_state: String::from("test"),
        active_state: String::from("test"),
        sub_state: String::from("test"),
        following_unit: String::from("test"),
    });
    let mut state = SystemdStateImpl::new();
    assert_eq!(
        state.apply_new_status(vec![test_status.clone()]),
        vec![ChangedUnitStatus {
            old: None,
            new: test_status.clone(),
        }]
    );
}

#[test]
fn on_state_changed_called_for_changing_state() {
    let test_status = UnitStatus::from(UnitStatusRaw {
        name: String::from("name"),
        description: String::from("desc"),
        load_state: String::from("test"),
        active_state: String::from("test"),
        sub_state: String::from("test"),
        following_unit: String::from("test"),
    });
    let mut state = SystemdStateImpl::new();
    assert_eq!(state.apply_new_status(vec![]), vec![]);
    assert_eq!(
        state.apply_new_status(vec![test_status.clone()]),
        vec![ChangedUnitStatus {
            old: None,
            new: test_status.clone(),
        }]
    );
}

#[test]
fn on_state_changed_called_for_smaller_state() {
    let test_status = UnitStatus::from(UnitStatusRaw {
        name: String::from("name"),
        description: String::from("desc"),
        load_state: String::from("test"),
        active_state: String::from("test"),
        sub_state: String::from("test"),
        following_unit: String::from("test"),
    });
    let mut state = SystemdStateImpl::new();
    assert_eq!(
        state.apply_new_status(vec![test_status.clone()]),
        vec![ChangedUnitStatus {
            old: None,
            new: test_status.clone(),
        }]
    );
    assert_eq!(state.apply_new_status(vec![]), vec![]);
    assert_eq!(state.apply_new_status(vec![]), vec![]);
}

#[test]
fn on_state_changed_called_for_one_changed_state() {
    let test_status_old = UnitStatus::from(raw("name", "test"));
    let test_status_new = UnitStatus::from(raw("name", "test123"));
    let mut state = SystemdStateImpl::new();
    assert_eq!(
        state.apply_new_status(vec![test_status_old.clone()]),
        vec![ChangedUnitStatus {
            old: None,
            new: test_status_old.clone(),
        }]
    );
    assert_eq!(
        state.apply_new_status(vec![test_status_new.clone()]),
        vec![ChangedUnitStatus {
            old: Some(test_status_old),
            new: test_status_new.clone(),
        }]
    );
}

#[test]
fn apply_identical_snapshot_twice_yields_no_changes() {
    let snapshot = vec![
        UnitStatus::from(raw("a.service", "active")),
        UnitStatus::from(raw("b.service", "failed")),
    ];
    let mut state = SystemdStateImpl::new();
    let first = state.apply_new_status(snapshot.clone());
    assert_eq!(first.len(), 2);
    let second = state.apply_new_status(snapshot.clone());
    assert_eq!(second, vec![]);
}

#[test]
fn store_keeps_units_missing_from_later_snapshots() {
    let unit = UnitStatus::from(raw("a.service", "active"));
    let mut state = SystemdStateImpl::new();
    state.apply_new_status(vec![unit.clone()]);
    state.apply_new_status(vec![]);
    state.apply_new_status(vec![UnitStatus::from(raw("b.service", "failed"))]);
    let units = state.units();
    assert!(units.contains(&unit));
    assert_eq!(units.len(), 2);
}

#[test]
fn change_emitted_only_on_difference() {
    let u1 = UnitStatus::from(raw("a.service", "active"));
    let u2 = UnitStatus::from(raw("a.service", "failed"));
    let mut state = SystemdStateImpl::new();
    state.apply_new_status(vec![u1.clone()]);
    let changes = state.apply_new_status(vec![u2.clone()]);
    assert_eq!(
        changes,
        vec![ChangedUnitStatus {
            old: Some(u1.clone()),
            new: u2.clone(),
        }]
    );
    let mut state2 = SystemdStateImpl::new();
    state2.apply_new_status(vec![u1.clone()]);
    assert_eq!(state2.apply_new_status(vec![u1.clone()]), vec![]);
}

#[test]
fn duplicate_names_in_one_snapshot_keep_the_last() {
    let u1 = UnitStatus::from(raw("a.service", "active"));
    let u2 = UnitStatus::from(raw("a.service", "failed"));
    let mut state = SystemdStateImpl::new();
    let changes = state.apply_new_status(vec![u1.clone(), u2.clone()]);
    assert_eq!(
        changes,
        vec![
            ChangedUnitStatus {
                old: None,
                new: u1.clone(),
            },
            ChangedUnitStatus {
                old: Some(u1.clone()),
                new: u2.clone(),
            },
        ]
    );
    let units = state.units();
    assert_eq!(units.len(), 1);
    assert!(units.contains(&u2));
}

#[test]
fn from_snapshot_hydrates_the_store() {
    let unit = UnitStatus::from(raw("a.service", "active"));
    let mut state = SystemdStateImpl::from_snapshot(vec![unit.clone()]);
    assert_eq!(state.apply_new_status(vec![unit.clone()]), vec![]);
    assert_eq!(state.units().len(), 1);
}
