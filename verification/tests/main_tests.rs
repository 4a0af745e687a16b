use std::sync::Arc;

use systemd_fail_notifications::dbus_systemd::dbus::UnitStatusRaw;
use systemd_fail_notifications::dbus_systemd::ConnectionError;
use systemd_fail_notifications::dbus_systemd::SystemdConnection;
use systemd_fail_notifications::filter::FilterState;
use systemd_fail_notifications::main_loop;
use systemd_fail_notifications::state::ChangedUnitStatus;
use systemd_fail_notifications::state::SystemdState;
use systemd_fail_notifications::status::UnitStatus;
use systemd_fail_notifications::AppState;

pub struct MockupSystemdConnection {
    pub units: Vec<UnitStatusRaw>,
    pub error: bool,
}

impl MockupSystemdConnection {
    pub fn new() -> Self {
        Self {
            units: Vec::new(),
            error: false,
        }
    }
}

impl SystemdConnection for MockupSystemdConnection {
    fn list_units(&self) -> Result<Vec<UnitStatusRaw>, ConnectionError> {
        if self.error {
            Err(ConnectionError {
                message: String::from("test"),
            })
        } else {
            Ok(self.units.iter().cloned().collect())
        }
    }
}

pub struct MockupSystemdState {
    pub last_state: Option<Vec<UnitStatus>>,
}

impl MockupSystemdState {
    pub fn new() -> Self {
        Self { last_state: None }
    }
}

impl SystemdState for MockupSystemdState {
    // The two model functions exist only for verification; nothing ever
    // calls them at run time.
    fn state_map(
        &self,
    ) -> vstd::map::Map<vstd::seq::Seq<char>, systemd_fail_notifications::status::UnitStatusView>
    {
        unreachable!()
    }

    fn inv(&self) -> bool {
        unreachable!()
    }

    /// Discards the old state completely and returns the new status as is.
    fn apply_new_status(&mut self, new_status: Vec<UnitStatus>) -> Vec<ChangedUnitStatus> {
        self.last_state = Some(new_status.clone());
        new_status
            .into_iter()
            .map(|status| ChangedUnitStatus {
                old: None,
                new: status,
            })
            .collect()
    }
}

#[test]
fn main_loop_return_on_error() {
    let mut state = AppState {
        filter: FilterState::new(),
        conn: MockupSystemdConnection::new(),
        notifications: Arc::new(vec![]),
        systemd: MockupSystemdState::new(),
    };
    state.conn.error = true;
    let result = main_loop(&mut state);
    assert_eq!(state.systemd.last_state, None);
    if let Err(err) = result {
        assert_eq!(err.message, String::from("test"));
    } else {
        panic!("main_loop did not throw expected error");
    }
}

#[test]
fn main_loop_new_empty_status_from_connection() {
    let mut state = AppState {
        filter: FilterState::new(),
        conn: MockupSystemdConnection::new(),
        notifications: Arc::new(vec![]),
        systemd: MockupSystemdState::new(),
    };
    state.conn.units = vec![];
    assert_eq!(state.systemd.last_state, None);
    main_loop(&mut state).expect("should not throw error");
    assert_eq!(state.systemd.last_state, Some(Vec::new()));
}

#[test]
fn main_loop_new_status_from_connection() {
    const TEST: &str = "test";
    let raw_unit = UnitStatusRaw {
        name: String::from(TEST),
        description: String::from(TEST),
        load_state: String::from(TEST),
        active_state: String::from(TEST),
        sub_state: String::from(TEST),
        following_unit: String::from(TEST),
    };
    let mut state = AppState {
        filter: FilterState::new(),
        conn: MockupSystemdConnection::new(),
        notifications: Arc::new(vec![]),
        systemd: MockupSystemdState::new(),
    };
    state.conn.units = vec![raw_unit.clone()];
    assert_eq!(state.systemd.last_state, None);
    main_loop(&mut state).expect("should not throw error");
    assert_eq!(
        state.systemd.last_state,
        Some(vec![UnitStatus::from(raw_unit.clone())])
    );
}

#[test]
fn main_loop_returns_only_selected_changes() {
    let mut state = AppState {
        filter: FilterState::new(),
        conn: MockupSystemdConnection::new(),
        notifications: Arc::new(vec![]),
        systemd: MockupSystemdState::new(),
    };
    state.conn.units = vec![
        UnitStatusRaw {
            name: String::from("a.service"),
            description: String::from("desc"),
            load_state: String::from("loaded"),
            active_state: String::from("failed"),
            sub_state: String::from("dead"),
            following_unit: String::from(""),
        },
        UnitStatusRaw {
            name: String::from("b.service"),
            description: String::from("desc"),
            load_state: String::from("loaded"),
            active_state: String::from("active"),
            sub_state: String::from("running"),
            following_unit: String::from(""),
        },
    ];
    let selected = main_loop(&mut state).expect("should not throw error");
    assert_eq!(selected.len(), 1);
    assert_eq!(selected[0].name().as_str(), "a.service");
}

#[test]
fn repeated_poll_with_identical_snapshot_alerts_once() {
    let failing_unit = UnitStatusRaw {
        name: String::from("a.service"),
        description: String::from("desc"),
        load_state: String::from("loaded"),
        active_state: String::from("failed"),
        sub_state: String::from("dead"),
        following_unit: String::from(""),
    };
    let mut state = AppState {
        filter: FilterState::new(),
        conn: MockupSystemdConnection::new(),
        notifications: Arc::new(vec![]),
        systemd: systemd_fail_notifications::state::SystemdStateImpl::new(),
    };
    state.conn.units = vec![failing_unit.clone()];
    let first = main_loop(&mut state).expect("should not throw error");
    assert_eq!(first, vec![UnitStatus::from(failing_unit.clone())]);
    let second = main_loop(&mut state).expect("should not throw error");
    assert_eq!(second, vec![]);
}

#[test]
fn process_snapshot_interprets_and_filters() {
    let mut state = AppState {
        filter: FilterState::new(),
        conn: MockupSystemdConnection::new(),
        notifications: Arc::new(vec![]),
        systemd: systemd_fail_notifications::state::SystemdStateImpl::new(),
    };
    let snapshot = vec![
        UnitStatusRaw {
            name: String::from("broken.service"),
            description: String::from("desc"),
            load_state: String::from("error"),
            active_state: String::from("active"),
            sub_state: String::from("running"),
            following_unit: String::from(""),
        },
        UnitStatusRaw {
            name: String::from("fine.service"),
            description: String::from("desc"),
            load_state: String::from("loaded"),
            active_state: String::from("active"),
            sub_state: String::from("running"),
            following_unit: String::from(""),
        },
    ];
    let selected = state.process_snapshot(snapshot);
    assert_eq!(selected.len(), 1);
    assert_eq!(selected[0].name().as_str(), "broken.service");
    assert_eq!(*selected[0].load_state(), systemd_fail_notifications::status::LoadState::Error);
}
