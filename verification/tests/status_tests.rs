use systemd_fail_notifications::config::option_str_to_string;
use systemd_fail_notifications::dbus_systemd::dbus::UnitStatusRaw;
use systemd_fail_notifications::status::ActiveState;
use systemd_fail_notifications::status::LoadState;
use systemd_fail_notifications::status::UnitStatus;

#[test]
fn load_state_parses_known_and_unknown_strings() {
    assert_eq!(LoadState::parse("loaded"), LoadState::Loaded);
    assert_eq!(LoadState::parse("error"), LoadState::Error);
    assert_eq!(LoadState::parse("masked"), LoadState::Masked);
    assert_eq!(LoadState::parse("not-found"), LoadState::NotFound);
    assert_eq!(
        LoadState::parse("surprise"),
        LoadState::Unknown(String::from("surprise"))
    );
}

#[test]
fn active_state_parses_known_and_unknown_strings() {
    assert_eq!(ActiveState::parse("active"), ActiveState::Active);
    assert_eq!(ActiveState::parse("reloading"), ActiveState::Reloading);
    assert_eq!(ActiveState::parse("inactive"), ActiveState::Inactive);
    assert_eq!(ActiveState::parse("failed"), ActiveState::Failed);
    assert_eq!(ActiveState::parse("activating"), ActiveState::Activating);
    assert_eq!(ActiveState::parse("deactivating"), ActiveState::Deactivating);
    assert_eq!(
        ActiveState::parse(""),
        ActiveState::Unknown(String::from(""))
    );
}

#[test]
fn from_raw_interprets_the_state_strings() {
    let status = UnitStatus::from(UnitStatusRaw {
        name: String::from("a.service"),
        description: String::from("A service"),
        load_state: String::from("not-found"),
        active_state: String::from("failed"),
        sub_state: String::from("dead"),
        following_unit: String::from("ignored.service"),
    });
    assert_eq!(status.name().as_str(), "a.service");
    assert_eq!(status.description().as_str(), "A service");
    assert_eq!(*status.load_state(), LoadState::NotFound);
    assert_eq!(*status.active_state(), ActiveState::Failed);
    assert_eq!(status.sub_state().as_str(), "dead");
}

#[test]
fn equality_is_whole_struct() {
    let a = UnitStatus {
        name: String::from("a.service"),
        description: String::from("desc"),
        load_state: LoadState::Loaded,
        active_state: ActiveState::Active,
        sub_state: String::from("running"),
    };
    let mut b = a.clone();
    assert_eq!(a, b);
    b.sub_state = String::from("exited");
    assert_ne!(a, b);
    let mut c = a.clone();
    c.description = String::from("other");
    assert_ne!(a, c);
    let mut d = a.clone();
    d.active_state = ActiveState::Unknown(String::from("active"));
    assert_ne!(a, d);
}

#[test]
fn option_str_to_string_copies_the_value() {
    assert_eq!(
        option_str_to_string(Some("value")),
        Some(String::from("value"))
    );
    assert_eq!(option_str_to_string(None), None);
}
