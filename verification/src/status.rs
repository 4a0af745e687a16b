//! Interpreted unit statuses.
//!
//! The status source reports every state as a string. Here those strings are
//! parsed into closed-ish enumerations: any unrecognized string maps to an
//! `Unknown` variant carrying the original text, so parsing a status string
//! never errors.

use vstd::prelude::*;

use crate::dbus_systemd::dbus::UnitStatusRaw;
use crate::dbus_systemd::dbus::UnitStatusRawView;

verus! {

/// Compares two string slices by their character sequences.
fn str_eq(a: &str, b: &str) -> (r: bool)
    ensures
        r == (a@ == b@),
{
    let a_owned: String = a.to_owned();
    let b_owned: String = b.to_owned();
    a_owned == b_owned
}

/// The load state of a unit, parsed from the raw string.
#[derive(Debug, Eq, Hash)]
pub enum LoadState {
    Loaded,
    Error,
    Masked,
    NotFound,
    /// If none of the other variants match, this variant carries the
    /// original string.
    Unknown(String),
}

/// The mathematical value of a [`LoadState`].
#[verifier::ext_equal]
pub enum LoadStateView {
    Loaded,
    Error,
    Masked,
    NotFound,
    Unknown(Seq<char>),
}

impl View for LoadState {
    type V = LoadStateView;

    open spec fn view(&self) -> LoadStateView {
        match self {
            LoadState::Loaded => LoadStateView::Loaded,
            LoadState::Error => LoadStateView::Error,
            LoadState::Masked => LoadStateView::Masked,
            LoadState::NotFound => LoadStateView::NotFound,
            LoadState::Unknown(s) => LoadStateView::Unknown(s@),
        }
    }
}

/// What [`LoadState::parse`] returns for a given sequence of characters.
pub open spec fn spec_parse_load_state(s: Seq<char>) -> LoadStateView {
    if s == "loaded"@ {
        LoadStateView::Loaded
    } else if s == "error"@ {
        LoadStateView::Error
    } else if s == "masked"@ {
        LoadStateView::Masked
    } else if s == "not-found"@ {
        LoadStateView::NotFound
    } else {
        LoadStateView::Unknown(s)
    }
}

impl LoadState {
    /// Parses a raw load-state string. Never fails: an unrecognized string
    /// becomes [`LoadState::Unknown`].
    pub fn parse(s: &str) -> (r: Self)
        ensures
            r@ == spec_parse_load_state(s@),
    {
        if str_eq(s, "loaded") {
            LoadState::Loaded
        } else if str_eq(s, "error") {
            LoadState::Error
        } else if str_eq(s, "masked") {
            LoadState::Masked
        } else if str_eq(s, "not-found") {
            LoadState::NotFound
        } else {
            LoadState::Unknown(s.to_owned())
        }
    }
}

impl Clone for LoadState {
    fn clone(&self) -> (r: Self)
        ensures
            r@ == self@,
    {
        match self {
            LoadState::Loaded => LoadState::Loaded,
            LoadState::Error => LoadState::Error,
            LoadState::Masked => LoadState::Masked,
            LoadState::NotFound => LoadState::NotFound,
            LoadState::Unknown(s) => LoadState::Unknown(s.clone()),
        }
    }
}

impl PartialEq for LoadState {
    fn eq(&self, other: &Self) -> (r: bool) {
        match self {
            LoadState::Loaded => matches!(other, LoadState::Loaded),
            LoadState::Error => matches!(other, LoadState::Error),
            LoadState::Masked => matches!(other, LoadState::Masked),
            LoadState::NotFound => matches!(other, LoadState::NotFound),
            LoadState::Unknown(a) => match other {
                LoadState::Unknown(b) => *a == *b,
                _ => false,
            },
        }
    }
}

impl vstd::std_specs::cmp::PartialEqSpecImpl for LoadState {
    open spec fn obeys_eq_spec() -> bool {
        true
    }

    open spec fn eq_spec(&self, other: &Self) -> bool {
        self@ == other@
    }
}

/// The active state of a unit, parsed from the raw string.
#[derive(Debug, Eq, Hash)]
pub enum ActiveState {
    Active,
    Reloading,
    Inactive,
    Failed,
    Activating,
    Deactivating,
    /// If none of the other variants match, this variant carries the
    /// original string.
    Unknown(String),
}

/// The mathematical value of an [`ActiveState`].
#[verifier::ext_equal]
pub enum ActiveStateView {
    Active,
    Reloading,
    Inactive,
    Failed,
    Activating,
    Deactivating,
    Unknown(Seq<char>),
}

impl View for ActiveState {
    type V = ActiveStateView;

    open spec fn view(&self) -> ActiveStateView {
        match self {
            ActiveState::Active => ActiveStateView::Active,
            ActiveState::Reloading => ActiveStateView::Reloading,
            ActiveState::Inactive => ActiveStateView::Inactive,
            ActiveState::Failed => ActiveStateView::Failed,
            ActiveState::Activating => ActiveStateView::Activating,
            ActiveState::Deactivating => ActiveStateView::Deactivating,
            ActiveState::Unknown(s) => ActiveStateView::Unknown(s@),
        }
    }
}

/// What [`ActiveState::parse`] returns for a given sequence of characters.
pub open spec fn spec_parse_active_state(s: Seq<char>) -> ActiveStateView {
    if s == "active"@ {
        ActiveStateView::Active
    } else if s == "reloading"@ {
        ActiveStateView::Reloading
    } else if s == "inactive"@ {
        ActiveStateView::Inactive
    } else if s == "failed"@ {
        ActiveStateView::Failed
    } else if s == "activating"@ {
        ActiveStateView::Activating
    } else if s == "deactivating"@ {
        ActiveStateView::Deactivating
    } else {
        ActiveStateView::Unknown(s)
    }
}

impl ActiveState {
    /// Parses a raw active-state string. Never fails: an unrecognized string
    /// becomes [`ActiveState::Unknown`].
    pub fn parse(s: &str) -> (r: Self)
        ensures
            r@ == spec_parse_active_state(s@),
    {
        if str_eq(s, "active") {
            ActiveState::Active
        } else if str_eq(s, "reloading") {
            ActiveState::Reloading
        } else if str_eq(s, "inactive") {
            ActiveState::Inactive
        } else if str_eq(s, "failed") {
            ActiveState::Failed
        } else if str_eq(s, "activating") {
            ActiveState::Activating
        } else if str_eq(s, "deactivating") {
            ActiveState::Deactivating
        } else {
            ActiveState::Unknown(s.to_owned())
        }
    }
}

impl Clone for ActiveState {
    fn clone(&self) -> (r: Self)
        ensures
            r@ == self@,
    {
        match self {
            ActiveState::Active => ActiveState::Active,
            ActiveState::Reloading => ActiveState::Reloading,
            ActiveState::Inactive => ActiveState::Inactive,
            ActiveState::Failed => ActiveState::Failed,
            ActiveState::Activating => ActiveState::Activating,
            ActiveState::Deactivating => ActiveState::Deactivating,
            ActiveState::Unknown(s) => ActiveState::Unknown(s.clone()),
        }
    }
}

impl PartialEq for ActiveState {
    fn eq(&self, other: &Self) -> (r: bool) {
        match self {
            ActiveState::Active => matches!(other, ActiveState::Active),
            ActiveState::Reloading => matches!(other, ActiveState::Reloading),
            ActiveState::Inactive => matches!(other, ActiveState::Inactive),
            ActiveState::Failed => matches!(other, ActiveState::Failed),
            ActiveState::Activating => matches!(other, ActiveState::Activating),
            ActiveState::Deactivating => matches!(other, ActiveState::Deactivating),
            ActiveState::Unknown(a) => match other {
                ActiveState::Unknown(b) => *a == *b,
                _ => false,
            },
        }
    }
}

impl vstd::std_specs::cmp::PartialEqSpecImpl for ActiveState {
    open spec fn obeys_eq_spec() -> bool {
        true
    }

    open spec fn eq_spec(&self, other: &Self) -> bool {
        self@ == other@
    }
}

/// One unit's status with the state strings interpreted. Two statuses are
/// equal iff every field matches.
#[derive(Debug, Eq, Hash)]
pub struct UnitStatus {
    pub name: String,
    pub description: String,
    pub load_state: LoadState,
    pub active_state: ActiveState,
    pub sub_state: String,
}

/// The mathematical value of a [`UnitStatus`].
#[verifier::ext_equal]
pub struct UnitStatusView {
    pub name: Seq<char>,
    pub description: Seq<char>,
    pub load_state: LoadStateView,
    pub active_state: ActiveStateView,
    pub sub_state: Seq<char>,
}

impl View for UnitStatus {
    type V = UnitStatusView;

    open spec fn view(&self) -> UnitStatusView {
        UnitStatusView {
            name: self.name@,
            description: self.description@,
            load_state: self.load_state@,
            active_state: self.active_state@,
            sub_state: self.sub_state@,
        }
    }
}

/// What [`UnitStatus::from`] makes of a raw record: the name, description
/// and sub-state carried over, the two state strings parsed. The
/// following-unit field is dropped.
pub open spec fn spec_from_raw(raw: UnitStatusRawView) -> UnitStatusView {
    UnitStatusView {
        name: raw.name,
        description: raw.description,
        load_state: spec_parse_load_state(raw.load_state),
        active_state: spec_parse_active_state(raw.active_state),
        sub_state: raw.sub_state,
    }
}

/// The views of a sequence of statuses.
pub open spec fn unit_status_views(s: Seq<UnitStatus>) -> Seq<UnitStatusView> {
    s.map_values(|u: UnitStatus| u@)
}

/// The interpreted views of a sequence of raw records, in order.
pub open spec fn spec_from_raw_seq(s: Seq<UnitStatusRaw>) -> Seq<UnitStatusView> {
    s.map_values(|r: UnitStatusRaw| spec_from_raw(r@))
}

impl UnitStatus {
    /// Interprets a raw unit record.
    pub fn from(raw: UnitStatusRaw) -> (r: Self)
        ensures
            r@ == spec_from_raw(raw@),
    {
        UnitStatus {
            name: raw.name,
            description: raw.description,
            load_state: LoadState::parse(raw.load_state.as_str()),
            active_state: ActiveState::parse(raw.active_state.as_str()),
            sub_state: raw.sub_state,
        }
    }

    /// Get a reference to the unit status's name.
    pub fn name(&self) -> (r: &String)
        ensures
            r@ == self@.name,
    {
        &self.name
    }

    /// Get a reference to the unit status's description.
    pub fn description(&self) -> (r: &String)
        ensures
            r@ == self@.description,
    {
        &self.description
    }

    /// Get a reference to the unit status's load state.
    pub fn load_state(&self) -> (r: &LoadState)
        ensures
            r@ == self@.load_state,
    {
        &self.load_state
    }

    /// Get a reference to the unit status's active state.
    pub fn active_state(&self) -> (r: &ActiveState)
        ensures
            r@ == self@.active_state,
    {
        &self.active_state
    }

    /// Get a reference to the unit status's sub state.
    pub fn sub_state(&self) -> (r: &String)
        ensures
            r@ == self@.sub_state,
    {
        &self.sub_state
    }
}

impl Clone for UnitStatus {
    fn clone(&self) -> (r: Self)
        ensures
            r@ == self@,
    {
        UnitStatus {
            name: self.name.clone(),
            description: self.description.clone(),
            load_state: self.load_state.clone(),
            active_state: self.active_state.clone(),
            sub_state: self.sub_state.clone(),
        }
    }
}

impl PartialEq for UnitStatus {
    fn eq(&self, other: &Self) -> (r: bool) {
        self.name == other.name && self.description == other.description
            && self.load_state == other.load_state && self.active_state == other.active_state
            && self.sub_state == other.sub_state
    }
}

impl vstd::std_specs::cmp::PartialEqSpecImpl for UnitStatus {
    open spec fn obeys_eq_spec() -> bool {
        true
    }

    open spec fn eq_spec(&self, other: &Self) -> bool {
        self@ == other@
    }
}

} // verus!
