//! The change filter: decides which state changes are alert-worthy.
//!
//! Two independent predicates must both pass: the unit name must match a
//! configurable suffix, and the transition must match a fixed rule over the
//! old active state, the new load state and the new active state.

use vstd::prelude::*;
use vstd::string::StrSliceExecFns;

use crate::state::ChangedUnitStatus;
use crate::state::ChangedUnitStatusView;
use crate::state::changed_views;
use crate::status::ActiveState;
use crate::status::ActiveStateView;
use crate::status::LoadState;
use crate::status::LoadStateView;
use crate::status::UnitStatus;
use crate::status::UnitStatusView;
use crate::status::unit_status_views;

verus! {

/// Whether `suffix` ends `s`.
pub open spec fn spec_ends_with(s: Seq<char>, suffix: Seq<char>) -> bool {
    suffix.len() <= s.len() && s.subrange(s.len() - suffix.len(), s.len() as int) == suffix
}

/// The transition rule, first match wins: an `error` or unknown load state
/// always alerts; `not-found` alerts unless the unit is cleanly `inactive`;
/// a `failed` or unknown active state always alerts; everything else does
/// not. The old active state never decides.
pub open spec fn spec_transition_selected(
    old_active: Option<ActiveStateView>,
    load: LoadStateView,
    active: ActiveStateView,
) -> bool {
    if load is Error {
        true
    } else if load is NotFound && active is Inactive {
        false
    } else if load is NotFound {
        true
    } else if load is Unknown {
        true
    } else if active is Failed {
        true
    } else if active is Unknown {
        true
    } else {
        false
    }
}

/// Whether a change is alert-worthy under the given name suffix: both the
/// name predicate and the transition predicate must pass.
pub open spec fn spec_selected(suffix: Seq<char>, c: ChangedUnitStatusView) -> bool {
    spec_ends_with(c.new.name, suffix) && spec_transition_selected(
        match c.old {
            Some(o) => Some(o.active_state),
            None => None,
        },
        c.new.load_state,
        c.new.active_state,
    )
}

/// The new sides of the selected changes, in order.
pub open spec fn spec_selected_new(
    suffix: Seq<char>,
    changes: Seq<ChangedUnitStatusView>,
) -> Seq<UnitStatusView> {
    changes.filter(|c: ChangedUnitStatusView| spec_selected(suffix, c)).map_values(
        |c: ChangedUnitStatusView| c.new,
    )
}

/// Whether `suffix` ends `s`, by characters.
fn str_ends_with(s: &str, suffix: &str) -> (r: bool)
    ensures
        r == spec_ends_with(s@, suffix@),
{
    let n = s.unicode_len();
    let m = suffix.unicode_len();
    if m > n {
        false
    } else {
        let tail = s.substring_char(n - m, n);
        let tail_owned: String = tail.to_owned();
        let suffix_owned: String = suffix.to_owned();
        tail_owned == suffix_owned
    }
}

/// The stateless predicate pair deciding which changes are alert-worthy.
pub struct FilterState {
    /// The suffix a unit's name must carry to be alert-worthy.
    pub name_suffix: String,
}

impl FilterState {
    /// Creates the default filter: it alerts on units whose name ends with
    /// `.service`, on the fixed transition rule.
    pub fn new() -> (r: Self)
        ensures
            r.name_suffix@ == ".service"@,
    {
        FilterState { name_suffix: ".service".to_owned() }
    }

    /// Decides whether one change is alert-worthy.
    pub fn filter_function(&self, status: &ChangedUnitStatus) -> (r: bool)
        ensures
            r == spec_selected(self.name_suffix@, status@),
    {
        let name_ok = str_ends_with(status.new.name().as_str(), self.name_suffix.as_str());
        let load = status.new.load_state();
        let active = status.new.active_state();
        let state_ok = if matches!(load, LoadState::Error) {
            true
        } else if matches!(load, LoadState::NotFound) && matches!(active, ActiveState::Inactive) {
            false
        } else if matches!(load, LoadState::NotFound) {
            true
        } else if matches!(load, LoadState::Unknown(_)) {
            true
        } else if matches!(active, ActiveState::Failed) {
            true
        } else if matches!(active, ActiveState::Unknown(_)) {
            true
        } else {
            false
        };
        name_ok && state_ok
    }

    /// The new sides of the changes the filter selects, in their order.
    pub fn select_new(&self, changes: &Vec<ChangedUnitStatus>) -> (r: Vec<UnitStatus>)
        ensures
            unit_status_views(r@) == spec_selected_new(self.name_suffix@, changed_views(changes@)),
    {
        let ghost cvs = changed_views(changes@);
        let mut r: Vec<UnitStatus> = Vec::new();
        let mut i: usize = 0;
        while i < changes.len()
            invariant
                0 <= i <= changes.len(),
                cvs == changed_views(changes@),
                unit_status_views(r@) == spec_selected_new(self.name_suffix@, cvs.take(i as int)),
            decreases changes.len() - i,
        {
            proof {
                assert(cvs.take(i + 1).drop_last() =~= cvs.take(i as int));
                assert(cvs.take(i + 1).last() == changes@[i as int]@);
            }
            if self.filter_function(&changes[i]) {
                r.push(changes[i].new.clone());
                proof {
                    assert(spec_selected_new(self.name_suffix@, cvs.take(i + 1))
                        =~= spec_selected_new(self.name_suffix@, cvs.take(i as int)).push(
                        changes@[i as int]@.new,
                    )) by {
                        reveal(Seq::filter);
                    }
                    assert(unit_status_views(r@) =~= spec_selected_new(
                        self.name_suffix@,
                        cvs.take(i as int),
                    ).push(changes@[i as int]@.new));
                }
            } else {
                proof {
                    assert(spec_selected_new(self.name_suffix@, cvs.take(i + 1))
                        =~= spec_selected_new(self.name_suffix@, cvs.take(i as int))) by {
                        reveal(Seq::filter);
                    }
                }
            }
            i = i + 1;
        }
        proof {
            assert(cvs.take(changes@.len() as int) =~= cvs);
        }
        r
    }
}

} // verus!
