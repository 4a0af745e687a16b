//! Watches the set of systemd units on a host, detects state transitions
//! worth alerting on, and decides how those alerts are dispatched through
//! the configured notification channels, without letting a failure in one
//! channel cascade into lost alerts or infinite alert loops.
//!
//! The crate is organised around four components: a state store that diffs
//! consecutive snapshots ([`state`]), a change filter that decides which
//! diffs are alert-worthy ([`filter`]), a notification dispatcher that fans
//! alerts out without recursive error escalation ([`notifications`]), and a
//! drift-correcting scheduler ([`scheduler`]). The embedding program owns
//! the clock, the signals, the status-source transport and the delivery
//! transport; this crate owns every decision between them.

pub mod config;
pub mod dbus_systemd;
pub mod filter;
pub mod notifications;
pub mod scheduler;
pub mod state;
pub mod status;

use std::sync::Arc;
use vstd::prelude::*;

use crate::dbus_systemd::ConnectionError;
use crate::dbus_systemd::dbus::UnitStatusRaw;
use crate::dbus_systemd::SystemdConnection;
use crate::filter::FilterState;
use crate::filter::spec_selected_new;
use crate::notifications::DispatchCommand;
use crate::notifications::DispatchCommandView;
use crate::notifications::Notifier;
use crate::notifications::dispatch_views;
use crate::notifications::spec_start_broadcast;
use crate::notifications::spec_status_broadcast;
use crate::state::SystemdState;
use crate::state::spec_apply_changes;
use crate::state::spec_apply_map;
use crate::status::UnitStatus;
use crate::status::UnitStatusView;
use crate::status::spec_from_raw;
use crate::status::spec_from_raw_seq;
use crate::status::unit_status_views;

verus! {

/// Holds the app-internal state of the major sub-components: the change
/// filter, the connection to systemd, the configured notifiers and the
/// app-local mirror of the state of systemd.
pub struct AppState<C: SystemdConnection, S: SystemdState> {
    pub filter: FilterState,
    pub conn: C,
    pub notifications: Arc<Vec<Notifier>>,
    pub systemd: S,
}

/// Clones a list of statuses, value for value.
fn clone_statuses(v: &Vec<UnitStatus>) -> (r: Vec<UnitStatus>)
    ensures
        unit_status_views(r@) == unit_status_views(v@),
{
    let mut r: Vec<UnitStatus> = Vec::new();
    let mut i: usize = 0;
    while i < v.len()
        invariant
            0 <= i <= v@.len(),
            r@.len() == i,
            forall|j: int| 0 <= j < i ==> #[trigger] r@[j]@ == v@[j]@,
        decreases v@.len() - i,
    {
        r.push(v[i].clone());
        i = i + 1;
    }
    proof {
        assert(unit_status_views(r@) =~= unit_status_views(v@));
    }
    r
}

impl<C: SystemdConnection, S: SystemdState> AppState<C, S> {
    /// Polls the status source for the current state of the systemd
    /// daemon. The response includes all units of the current state; this
    /// function returns only the alert-worthy unit statuses, and only if
    /// they changed since the previous call (hence the `&mut`). An error
    /// from the status source is handed back and leaves the store
    /// untouched.
    pub fn poll_for_new_systemd_state(&mut self) -> (r: Result<Vec<UnitStatus>, ConnectionError>)
        requires
            old(self).systemd.inv(),
        ensures
            final(self).systemd.inv(),
            final(self).filter == old(self).filter,
            final(self).notifications == old(self).notifications,
            r is Err ==> final(self).systemd.state_map() == old(self).systemd.state_map(),
            r matches Ok(sel) ==> exists|snapshot: Seq<UnitStatusView>|
                {
                    &&& final(self).systemd.state_map() == spec_apply_map(
                        old(self).systemd.state_map(),
                        snapshot,
                    )
                    &&& unit_status_views(sel@) == spec_selected_new(
                        old(self).filter.name_suffix@,
                        spec_apply_changes(old(self).systemd.state_map(), snapshot),
                    )
                },
    {
        let raw = match self.conn.list_units() {
            Ok(u) => u,
            Err(e) => {
                return Err(e);
            },
        };
        let filtered = self.process_snapshot(raw);
        Ok(filtered)
    }

    /// Applies one raw snapshot, as the status source reported it, to the
    /// store: every state string is interpreted, the store is diffed and
    /// updated, and the new sides of the alert-worthy changes come back,
    /// in snapshot order.
    pub fn process_snapshot(&mut self, raw: Vec<UnitStatusRaw>) -> (r: Vec<UnitStatus>)
        requires
            old(self).systemd.inv(),
        ensures
            final(self).systemd.inv(),
            final(self).filter == old(self).filter,
            final(self).notifications == old(self).notifications,
            final(self).systemd.state_map() == spec_apply_map(
                old(self).systemd.state_map(),
                spec_from_raw_seq(raw@),
            ),
            unit_status_views(r@) == spec_selected_new(
                old(self).filter.name_suffix@,
                spec_apply_changes(old(self).systemd.state_map(), spec_from_raw_seq(raw@)),
            ),
    {
        let ghost m0 = self.systemd.state_map();
        let mut statuses: Vec<UnitStatus> = Vec::new();
        let mut i: usize = 0;
        while i < raw.len()
            invariant
                0 <= i <= raw@.len(),
                statuses@.len() == i,
                forall|j: int| 0 <= j < i ==> #[trigger] statuses@[j]@ == spec_from_raw(raw@[j]@),
            decreases raw@.len() - i,
        {
            statuses.push(UnitStatus::from(raw[i].clone()));
            i = i + 1;
        }
        proof {
            assert(unit_status_views(statuses@) =~= spec_from_raw_seq(raw@));
        }
        let changes = self.systemd.apply_new_status(statuses);
        self.filter.select_new(&changes)
    }

    /// Computes the deliveries for the given changed statuses: one per
    /// configured notifier, each handed its own copy of the statuses, so
    /// that the embedding program can launch every delivery in a task of
    /// its own without one blocking or aborting the others.
    pub fn notify(&self, status: Vec<UnitStatus>) -> (cmds: Vec<DispatchCommand>)
        ensures
            dispatch_views(cmds@) == spec_status_broadcast(
                self.notifications@.len(),
                unit_status_views(status@),
            ),
    {
        let mut cmds: Vec<DispatchCommand> = Vec::new();
        let n = self.notifications.len();
        let mut k: usize = 0;
        while k < n
            invariant
                0 <= k <= n,
                n == self.notifications@.len(),
                cmds@.len() == k,
                forall|idx: int|
                    0 <= idx < k ==> #[trigger] cmds@[idx]@ == (DispatchCommandView::SendStatus {
                        notifier: idx,
                        status: unit_status_views(status@),
                    }),
            decreases n - k,
        {
            cmds.push(
                DispatchCommand::SendStatus { notifier: k, status: clone_statuses(&status) },
            );
            k = k + 1;
        }
        proof {
            assert(dispatch_views(cmds@) =~= spec_status_broadcast(
                self.notifications@.len(),
                unit_status_views(status@),
            ));
        }
        cmds
    }

    /// Computes the deliveries announcing the start of the application:
    /// one per configured notifier, launched like status deliveries.
    pub fn notify_start(&self) -> (cmds: Vec<DispatchCommand>)
        ensures
            dispatch_views(cmds@) == spec_start_broadcast(self.notifications@.len()),
    {
        let mut cmds: Vec<DispatchCommand> = Vec::new();
        let n = self.notifications.len();
        let mut k: usize = 0;
        while k < n
            invariant
                0 <= k <= n,
                n == self.notifications@.len(),
                cmds@.len() == k,
                forall|idx: int|
                    0 <= idx < k ==> #[trigger] cmds@[idx]@ == (DispatchCommandView::SendStart {
                        notifier: idx,
                    }),
            decreases n - k,
        {
            cmds.push(DispatchCommand::SendStart { notifier: k });
            k = k + 1;
        }
        proof {
            assert(dispatch_views(cmds@) =~= spec_start_broadcast(self.notifications@.len()));
        }
        cmds
    }
}

/// Executes the typical workload of this daemon for one iteration: poll
/// the status source, diff against the store, filter. Returns the
/// alert-worthy statuses for dispatch; a status-source error is fatal for
/// the iteration and is handed back unchanged.
pub fn main_loop<C: SystemdConnection, S: SystemdState>(state: &mut AppState<C, S>) -> (r: Result<
    Vec<UnitStatus>,
    ConnectionError,
>)
    requires
        old(state).systemd.inv(),
    ensures
        final(state).systemd.inv(),
        final(state).filter == old(state).filter,
        final(state).notifications == old(state).notifications,
        r is Err ==> final(state).systemd.state_map() == old(state).systemd.state_map(),
        r matches Ok(sel) ==> exists|snapshot: Seq<UnitStatusView>|
            {
                &&& final(state).systemd.state_map() == spec_apply_map(
                    old(state).systemd.state_map(),
                    snapshot,
                )
                &&& unit_status_views(sel@) == spec_selected_new(
                    old(state).filter.name_suffix@,
                    spec_apply_changes(old(state).systemd.state_map(), snapshot),
                )
            },
{
    state.poll_for_new_systemd_state()
}

} // verus!
