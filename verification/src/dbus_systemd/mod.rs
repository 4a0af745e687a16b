//! The connection to systemd's unit-status source.
//!
//! The raw status source is an external collaborator: something that can be
//! asked for the current list of unit records, or fail. This crate only
//! consumes its answers; the transport itself lives with the embedding
//! program.

pub mod dbus;

use vstd::prelude::*;

use crate::dbus_systemd::dbus::UnitStatusRaw;

verus! {

/// An error reported by the status source while listing units.
#[derive(Debug, Clone)]
pub struct ConnectionError {
    pub message: String,
}

/// A source of unit-status snapshots. Implementations perform the actual
/// query (over D-Bus, or from recorded data in tests); nothing is assumed
/// about their answers beyond the type.
pub trait SystemdConnection {
    fn list_units(&self) -> Result<Vec<UnitStatusRaw>, ConnectionError>;
}

} // verus!
