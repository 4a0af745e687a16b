//! The static configuration for the program.
//!
//! The values are read from the command line and the environment by the
//! embedding program; here lives only the parsed form the rest of the
//! crate consumes.

use vstd::prelude::*;

verus! {

/// Holds the static configuration for the program. Can be used to alter
/// the behavior of the execution or to configure notification providers.
pub struct Config {
    /// The webhook URL of the Discord webhook, when one is configured.
    pub discord_webhook_url: Option<String>,
    /// The path to a file where the state can be stored.
    pub state_file_path: String,
    /// If set, the program prints its licensing information and exits.
    pub about: bool,
    /// Disables the initial notification about the application starting.
    pub disable_start_notification: bool,
}

/// Copies an optional borrowed string into an owned one.
pub fn option_str_to_string(value: Option<&str>) -> (r: Option<String>)
    ensures
        match value {
            Some(v) => r matches Some(s) && s@ == v@,
            None => r is None,
        },
{
    match value {
        Some(v) => Some(v.to_owned()),
        None => None,
    }
}

} // verus!
