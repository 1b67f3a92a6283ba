//! The commands of the command-line client.

use vstd::prelude::*;

verus! {

/// A parsed command line.
#[derive(Debug)]
pub struct Args {
    /// The command to run; none means listing the profiles.
    pub command: Option<Commands>,
}

/// The commands the client recognises.
#[derive(Debug)]
#[allow(inconsistent_fields)]
pub enum Commands {
    /// List the profiles the service offers, marking the active one.
    List,
    /// List the profile holds.
    ListHolds,
    /// List the actions with their descriptions and state.
    ListActions,
    /// Print the active profile.
    Get,
    /// Make the named profile the active one.
    SetProfile { profile: String },
    /// Switch an action on or off.
    ConfigureAction { action: String, enable: bool, disable: bool },
    /// Switch battery-aware profile changes on or off.
    ConfigureBatteryAware { enable: bool, disable: bool },
    /// Print whether battery-aware profile changes are on.
    QueryBatteryAware,
    /// Run a program while holding a profile.
    Launch {
        arguments: String,
        profile: Option<String>,
        reason: Option<String>,
        appid: Option<String>,
    },
    /// Print the active profile, then every change of it.
    Watch,
}

} // verus!
