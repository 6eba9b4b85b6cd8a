//! The user's settings, stored as JSON under the user's configuration
//! directory.

use vstd::prelude::*;

verus! {

/// How often the providers are asked for fresh numbers when no setting
/// says otherwise, in seconds.
pub const DEFAULT_REFRESH_INTERVAL_SECS: u64 = 30;

/// The user's settings.
#[derive(Clone, Copy, Debug, PartialEq, Eq, Structural)]
pub struct Config {
    /// Seconds between two refreshes of the providers.
    pub refresh_interval_secs: u64,
}

impl Default for Config {
    fn default() -> (c: Self)
        ensures
            c.refresh_interval_secs == DEFAULT_REFRESH_INTERVAL_SECS,
    {
        Config { refresh_interval_secs: DEFAULT_REFRESH_INTERVAL_SECS }
    }
}

/// The settings in use: those that were read, or the defaults when there
/// was no configuration directory, no file, or no valid settings in it.
pub fn settings_or_default(loaded: Option<Config>) -> (c: Config)
    ensures
        loaded matches Some(l) ==> c == l,
        loaded is None ==> c.refresh_interval_secs == DEFAULT_REFRESH_INTERVAL_SECS,
{
    match loaded {
        Some(l) => l,
        None => Config::default(),
    }
}

} // verus!
