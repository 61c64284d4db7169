use vstd::prelude::*;

verus! {

/// Immutable configuration for one polling session: which window to watch,
/// how often to poll the log, how long a restored-but-away window is
/// tolerated, and how often to look for the target process again.
pub struct Settings {
    pub window_name: String,
    pub log_file_polling_interval_ms: u64,
    pub seconds_until_minimize: u64,
    pub seconds_to_check_for_poe: u64,
}

impl Settings {
    /// The stock configuration: watch the "Path of Exile" window, poll the
    /// log twice a second, minimize after five seconds away, and look for
    /// the process every thirty seconds.
    pub fn default() -> (s: Settings)
        ensures
            s.window_name@ == "Path of Exile"@,
            s.log_file_polling_interval_ms == 500,
            s.seconds_until_minimize == 5,
            s.seconds_to_check_for_poe == 30,
    {
        Settings {
            window_name: "Path of Exile".to_owned(),
            log_file_polling_interval_ms: 500,
            seconds_until_minimize: 5,
            seconds_to_check_for_poe: 30,
        }
    }
}

} // verus!
