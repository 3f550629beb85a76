use vstd::prelude::*;

verus! {

use crate::service::RequestState;

/// The observability sink the core accepts: constructor-injected rather than
/// process-global, it keeps a named, ordered record of the states a
/// subscription request passes through.
pub struct EventLog {
    pub name: String,
    pub env_filter: String,
    pub entries: Vec<RequestState>,
    pub active: bool,
}

/// Build the sink under a diagnostic name and filter label.  It is not yet
/// active: nothing records into it before `init_subscriber` ran.
pub fn get_subscriber(name: String, env_filter: String) -> (r: EventLog)
    ensures
        r.name@ == name@,
        r.env_filter@ == env_filter@,
        r.entries@.len() == 0,
        !r.active,
{
    EventLog { name, env_filter, entries: Vec::new(), active: false }
}

/// Activate the sink, keeping whatever it already holds; mirrors the one
/// process-wide initialization the boundary performs at start-up.
pub fn init_subscriber(log: &mut EventLog)
    ensures
        final(log).active,
        final(log).name@ == old(log).name@,
        final(log).env_filter@ == old(log).env_filter@,
        final(log).entries@ == old(log).entries@,
{
    log.active = true;
}

impl EventLog {
    /// Record one state transition at the end of the log.
    pub fn record(&mut self, state: RequestState)
        requires
            old(self).active,
        ensures
            final(self).active,
            final(self).name@ == old(self).name@,
            final(self).env_filter@ == old(self).env_filter@,
            final(self).entries@ == old(self).entries@.push(state),
    {
        self.entries.push(state);
    }
}

/// The file name a log is written under: timestamp, double-underscore
/// separator, suffix, `.log` extension.
pub fn log_file_name(timestamp: &str, suffix: &str) -> (r: String)
    ensures
        r@ == timestamp@ + "__"@ + suffix@ + ".log"@,
{
    timestamp.to_owned().concat("__").concat(suffix).concat(".log")
}

} // verus!
