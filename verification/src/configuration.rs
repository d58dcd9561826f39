//! The settings of the bridge.

use vstd::prelude::*;

verus! {

/// The settings of the bridge.
#[derive(Debug, PartialEq, Eq)]
pub struct Configuration {
    /// What a chat message begins with where it is a command.
    pub command_prefix: String,
    /// The time between two polls of the room service, in seconds.
    pub refresh_interval: u64,
    /// The time after which a request to the room service is given up, in
    /// seconds.
    pub request_timeout: u64,
}

impl Default for Configuration {
    /// The settings of a fresh installation: commands begin with `!`, the
    /// room service is polled every 5 seconds, and a request is given up
    /// after 30.
    fn default() -> (configuration: Self)
        ensures
            configuration.command_prefix@ == "!"@,
            configuration.refresh_interval == 5,
            configuration.request_timeout == 30,
    {
        Configuration {
            command_prefix: String::from_str("!"),
            refresh_interval: 5,
            request_timeout: 30,
        }
    }
}

impl Clone for Configuration {
    fn clone(&self) -> (copy: Self)
        ensures
            copy.command_prefix@ == self.command_prefix@,
            copy.refresh_interval == self.refresh_interval,
            copy.request_timeout == self.request_timeout,
    {
        Configuration {
            command_prefix: self.command_prefix.clone(),
            refresh_interval: self.refresh_interval,
            request_timeout: self.request_timeout,
        }
    }
}

} // verus!
