//! Host-facing configuration: the logging verbosity knob.  Reading it
//! from the command line is the host's business; the core only carries
//! the chosen value.

use vstd::prelude::*;

verus! {

/// The verbosity the host asked for.
#[derive(Debug, Copy, Clone, PartialEq, Eq, Structural)]
pub enum LogLevel {
    Trace,
    Debug,
    Info,
    Warn,
    Error,
}

/// Everything the host configures.
#[derive(Debug, Copy, Clone, PartialEq, Eq, Structural)]
pub struct Config {
    pub log_level: LogLevel,
}

impl Config {
    pub fn new(log_level: LogLevel) -> (r: Config)
        ensures
            r.log_level == log_level,
    {
        Config { log_level }
    }
}

} // verus!
