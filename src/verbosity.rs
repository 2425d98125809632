use vstd::prelude::*;

verus! {

/// How much the log shows, from nothing to everything.
#[derive(Clone, Copy, Debug, PartialEq, Eq, Structural)]
pub enum Verbosity {
    Off,
    Error,
    Warn,
    Info,
    Debug,
    Trace,
}

/// The level that `count` repetitions of the verbose flag select; five or more give `Trace`.
pub open spec fn level_of(count: u8) -> Verbosity {
    if count == 0 {
        Verbosity::Off
    } else if count == 1 {
        Verbosity::Error
    } else if count == 2 {
        Verbosity::Warn
    } else if count == 3 {
        Verbosity::Info
    } else if count == 4 {
        Verbosity::Debug
    } else {
        Verbosity::Trace
    }
}

/// The log level for a number of verbose flags.
pub fn verbosity_level(count: u8) -> (r: Verbosity)
    ensures
        r == level_of(count),
{
    match count {
        0 => Verbosity::Off,
        1 => Verbosity::Error,
        2 => Verbosity::Warn,
        3 => Verbosity::Info,
        4 => Verbosity::Debug,
        _ => Verbosity::Trace,
    }
}

} // verus!
