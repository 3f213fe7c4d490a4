use vstd::prelude::*;

verus! {

/// Severity of a log record, from the least urgent to the most urgent.
#[derive(Clone, Copy, Debug, PartialEq, Eq, Structural, PartialOrd, Ord, Hash)]
pub enum Level {
    Trace,
    Debug,
    Info,
    Warn,
    Error,
}

} // verus!
