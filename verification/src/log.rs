//! Log lines the core asks the shell to emit.

use vstd::prelude::*;

use crate::ids::LogLevel;

verus! {

#[derive(Clone, Debug, PartialEq, Eq)]
pub struct LogRecord {
    pub level: LogLevel,
    /// Short name of the subsystem that logged.
    pub source: String,
    pub message: String,
}

} // verus!
