//! Failures that end a whole enumeration.
use vstd::prelude::*;

verus! {

#[derive(Clone, Copy, Debug, PartialEq, Eq)]
pub enum EnumerationError {
    /// The operating system's enumeration primitive itself failed.
    EnumerationFailed,
    /// The metadata query of the monitor with this handle failed.
    MonitorQueryFailed { handle: isize },
}

} // verus!
