//! Points in time as plain numbers

use vstd::prelude::*;

verus! {

/// A point in time: whole seconds since the Unix epoch, and the nanoseconds
/// into that second
#[derive(Clone, Copy, Debug, PartialEq, Eq, Structural)]
pub struct Timestamp {
    /// Seconds since 1970-01-01 00:00:00 UTC
    pub seconds: i64,
    /// Nanoseconds since the start of that second
    pub nanoseconds: u32,
}

} // verus!
