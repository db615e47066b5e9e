use vstd::prelude::*;

verus! {

/// Milliseconds from 1582-10-15T00:00:00Z, where the time of identifiers
/// starts, to 1970-01-01T00:00:00Z, where Unix time starts.
pub const MILLISECS_GREGORIAN_UNIX: u64 = 12219292800000;

} // verus!
