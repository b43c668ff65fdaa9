use vstd::prelude::*;

use crate::time::Instant;

verus! {

/// A value plus the monotonic instant at which it became current.
#[derive(Clone, Copy, Debug, PartialEq, Eq, Hash)]
pub struct Timestamped<T> {
    pub value: T,
    pub since: Instant,
}

impl<T> Timestamped<T> {
    pub fn new(value: T, since: Instant) -> (r: Self)
        ensures
            r.value == value,
            r.since == since,
    {
        Timestamped { value, since }
    }
}

} // verus!
