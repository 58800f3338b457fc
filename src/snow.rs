//! Counting snow in snowballs.
use vstd::prelude::*;

verus! {

/// An amount of snow, as a whole number of snowballs.
#[derive(Debug, Clone, Copy, PartialEq, Eq, Structural)]
pub struct Snowball(pub i64);

impl Snowball {
    /// So many snowballs.
    pub fn new(snowballs: i64) -> (r: Snowball)
        ensures
            r.0 == snowballs,
    {
        Snowball(snowballs)
    }
}

} // verus!
