//! The first, coarse set of actions, and a sum.

use vstd::prelude::*;

verus! {

/// The sum of `left` and `right`, which must fit 64 bits.
pub fn add(left: u64, right: u64) -> (r: u64)
    requires
        left + right <= u64::MAX,
    ensures
        r == left + right,
{
    left + right
}

/// What an entity can be told to do.
#[derive(Debug, PartialEq, Eq, Hash)]
pub enum Action {
    Attack,
    Move,
    Die,
    Healt,
}

} // verus!
