use vstd::prelude::*;

verus! {

/// The state of a relay that has not started listening.
pub struct Ready;

/// The state of a relay that is listening.
pub struct Running;

} // verus!
