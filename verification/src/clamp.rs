//! Capping and flooring of natural numbers.

use vstd::prelude::*;

verus! {

/// `value`, capped at `ceiling`.
pub open spec fn at_most(value: nat, ceiling: nat) -> nat {
    if value <= ceiling {
        value
    } else {
        ceiling
    }
}

/// `value`, raised to `floor` where it is below.
pub open spec fn at_least(value: nat, floor: nat) -> nat {
    if value >= floor {
        value
    } else {
        floor
    }
}

} // verus!
