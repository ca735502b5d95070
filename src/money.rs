//! Amounts of money: stored in minor units (kopecks), shown in major units (roubles).

use vstd::prelude::*;

verus! {

/// Minor units in one major unit.
pub const MINOR_PER_MAJOR: i64 = 100;

/// The shown value of an amount: the amount divided by 100, rounded down.
pub open spec fn shown_amount(a: int) -> int {
    a / 100
}

/// The shown value of an amount in minor units.
pub fn to_major(a: i64) -> (r: i64)
    ensures
        r as int == shown_amount(a as int),
{
    if a >= 0 {
        a / MINOR_PER_MAJOR
    } else {
        -((-(a + 1)) / MINOR_PER_MAJOR) - 1
    }
}

/// The shown value of any amount is the amount divided by 100, rounded down: the
/// largest whole number of major units that does not exceed the amount.
pub proof fn shown_amount_is_floor(a: int)
    ensures
        shown_amount(a) * 100 <= a < shown_amount(a) * 100 + 100,
{
}

} // verus!
