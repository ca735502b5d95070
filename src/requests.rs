//! Small request bodies of the service's API.

use vstd::prelude::*;

verus! {

/// A request that names one record by its id.
#[derive(Debug, PartialEq, Eq)]
pub struct Id {
    pub id: i64,
}

/// A courier and an order, as in an assignment of the one to the other.
#[derive(Debug, PartialEq, Eq)]
pub struct CourierToOrder {
    pub courier_id: i64,
    pub order_id: i64,
}

/// A message left on the landing page.
#[derive(Debug, PartialEq, Eq)]
pub struct LandingRequest {
    pub name: String,
    pub phone: String,
    pub mail: String,
    pub text: String,
}

/// Which of a courier's balances to set back to zero.
#[derive(Debug, PartialEq, Eq)]
pub struct NullMoney {
    pub courier_id: i64,
    pub salary: bool,
    pub all: bool,
    pub cash: bool,
    pub card: bool,
}

/// The balances of a courier that are reset together.
#[derive(Debug, PartialEq, Eq)]
pub struct BalanceReset {
    pub salary: bool,
    pub cash: bool,
    pub term: bool,
}

/// The balances that a reset request clears: all three for `all`; otherwise only the
/// first of salary, card (the terminal balance) and cash that is asked for.
pub fn balances_to_reset(data: &NullMoney) -> (r: BalanceReset)
    ensures
        r.salary == (data.all || data.salary),
        r.term == (data.all || (!data.salary && data.card)),
        r.cash == (data.all || (!data.salary && !data.card && data.cash)),
{
    if data.all {
        BalanceReset { salary: true, cash: true, term: true }
    } else if data.salary {
        BalanceReset { salary: true, cash: false, term: false }
    } else if data.card {
        BalanceReset { salary: false, cash: false, term: true }
    } else if data.cash {
        BalanceReset { salary: false, cash: true, term: false }
    } else {
        BalanceReset { salary: false, cash: false, term: false }
    }
}

} // verus!
