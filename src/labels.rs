//! Fixed localized texts of the reports.

use vstd::prelude::*;
use crate::enum_types::{OrderStatus, PayMethod};

verus! {

/// Shown in place of the end of a session that had not ended when the report was made.
pub open spec fn session_not_ended_text() -> Seq<char> {
    "на момент создания отчета сессия не была закончена"@
}

/// The placeholder for the end of a session that had not ended when the report was made.
pub fn session_not_ended() -> (r: &'static str)
    ensures
        r@ == session_not_ended_text(),
{
    "на момент создания отчета сессия не была закончена"
}

/// Whether an order in this state appears in a courier report.
pub open spec fn status_reported(s: OrderStatus) -> bool {
    match s {
        OrderStatus::Success | OrderStatus::FailureByRestaurant | OrderStatus::FailureByCourier => true,
        _ => false,
    }
}

/// The label of a reported order state.
pub open spec fn status_text(s: OrderStatus) -> Seq<char> {
    match s {
        OrderStatus::Success => "успешно доставлено"@,
        OrderStatus::FailureByRestaurant => "отменено по вине ресторана"@,
        OrderStatus::FailureByCourier => "отменено по вине курьера"@,
        _ => Seq::empty(),
    }
}

/// The label of a payment method.
pub open spec fn method_text(m: PayMethod) -> Seq<char> {
    match m {
        PayMethod::Cash => "наличными"@,
        PayMethod::Card => "картой"@,
        PayMethod::AlreadyPayed => "оплачено заранее"@,
    }
}

/// The label of an order state; `None` for the states that a report never shows.
pub fn status_label(s: OrderStatus) -> (r: Option<&'static str>)
    ensures
        r is Some <==> status_reported(s),
        r matches Some(t) ==> t@ == status_text(s),
{
    match s {
        OrderStatus::Success => Some("успешно доставлено"),
        OrderStatus::FailureByRestaurant => Some("отменено по вине ресторана"),
        OrderStatus::FailureByCourier => Some("отменено по вине курьера"),
        _ => None,
    }
}

/// The label of a payment method.
pub fn method_label(m: PayMethod) -> (r: &'static str)
    ensures
        r@ == method_text(m),
{
    match m {
        PayMethod::Cash => "наличными",
        PayMethod::Card => "картой",
        PayMethod::AlreadyPayed => "оплачено заранее",
    }
}

} // verus!
