//! The weekly settlement report of a restaurant: what was paid for its orders by card,
//! in cash and in advance, the platform's commission, and the sum to transfer.

use vstd::prelude::*;
use crate::calendar::{date_text_of, Date};
use crate::cells::{string_cell, text_cell};
use crate::decimal::{decimal_of, decimal_text};
use crate::sheet::{row_view, rows_view, CellValue, CellView, Page};

verus! {

/// Totals of one restaurant's orders finalized in the reporting week, amounts in minor units.
#[derive(Debug, PartialEq, Eq)]
pub struct RestaurantSettlement {
    /// Orders paid by card.
    pub orders_card_pay: u64,
    /// Their total price.
    pub orders_card_pay_sum: u64,
    /// Orders paid in cash.
    pub orders_cash_pay: u64,
    /// Their total price.
    pub orders_cash_pay_sum: u64,
    /// Orders failed by the restaurant.
    pub orders_reject_pay: u64,
    /// Their total price.
    pub orders_reject_pay_sum: u64,
    /// Orders paid in advance.
    pub orders_no_pay: u64,
    /// The couriers' share of the delivery fees.
    pub total_delivery: u64,
}

/// The platform's commission in major units: 2% of the card payments, taken after
/// the card payments are converted to major units, rounded down.
pub open spec fn commission_of(card_sum: int) -> int {
    (card_sum / 100) * 2 / 100
}

/// The sum to transfer in major units: the couriers' share of the delivery fees plus
/// 98% of the card payments, converted to major units, rounded down.
pub open spec fn payable_of(total_delivery: int, card_sum: int) -> int {
    (total_delivery + card_sum * 98 / 100) / 100
}

/// The number of orders that were carried out: paid by card, in cash, or in advance.
pub open spec fn completed_of(s: RestaurantSettlement) -> int {
    s.orders_card_pay + s.orders_cash_pay + s.orders_no_pay
}

/// The platform's commission in major units.
pub fn commission(card_sum: u64) -> (r: u64)
    ensures
        r as int == commission_of(card_sum as int),
{
    card_sum / 100 * 2 / 100
}

/// The sum to transfer in major units.
pub fn payable(total_delivery: u64, card_sum: u64) -> (r: u64)
    ensures
        r as int == payable_of(total_delivery as int, card_sum as int),
{
    let share = (card_sum as u128) * 98 / 100;
    assert(share <= card_sum) by (nonlinear_arith)
        requires
            share == (card_sum as int) * 98 / 100,
            card_sum >= 0,
    ;
    let r = ((total_delivery as u128) + share) / 100;
    r as u64
}

/// The commission is the same whether the card payments are converted to major units
/// first or the whole product is divided at once: `(c / 100) * 2 / 100 == c * 2 / 10000`.
pub proof fn commission_law(card_sum: int)
    requires
        card_sum >= 0,
    ensures
        commission_of(card_sum) == card_sum * 2 / 10000,
        commission_of(card_sum) == card_sum / 5000,
{
    let y = card_sum / 100;
    assert(y * 2 / 100 == y / 50) by (nonlinear_arith)
        requires
            y >= 0,
    ;
    assert(card_sum * 2 / 10000 == card_sum / 5000) by (nonlinear_arith)
        requires
            card_sum >= 0,
    ;
    vstd::arithmetic::div_mod::lemma_div_denominator(card_sum, 100, 50);
}

/// The reporting week ending yesterday: from seven days before `today` to the day before.
pub fn settlement_period(today: &Date) -> (r: Option<(Date, Date)>)
    ensures
        r is Some <==> today@ - 7 >= crate::calendar::FIRST_DAY,
        r matches Some(p) ==> p.0@ == today@ - 7 && p.1@ == today@ - 1,
{
    match today.days_before(7) {
        Some(from) => match today.days_before(1) {
            Some(to) => Some((from, to)),
            None => None,
        },
        None => None,
    }
}

/// "from <from> to <to>" as the report words it.
pub open spec fn span_text(from: Seq<char>, to: Seq<char>) -> Seq<char> {
    "за период с "@ + from + " по "@ + to
}

/// The lines of the settlement sheet, from the top; each line's cells from the left.
pub open spec fn settlement_rows(s: RestaurantSettlement, from: Seq<char>, to: Seq<char>) -> Seq<Seq<CellView>> {
    let span = span_text(from, to);
    let pay = decimal_of(payable_of(s.total_delivery as int, s.orders_card_pay_sum as int) as nat);
    seq![
        seq![CellView::Text("Информационный отчет о движении денежных средств"@)],
        seq![CellView::Text("по договору № _________ от 31.05.2021 "@ + span)],
        seq![],
        seq![CellView::Text("1. За период с "@ + from + " по "@ + to + " г. \"Top Go\"  были получены и переданы клиенту:"@)],
        seq![],
        seq![CellView::Text(" - "@ + decimal_of(s.orders_card_pay as nat) + " заказов, исполненных и оплаченных покупателями по терминалу на сумму "@ + decimal_of((s.orders_card_pay_sum / 100) as nat) + " руб "@)],
        seq![CellView::Text(" - "@ + decimal_of(s.orders_cash_pay as nat) + " заказов, исполненных и оплаченных покупателями наличными на сумму "@ + decimal_of((s.orders_cash_pay_sum / 100) as nat) + " руб "@)],
        seq![CellView::Text(" - "@ + decimal_of(s.orders_reject_pay as nat) + " заказов, не исполненных заказчиком по вине ресторана на общую сумму "@ + decimal_of((s.orders_reject_pay_sum / 100) as nat) + " руб"@)],
        seq![],
        seq![],
        seq![CellView::Text("2. Комиссия \"Top Go\" за прием оплаты заказа по терминалу "@ + span + " составила: "@ + decimal_of(commission_of(s.orders_card_pay_sum as int) as nat) + " руб. (2% от общей суммы заказов принятых по терминалу за указанный период)"@)],
        seq![CellView::Text("2.1 Комиссия \"Top Go\" за "@ + decimal_of(completed_of(s) as nat) + " выполненных заказов "@ + span + " составила: "@ + decimal_of((s.total_delivery / 100) as nat) + " руб. "@)],
        seq![CellView::Text("2.2 Сводная сумма комиссии \"Top Go\" "@ + span + " составила: "@ + pay + " руб. "@)],
        seq![],
        seq![CellView::Text("3. Сумма к перечислению "@ + span + " г. составляет "@ + pay + " руб."@)],
        seq![],
        seq![
            CellView::Text("№"@),
            CellView::Text("Общее количество заказов"@),
            CellView::Text("Сумма заказов оплаченных по терминалу"@),
            CellView::Text("Количество заказов оплаченных по терминалу"@),
            CellView::Text("Сумма заказов оплаченных наличными"@),
            CellView::Text("Количество заказов без оплаты"@),
            CellView::Text("Итого сумма к перечислению"@),
        ],
        seq![
            CellView::Text("1"@),
            CellView::Text(decimal_of(completed_of(s) as nat)),
            CellView::Text(decimal_of((s.orders_card_pay_sum / 100) as nat)),
            CellView::Text(decimal_of(s.orders_card_pay as nat)),
            CellView::Text(decimal_of((s.orders_cash_pay_sum / 100) as nat)),
            CellView::Text(decimal_of(s.orders_cash_pay as nat)),
            CellView::Text(pay),
        ],
        seq![
            CellView::Text("итого:"@),
            CellView::Blank,
            CellView::Blank,
            CellView::Blank,
            CellView::Blank,
            CellView::Blank,
            CellView::Text(pay),
        ],
    ]
}

/// A row of one text cell.
fn line(t: String) -> (r: Vec<CellValue>)
    ensures
        row_view(r@) == seq![CellView::Text(t@)],
{
    let r = vec![CellValue::Text(t)];
    assert(row_view(r@) =~= seq![CellView::Text(t@)]);
    r
}

/// The settlement sheet of a restaurant for the week from `from` to `to`.
pub fn settlement_sheet(s: &RestaurantSettlement, from: &Date, to: &Date) -> (r: Page)
    ensures
        r@ == settlement_rows(*s, date_text_of(from@), date_text_of(to@)),
{
    let f = from.text();
    let t = to.text();
    let span = String::from_str("за период с ").concat(f.as_str()).concat(" по ").concat(t.as_str());
    let card_count = decimal_text(s.orders_card_pay as u128);
    let card_sum = decimal_text((s.orders_card_pay_sum / 100) as u128);
    let cash_count = decimal_text(s.orders_cash_pay as u128);
    let cash_sum = decimal_text((s.orders_cash_pay_sum / 100) as u128);
    let reject_count = decimal_text(s.orders_reject_pay as u128);
    let reject_sum = decimal_text((s.orders_reject_pay_sum / 100) as u128);
    let fee = decimal_text(commission(s.orders_card_pay_sum) as u128);
    let completed = decimal_text(
        (s.orders_card_pay as u128) + (s.orders_cash_pay as u128) + (s.orders_no_pay as u128),
    );
    let delivery = decimal_text((s.total_delivery / 100) as u128);
    let pay = payable(s.total_delivery, s.orders_card_pay_sum);

    let mut rows: Vec<Vec<CellValue>> = Vec::new();
    rows.push(vec![text_cell("Информационный отчет о движении денежных средств")]);
    rows.push(line(String::from_str("по договору № _________ от 31.05.2021 ").concat(span.as_str())));
    rows.push(Vec::new());
    rows.push(
        line(
            String::from_str("1. За период с ").concat(f.as_str()).concat(" по ").concat(
                t.as_str(),
            ).concat(" г. \"Top Go\"  были получены и переданы клиенту:"),
        ),
    );
    rows.push(Vec::new());
    rows.push(
        line(
            String::from_str(" - ").concat(card_count.as_str()).concat(
                " заказов, исполненных и оплаченных покупателями по терминалу на сумму ",
            ).concat(card_sum.as_str()).concat(" руб "),
        ),
    );
    rows.push(
        line(
            String::from_str(" - ").concat(cash_count.as_str()).concat(
                " заказов, исполненных и оплаченных покупателями наличными на сумму ",
            ).concat(cash_sum.as_str()).concat(" руб "),
        ),
    );
    rows.push(
        line(
            String::from_str(" - ").concat(reject_count.as_str()).concat(
                " заказов, не исполненных заказчиком по вине ресторана на общую сумму ",
            ).concat(reject_sum.as_str()).concat(" руб"),
        ),
    );
    rows.push(Vec::new());
    rows.push(Vec::new());
    rows.push(
        line(
            String::from_str("2. Комиссия \"Top Go\" за прием оплаты заказа по терминалу ").concat(
                span.as_str(),
            ).concat(" составила: ").concat(fee.as_str()).concat(
                " руб. (2% от общей суммы заказов принятых по терминалу за указанный период)",
            ),
        ),
    );
    rows.push(
        line(
            String::from_str("2.1 Комиссия \"Top Go\" за ").concat(completed.as_str()).concat(
                " выполненных заказов ",
            ).concat(span.as_str()).concat(" составила: ").concat(delivery.as_str()).concat(
                " руб. ",
            ),
        ),
    );
    let pay_text = decimal_text(pay as u128);
    rows.push(
        line(
            String::from_str("2.2 Сводная сумма комиссии \"Top Go\" ").concat(span.as_str()).concat(
                " составила: ",
            ).concat(pay_text.as_str()).concat(" руб. "),
        ),
    );
    rows.push(Vec::new());
    rows.push(
        line(
            String::from_str("3. Сумма к перечислению ").concat(span.as_str()).concat(
                " г. составляет ",
            ).concat(pay_text.as_str()).concat(" руб."),
        ),
    );
    rows.push(Vec::new());
    rows.push(
        vec![
            text_cell("№"),
            text_cell("Общее количество заказов"),
            text_cell("Сумма заказов оплаченных по терминалу"),
            text_cell("Количество заказов оплаченных по терминалу"),
            text_cell("Сумма заказов оплаченных наличными"),
            text_cell("Количество заказов без оплаты"),
            text_cell("Итого сумма к перечислению"),
        ],
    );
    rows.push(
        vec![
            text_cell("1"),
            string_cell(&completed),
            string_cell(&card_sum),
            string_cell(&card_count),
            string_cell(&cash_sum),
            string_cell(&cash_count),
            string_cell(&pay_text),
        ],
    );
    rows.push(
        vec![
            text_cell("итого:"),
            CellValue::Blank,
            CellValue::Blank,
            CellValue::Blank,
            CellValue::Blank,
            CellValue::Blank,
            string_cell(&pay_text),
        ],
    );
    let page = Page { rows };
    assert(page@ =~= settlement_rows(*s, f@, t@)) by {
        let v = rows_view(rows@);
        let w = settlement_rows(*s, f@, t@);
        assert(v.len() == w.len());
        assert forall|i: int| 0 <= i < v.len() implies v[i] =~= w[i] by {
        }
    }
    page
}

} // verus!
