//! The courier reports: one for each courier about their own sessions, and one for
//! the curators about all couriers. Both are split into pages of a hundred orders.

use vstd::prelude::*;
use crate::calendar::{date_text_of, time_text_of};
use crate::cells::{
    date_cell, delivery_cell, delivery_text, session_end_cell, session_end_text, string_cell,
    text_cell, time_cell,
};
use crate::labels::{method_label, method_text, status_label, status_reported, status_text};
use crate::money::{shown_amount, to_major};
use crate::records::{CourierXLS, CourierXLSTotal};
use crate::sheet::{paged, paginate, pages_view, row_view, rows_view, CellValue, CellView, Page};

verus! {

/// Why a report could not be made.
#[derive(Clone, Copy, Debug, PartialEq, Eq, Structural)]
pub enum ReportError {
    /// The order with this id is in a state that no report shows.
    UnmappedStatus(i64),
    /// A date of the report would fall before the first day of the calendar.
    DateOutOfRange,
}

/// The header row of a courier's own report.
pub open spec fn courier_header() -> Seq<CellView> {
    seq![
        CellView::Text("день сессии"@),
        CellView::Text("время начала сессии"@),
        CellView::Text("время конца сессии"@),
        CellView::Text("номер заказа"@),
        CellView::Text("забрано"@),
        CellView::Text("статус заказа"@),
        CellView::Text("детали заказа"@),
        CellView::Text("большой заказ"@),
        CellView::Text("время готовки"@),
        CellView::Text("доставлено"@),
        CellView::Text("стоимость заказа"@),
        CellView::Text("адрес доставки"@),
        CellView::Text("комментарий клиента"@),
        CellView::Text("способ оплаты"@),
    ]
}

/// The row of one order in a courier's own report.
pub open spec fn courier_row(r: CourierXLS) -> Seq<CellView> {
    seq![
        CellView::Text(date_text_of(r.session_day@)),
        CellView::Text(time_text_of(r.start_time@.secs, r.start_time@.nano)),
        CellView::Text(session_end_text(r.end_real_time)),
        CellView::Number(r.order_id as int),
        CellView::Number(shown_amount(r.courier_salary as int)),
        CellView::Text(status_text(r.order_status)),
        CellView::Text(r.details@),
        CellView::Flag(r.is_big_order),
        CellView::Text(time_text_of(r.cooking_time@.secs, r.cooking_time@.nano)),
        CellView::Text(delivery_text(r.delivery_datetime)),
        CellView::Number(shown_amount(r.order_price as int)),
        CellView::Text(r.delivery_address@),
        CellView::Text(r.client_comment@),
        CellView::Text(method_text(r.method)),
    ]
}

/// The header row of the curators' report.
pub open spec fn curator_header() -> Seq<CellView> {
    seq![
        CellView::Text("телефон курьера"@),
        CellView::Text("имя курьера"@),
        CellView::Text("фамилия курьера"@),
        CellView::Text("отчество курьера"@),
        CellView::Text("день сессии"@),
        CellView::Text("время начала сессии"@),
        CellView::Text("время конца сессии"@),
        CellView::Text("номер заказа"@),
        CellView::Text("забрано курьером"@),
        CellView::Text("статус заказа"@),
        CellView::Text("детали заказа"@),
        CellView::Text("большой заказ"@),
        CellView::Text("время готовки"@),
        CellView::Text("доставлено"@),
        CellView::Text("стоимость заказа"@),
        CellView::Text("стоимость доставки"@),
        CellView::Text("адрес доставки"@),
        CellView::Text("телефон клиента"@),
        CellView::Text("комментарий клиента"@),
        CellView::Text("способ оплаты"@),
    ]
}

/// The row of one order in the curators' report.
pub open spec fn curator_row(r: CourierXLSTotal) -> Seq<CellView> {
    seq![
        CellView::Text(r.phone@),
        CellView::Text(r.name@),
        CellView::Text(r.surname@),
        CellView::Text(r.patronymic@),
        CellView::Text(date_text_of(r.session_day@)),
        CellView::Text(time_text_of(r.start_time@.secs, r.start_time@.nano)),
        CellView::Text(session_end_text(r.end_real_time)),
        CellView::Number(r.order_id as int),
        CellView::Number(shown_amount(r.courier_salary as int)),
        CellView::Text(status_text(r.order_status)),
        CellView::Text(r.details@),
        CellView::Flag(r.is_big_order),
        CellView::Text(time_text_of(r.cooking_time@.secs, r.cooking_time@.nano)),
        CellView::Text(delivery_text(r.delivery_datetime)),
        CellView::Number(shown_amount(r.order_price as int)),
        CellView::Number(shown_amount(r.delivery_cost as int)),
        CellView::Text(r.delivery_address@),
        CellView::Text(r.client_phone@),
        CellView::Text(r.client_comment@),
        CellView::Text(method_text(r.method)),
    ]
}

/// The header row of a courier's own report.
pub fn courier_header_row() -> (r: Vec<CellValue>)
    ensures
        row_view(r@) == courier_header(),
{
    let r = vec![
        text_cell("день сессии"),
        text_cell("время начала сессии"),
        text_cell("время конца сессии"),
        text_cell("номер заказа"),
        text_cell("забрано"),
        text_cell("статус заказа"),
        text_cell("детали заказа"),
        text_cell("большой заказ"),
        text_cell("время готовки"),
        text_cell("доставлено"),
        text_cell("стоимость заказа"),
        text_cell("адрес доставки"),
        text_cell("комментарий клиента"),
        text_cell("способ оплаты"),
    ];
    assert(row_view(r@) =~= courier_header());
    r
}

/// The header row of the curators' report.
pub fn curator_header_row() -> (r: Vec<CellValue>)
    ensures
        row_view(r@) == curator_header(),
{
    let r = vec![
        text_cell("телефон курьера"),
        text_cell("имя курьера"),
        text_cell("фамилия курьера"),
        text_cell("отчество курьера"),
        text_cell("день сессии"),
        text_cell("время начала сессии"),
        text_cell("время конца сессии"),
        text_cell("номер заказа"),
        text_cell("забрано курьером"),
        text_cell("статус заказа"),
        text_cell("детали заказа"),
        text_cell("большой заказ"),
        text_cell("время готовки"),
        text_cell("доставлено"),
        text_cell("стоимость заказа"),
        text_cell("стоимость доставки"),
        text_cell("адрес доставки"),
        text_cell("телефон клиента"),
        text_cell("комментарий клиента"),
        text_cell("способ оплаты"),
    ];
    assert(row_view(r@) =~= curator_header());
    r
}

/// The row of one order in a courier's own report; an error for an order in a state
/// that no report shows.
pub fn courier_row_cells(r: &CourierXLS) -> (res: Result<Vec<CellValue>, ReportError>)
    ensures
        res is Ok <==> status_reported(r.order_status),
        res matches Ok(c) ==> row_view(c@) == courier_row(*r),
        res matches Err(e) ==> e == ReportError::UnmappedStatus(r.order_id),
{
    let status = match status_label(r.order_status) {
        Some(s) => s,
        None => return Err(ReportError::UnmappedStatus(r.order_id)),
    };
    let c = vec![
        date_cell(&r.session_day),
        time_cell(&r.start_time),
        session_end_cell(&r.end_real_time),
        CellValue::Number(r.order_id),
        CellValue::Number(to_major(r.courier_salary)),
        text_cell(status),
        string_cell(&r.details),
        CellValue::Flag(r.is_big_order),
        time_cell(&r.cooking_time),
        delivery_cell(&r.delivery_datetime),
        CellValue::Number(to_major(r.order_price)),
        string_cell(&r.delivery_address),
        string_cell(&r.client_comment),
        text_cell(method_label(r.method)),
    ];
    assert(row_view(c@) =~= courier_row(*r));
    Ok(c)
}

/// The row of one order in the curators' report; an error for an order in a state
/// that no report shows.
pub fn curator_row_cells(r: &CourierXLSTotal) -> (res: Result<Vec<CellValue>, ReportError>)
    ensures
        res is Ok <==> status_reported(r.order_status),
        res matches Ok(c) ==> row_view(c@) == curator_row(*r),
        res matches Err(e) ==> e == ReportError::UnmappedStatus(r.order_id),
{
    let status = match status_label(r.order_status) {
        Some(s) => s,
        None => return Err(ReportError::UnmappedStatus(r.order_id)),
    };
    let c = vec![
        string_cell(&r.phone),
        string_cell(&r.name),
        string_cell(&r.surname),
        string_cell(&r.patronymic),
        date_cell(&r.session_day),
        time_cell(&r.start_time),
        session_end_cell(&r.end_real_time),
        CellValue::Number(r.order_id),
        CellValue::Number(to_major(r.courier_salary)),
        text_cell(status),
        string_cell(&r.details),
        CellValue::Flag(r.is_big_order),
        time_cell(&r.cooking_time),
        delivery_cell(&r.delivery_datetime),
        CellValue::Number(to_major(r.order_price)),
        CellValue::Number(to_major(r.delivery_cost)),
        string_cell(&r.delivery_address),
        string_cell(&r.client_phone),
        string_cell(&r.client_comment),
        text_cell(method_label(r.method)),
    ];
    assert(row_view(c@) =~= curator_row(*r));
    Ok(c)
}

/// Whether the first unreported order of `rows` has the given id.
pub open spec fn first_unreported<R>(rows: Seq<R>, status: spec_fn(R) -> bool, id: spec_fn(R) -> i64, e: ReportError) -> bool {
    exists|i: int|
        0 <= i < rows.len() && !status(#[trigger] rows[i]) && (forall|j: int|
            0 <= j < i ==> status(#[trigger] rows[j])) && e == ReportError::UnmappedStatus(id(rows[i]))
}

/// The pages of a courier's own report, a hundred orders each, in order; an error
/// naming the first order in a state that no report shows, if there is one.
pub fn courier_pages(rows: &Vec<CourierXLS>) -> (res: Result<Vec<Page>, ReportError>)
    ensures
        res is Ok <==> forall|i: int| 0 <= i < rows.len() ==> status_reported(#[trigger] rows@[i].order_status),
        res matches Ok(p) ==> pages_view(p@) == paged(courier_header(), rows@.map_values(|r: CourierXLS| courier_row(r))),
        res matches Err(e) ==> first_unreported(rows@, |r: CourierXLS| status_reported(r.order_status), |r: CourierXLS| r.order_id, e),
{
    let mut table: Vec<Vec<CellValue>> = Vec::new();
    let mut i: usize = 0;
    while i < rows.len()
        invariant
            i <= rows.len(),
            forall|j: int| 0 <= j < i ==> status_reported(#[trigger] rows@[j].order_status),
            rows_view(table@) =~= rows@.subrange(0, i as int).map_values(|r: CourierXLS| courier_row(r)),
        decreases rows.len() - i,
    {
        match courier_row_cells(&rows[i]) {
            Ok(c) => {
                let ghost before = table@;
                table.push(c);
                assert(rows_view(table@) =~= rows_view(before).push(courier_row(rows@[i as int])));
                assert(rows@.subrange(0, i + 1) =~= rows@.subrange(0, i as int).push(rows@[i as int]));
            },
            Err(e) => {
                assert(!status_reported(rows@[i as int].order_status));
                return Err(e);
            },
        }
        i = i + 1;
    }
    assert(rows@.subrange(0, i as int) =~= rows@);
    let header = courier_header_row();
    Ok(paginate(&header, &table))
}

/// The pages of the curators' report, a hundred orders each, in order; an error naming
/// the first order in a state that no report shows, if there is one.
pub fn curator_pages(rows: &Vec<CourierXLSTotal>) -> (res: Result<Vec<Page>, ReportError>)
    ensures
        res is Ok <==> forall|i: int| 0 <= i < rows.len() ==> status_reported(#[trigger] rows@[i].order_status),
        res matches Ok(p) ==> pages_view(p@) == paged(curator_header(), rows@.map_values(|r: CourierXLSTotal| curator_row(r))),
        res matches Err(e) ==> first_unreported(rows@, |r: CourierXLSTotal| status_reported(r.order_status), |r: CourierXLSTotal| r.order_id, e),
{
    let mut table: Vec<Vec<CellValue>> = Vec::new();
    let mut i: usize = 0;
    while i < rows.len()
        invariant
            i <= rows.len(),
            forall|j: int| 0 <= j < i ==> status_reported(#[trigger] rows@[j].order_status),
            rows_view(table@) =~= rows@.subrange(0, i as int).map_values(|r: CourierXLSTotal| curator_row(r)),
        decreases rows.len() - i,
    {
        match curator_row_cells(&rows[i]) {
            Ok(c) => {
                let ghost before = table@;
                table.push(c);
                assert(rows_view(table@) =~= rows_view(before).push(curator_row(rows@[i as int])));
                assert(rows@.subrange(0, i + 1) =~= rows@.subrange(0, i as int).push(rows@[i as int]));
            },
            Err(e) => {
                assert(!status_reported(rows@[i as int].order_status));
                return Err(e);
            },
        }
        i = i + 1;
    }
    assert(rows@.subrange(0, i as int) =~= rows@);
    let header = curator_header_row();
    Ok(paginate(&header, &table))
}

} // verus!
