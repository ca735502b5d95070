//! Which sheets are mailed to whom, and under which subject.

use vstd::prelude::*;
use crate::calendar::{date_text_of, Date, FIRST_DAY};
use crate::courier_report::{
    courier_header, courier_pages, courier_row, curator_header, curator_pages, curator_row,
    first_unreported, ReportError,
};
use crate::labels::status_reported;
use crate::records::{CourierXLS, CourierXLSTotal};
use crate::settlement::{settlement_rows, settlement_sheet, RestaurantSettlement};
use crate::sheet::{
    page_count, page_of, page_start, paged, pages_view, paging_law, CellView, Page, PAGE_ROWS,
};

verus! {

/// The mailbox of the operations team, which gets the curators' report and a copy of
/// every settlement.
pub open spec fn operations_address_text() -> Seq<char> {
    "noreply@topgo.club"@
}

/// The mailbox of the operations team.
pub fn operations_address() -> (r: String)
    ensures
        r@ == operations_address_text(),
{
    String::from_str("noreply@topgo.club")
}

/// One sheet to be mailed.
#[derive(Debug, PartialEq, Eq)]
pub struct Delivery {
    pub to: String,
    pub subject: String,
    pub page: Page,
}

/// What a delivery holds.
pub struct DeliveryView {
    pub to: Seq<char>,
    pub subject: Seq<char>,
    pub page: Seq<Seq<CellView>>,
}

impl View for Delivery {
    type V = DeliveryView;

    open spec fn view(&self) -> DeliveryView {
        DeliveryView { to: self.to@, subject: self.subject@, page: self.page@ }
    }
}

/// What a sequence of deliveries holds.
pub open spec fn deliveries_view(d: Seq<Delivery>) -> Seq<DeliveryView> {
    d.map_values(|x: Delivery| x@)
}

/// Each page mailed to `to` under `subject`, in the order of the pages.
pub open spec fn mail_each(to: Seq<char>, subject: Seq<char>, pages: Seq<Seq<Seq<CellView>>>) -> Seq<DeliveryView> {
    pages.map_values(|p: Seq<Seq<CellView>>| DeliveryView { to, subject, page: p })
}

/// Mailing the pages of a table gives one mail per page, `n / 100` of them rounded up
/// for `n` rows; every mail goes to `to` under `subject`, and mail `k` carries page `k`:
/// the header, then the rows from index `100 * k` on, at most a hundred, in their order.
pub proof fn mail_per_page_law(to: Seq<char>, subject: Seq<char>, header: Seq<CellView>, rows: Seq<Seq<CellView>>)
    ensures
        mail_each(to, subject, paged(header, rows)).len() == page_count(rows.len() as int),
        forall|k: int|
            0 <= k < page_count(rows.len() as int) ==> {
                let m = #[trigger] mail_each(to, subject, paged(header, rows))[k];
                &&& m.to == to
                &&& m.subject == subject
                &&& m.page == page_of(header, rows, k)
                &&& 2 <= m.page.len() <= PAGE_ROWS + 1
                &&& m.page[0] == header
                &&& forall|j: int|
                    1 <= j < m.page.len() ==> m.page[j] == rows[page_start(k) + j - 1]
            },
{
    paging_law(header, rows);
    assert forall|k: int| 0 <= k < page_count(rows.len() as int) implies {
        let m = #[trigger] mail_each(to, subject, paged(header, rows))[k];
        &&& m.to == to
        &&& m.subject == subject
        &&& m.page == page_of(header, rows, k)
        &&& 2 <= m.page.len() <= PAGE_ROWS + 1
        &&& m.page[0] == header
        &&& forall|j: int| 1 <= j < m.page.len() ==> m.page[j] == rows[page_start(k) + j - 1]
    } by {
        let p = paged(header, rows)[k];
        assert(p == page_of(header, rows, k));
    }
}

/// Subject of a courier's own report about day `day`.
pub open spec fn courier_subject(day: int) -> Seq<char> {
    "отчет за "@ + date_text_of(day)
}

/// Subject of the curators' report about day `day`.
pub open spec fn curator_subject(day: int) -> Seq<char> {
    "отчет по курьерам за "@ + date_text_of(day)
}

/// Subject of a settlement for the week that starts on day `day`.
pub open spec fn settlement_subject(day: int) -> Seq<char> {
    "отчет за "@ + date_text_of(day)
}

/// Mails each page to `to` under `subject`.
fn address_pages(to: &String, subject: &String, pages: &Vec<Page>) -> (r: Vec<Delivery>)
    ensures
        deliveries_view(r@) == mail_each(to@, subject@, pages_view(pages@)),
{
    let mut out: Vec<Delivery> = Vec::new();
    let mut i: usize = 0;
    while i < pages.len()
        invariant
            i <= pages.len(),
            deliveries_view(out@) =~= mail_each(to@, subject@, pages_view(pages@.subrange(0, i as int))),
        decreases pages.len() - i,
    {
        let d = Delivery { to: to.clone(), subject: subject.clone(), page: pages[i].copy() };
        let ghost before = out@;
        out.push(d);
        i = i + 1;
        assert(deliveries_view(out@) =~= deliveries_view(before).push(d@));
        assert(pages@.subrange(0, i as int) =~= pages@.subrange(0, i - 1).push(pages@[i - 1]));
        assert(mail_each(to@, subject@, pages_view(pages@.subrange(0, i as int))) =~= mail_each(
            to@,
            subject@,
            pages_view(pages@.subrange(0, i - 1)),
        ).push(d@));
    }
    assert(pages@.subrange(0, i as int) =~= pages@);
    out
}

/// The mails of a courier's own report, made on `today` about the day before: every
/// page to the courier's address. An error for an order in a state that no report
/// shows, or when `today` is the first day of the calendar.
pub fn courier_deliveries(email: &String, rows: &Vec<CourierXLS>, today: &Date) -> (res: Result<Vec<Delivery>, ReportError>)
    ensures
        res is Ok <==> today@ - 1 >= FIRST_DAY && forall|i: int|
            0 <= i < rows.len() ==> status_reported(#[trigger] rows@[i].order_status),
        res matches Ok(d) ==> deliveries_view(d@) == mail_each(
            email@,
            courier_subject(today@ - 1),
            paged(courier_header(), rows@.map_values(|r: CourierXLS| courier_row(r))),
        ),
        res matches Err(e) ==> if today@ - 1 < FIRST_DAY {
            e == ReportError::DateOutOfRange
        } else {
            first_unreported(rows@, |r: CourierXLS| status_reported(r.order_status), |r: CourierXLS| r.order_id, e)
        },
{
    let day = match today.days_before(1) {
        Some(d) => d,
        None => return Err(ReportError::DateOutOfRange),
    };
    let pages = courier_pages(rows)?;
    let subject = String::from_str("отчет за ").concat(day.text().as_str());
    Ok(address_pages(email, &subject, &pages))
}

/// The mails of the curators' report, made on `today` about the day before: every page
/// to the operations mailbox. An error for an order in a state that no report shows, or
/// when `today` is the first day of the calendar.
pub fn curator_deliveries(rows: &Vec<CourierXLSTotal>, today: &Date) -> (res: Result<Vec<Delivery>, ReportError>)
    ensures
        res is Ok <==> today@ - 1 >= FIRST_DAY && forall|i: int|
            0 <= i < rows.len() ==> status_reported(#[trigger] rows@[i].order_status),
        res matches Ok(d) ==> deliveries_view(d@) == mail_each(
            operations_address_text(),
            curator_subject(today@ - 1),
            paged(curator_header(), rows@.map_values(|r: CourierXLSTotal| curator_row(r))),
        ),
        res matches Err(e) ==> if today@ - 1 < FIRST_DAY {
            e == ReportError::DateOutOfRange
        } else {
            first_unreported(rows@, |r: CourierXLSTotal| status_reported(r.order_status), |r: CourierXLSTotal| r.order_id, e)
        },
{
    let day = match today.days_before(1) {
        Some(d) => d,
        None => return Err(ReportError::DateOutOfRange),
    };
    let pages = curator_pages(rows)?;
    let subject = String::from_str("отчет по курьерам за ").concat(day.text().as_str());
    Ok(address_pages(&operations_address(), &subject, &pages))
}

/// The mails of a restaurant's settlement, made on `today` about the seven days before:
/// the sheet to the restaurant, then the same sheet to the operations mailbox. An error
/// when the week would start before the first day of the calendar.
pub fn settlement_deliveries(email: &String, s: &RestaurantSettlement, today: &Date) -> (res: Result<Vec<Delivery>, ReportError>)
    ensures
        res is Ok <==> today@ - 7 >= FIRST_DAY,
        res matches Ok(d) ==> deliveries_view(d@) == seq![
            DeliveryView {
                to: email@,
                subject: settlement_subject(today@ - 7),
                page: settlement_rows(*s, date_text_of(today@ - 7), date_text_of(today@ - 1)),
            },
            DeliveryView {
                to: operations_address_text(),
                subject: settlement_subject(today@ - 7),
                page: settlement_rows(*s, date_text_of(today@ - 7), date_text_of(today@ - 1)),
            },
        ],
        res matches Err(e) ==> e == ReportError::DateOutOfRange,
{
    let (from, to) = match crate::settlement::settlement_period(today) {
        Some(p) => p,
        None => return Err(ReportError::DateOutOfRange),
    };
    let sheet = settlement_sheet(s, &from, &to);
    let subject = String::from_str("отчет за ").concat(from.text().as_str());
    let first = Delivery { to: email.clone(), subject: subject.clone(), page: sheet.copy() };
    let second = Delivery { to: operations_address(), subject, page: sheet };
    let out = vec![first, second];
    assert(deliveries_view(out@) =~= seq![first@, second@]);
    Ok(out)
}

} // verus!
