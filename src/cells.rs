//! Cells of the courier reports, and how optional moments are shown.

use vstd::prelude::*;
use crate::calendar::{date_time_text, time_text_of, Date, DateTime, TimeOfDay};
use crate::labels::{session_not_ended, session_not_ended_text};
use crate::sheet::{CellValue, CellView};

verus! {

/// A text cell holding `s`.
pub fn text_cell(s: &str) -> (r: CellValue)
    ensures
        r@ == CellView::Text(s@),
{
    CellValue::Text(String::from_str(s))
}

/// A text cell holding a copy of `s`.
pub fn string_cell(s: &String) -> (r: CellValue)
    ensures
        r@ == CellView::Text(s@),
{
    CellValue::Text(s.clone())
}

/// The end of a session: its time, or the placeholder while the session is still open.
pub open spec fn session_end_text(t: Option<TimeOfDay>) -> Seq<char> {
    match t {
        Some(t) => time_text_of(t@.secs, t@.nano),
        None => session_not_ended_text(),
    }
}

/// The moment of a delivery: its date and time, or nothing while it is not delivered.
pub open spec fn delivery_text(m: Option<DateTime>) -> Seq<char> {
    match m {
        Some(m) => date_time_text(m.date@, m.time@),
        None => Seq::empty(),
    }
}

/// The cell for the end of a session.
pub fn session_end_cell(t: &Option<TimeOfDay>) -> (r: CellValue)
    ensures
        r@ == CellView::Text(session_end_text(*t)),
{
    match t {
        Some(t) => CellValue::Text(t.text()),
        None => text_cell(session_not_ended()),
    }
}

/// The cell for the moment of a delivery.
pub fn delivery_cell(m: &Option<DateTime>) -> (r: CellValue)
    ensures
        r@ == CellView::Text(delivery_text(*m)),
{
    match m {
        Some(m) => CellValue::Text(m.text()),
        None => CellValue::Text(String::new()),
    }
}

/// The cell for a date.
pub fn date_cell(d: &Date) -> (r: CellValue)
    ensures
        r@ == CellView::Text(crate::calendar::date_text_of(d@)),
{
    CellValue::Text(d.text())
}

/// The cell for a time of day.
pub fn time_cell(t: &TimeOfDay) -> (r: CellValue)
    ensures
        r@ == CellView::Text(time_text_of(t@.secs, t@.nano)),
{
    CellValue::Text(t.text())
}

/// A session that has not ended shows the placeholder, an order not yet delivered shows
/// nothing, and the two are never the same text.
pub proof fn fallback_law()
    ensures
        session_end_text(None) == session_not_ended_text(),
        delivery_text(None) == Seq::<char>::empty(),
        session_end_text(None) != delivery_text(None),
{
    reveal_strlit("на момент создания отчета сессия не была закончена");
    assert(session_not_ended_text().len() > 0);
}

} // verus!
