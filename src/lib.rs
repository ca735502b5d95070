//! Report generation for a delivery marketplace: courier session sheets,
//! curator summaries and weekly restaurant settlements, rendered into
//! spreadsheet pages and planned as e-mail deliveries.

pub mod enum_types;
pub mod calendar;
pub mod labels;
pub mod money;
pub mod sheet;
pub mod records;
pub mod cells;
pub mod courier_report;
pub mod decimal;
pub mod settlement;
pub mod dispatch;
pub mod credentials;
pub mod requests;
pub mod schedule;
pub mod recipients;
