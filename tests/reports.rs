use topgo_reports::calendar::{Date, DateTime, TimeOfDay};
use topgo_reports::courier_report::{courier_pages, curator_pages, ReportError};
use topgo_reports::dispatch::{courier_deliveries, curator_deliveries};
use topgo_reports::enum_types::{OrderStatus, PayMethod};
use topgo_reports::records::{CourierXLS, CourierXLSTotal};
use topgo_reports::sheet::{CellValue, Page};

const NOT_ENDED: &str = "на момент создания отчета сессия не была закончена";

fn day(n: i32) -> Date {
    Date::from_days(n).unwrap()
}

fn time(secs: u32) -> TimeOfDay {
    TimeOfDay::from_parts(secs, 0).unwrap()
}

fn text(s: &str) -> CellValue {
    CellValue::Text(s.to_string())
}

fn courier_row(order_id: i64, status: OrderStatus, end: Option<TimeOfDay>, delivered: Option<DateTime>) -> CourierXLS {
    CourierXLS {
        courier_id: 7,
        session_day: day(737941),
        start_time: time(9 * 3600),
        end_real_time: end,
        order_id,
        take_datetime: None,
        order_status: status,
        details: "пицца".to_string(),
        is_big_order: false,
        cooking_time: time(20 * 60),
        delivery_datetime: delivered,
        courier_salary: 15099,
        order_price: 123456,
        delivery_address: "ул. Ленина, 1".to_string(),
        client_comment: "".to_string(),
        method: PayMethod::Card,
    }
}

fn curator_row(order_id: i64) -> CourierXLSTotal {
    CourierXLSTotal {
        courier_id: 3,
        phone: "+79990000000".to_string(),
        name: "Иван".to_string(),
        surname: "Иванов".to_string(),
        patronymic: "Иванович".to_string(),
        session_day: day(738945),
        start_time: time(8 * 3600),
        end_real_time: Some(time(20 * 3600)),
        order_id,
        take_datetime: None,
        order_status: OrderStatus::Success,
        details: "".to_string(),
        is_big_order: true,
        cooking_time: time(600),
        delivery_datetime: None,
        courier_salary: 10000,
        delivery_cost: 25050,
        order_price: 99999,
        delivery_address: "".to_string(),
        client_comment: "".to_string(),
        client_phone: "+70000000000".to_string(),
        method: PayMethod::Cash,
    }
}

fn data_rows(p: &Page) -> usize {
    p.rows.len() - 1
}

#[test]
fn courier_row_cells_follow_the_header() {
    let pages = courier_pages(&vec![courier_row(42, OrderStatus::Success, Some(time(18 * 3600 + 30)), None)]).unwrap();
    assert_eq!(pages.len(), 1);
    let header = &pages[0].rows[0];
    assert_eq!(header.len(), 14);
    assert_eq!(header[0], text("день сессии"));
    assert_eq!(header[13], text("способ оплаты"));
    let row = &pages[0].rows[1];
    assert_eq!(row[0], text("2021-05-31"));
    assert_eq!(row[1], text("09:00:00"));
    assert_eq!(row[2], text("18:00:30"));
    assert_eq!(row[3], CellValue::Number(42));
    assert_eq!(row[4], CellValue::Number(150));
    assert_eq!(row[5], text("успешно доставлено"));
    assert_eq!(row[6], text("пицца"));
    assert_eq!(row[7], CellValue::Flag(false));
    assert_eq!(row[8], text("00:20:00"));
    assert_eq!(row[9], text(""));
    assert_eq!(row[10], CellValue::Number(1234));
    assert_eq!(row[11], text("ул. Ленина, 1"));
    assert_eq!(row[13], text("картой"));
}

#[test]
fn delivered_order_shows_date_and_time() {
    let moment = DateTime { date: day(737941), time: time(13 * 3600 + 5 * 60 + 9) };
    let pages = courier_pages(&vec![courier_row(1, OrderStatus::FailureByCourier, None, Some(moment))]).unwrap();
    let row = &pages[0].rows[1];
    assert_eq!(row[9], text("2021-05-31 13:05:09"));
    assert_eq!(row[5], text("отменено по вине курьера"));
    assert_eq!(row[2], text(NOT_ENDED));
}

#[test]
fn missing_end_and_missing_delivery_are_not_swapped() {
    let pages = courier_pages(&vec![courier_row(5, OrderStatus::FailureByRestaurant, None, None)]).unwrap();
    let row = &pages[0].rows[1];
    assert_eq!(row[2], text(NOT_ENDED));
    assert_eq!(row[9], text(""));
    assert_eq!(row[5], text("отменено по вине ресторана"));
}

#[test]
fn unmapped_status_is_an_error() {
    let rows = vec![
        courier_row(1, OrderStatus::Success, None, None),
        courier_row(2, OrderStatus::Cooking, None, None),
        courier_row(3, OrderStatus::Delivering, None, None),
    ];
    assert_eq!(courier_pages(&rows), Err(ReportError::UnmappedStatus(2)));
}

#[test]
fn no_rows_give_no_pages() {
    assert_eq!(courier_pages(&Vec::new()).unwrap().len(), 0);
    assert_eq!(courier_deliveries(&"c@example.com".to_string(), &Vec::new(), &day(738946)).unwrap().len(), 0);
}

#[test]
fn pages_hold_at_most_a_hundred_rows() {
    for (n, expected) in [(1usize, vec![1usize]), (100, vec![100]), (101, vec![100, 1]), (250, vec![100, 100, 50])] {
        let rows: Vec<CourierXLS> = (0..n).map(|i| courier_row(i as i64, OrderStatus::Success, None, None)).collect();
        let pages = courier_pages(&rows).unwrap();
        let sizes: Vec<usize> = pages.iter().map(data_rows).collect();
        assert_eq!(sizes, expected);
        let mut next = 0i64;
        for p in &pages {
            assert_eq!(p.rows[0][0], text("день сессии"));
            for r in &p.rows[1..] {
                assert_eq!(r[3], CellValue::Number(next));
                next += 1;
            }
        }
        assert_eq!(next, n as i64);
    }
}

#[test]
fn one_courier_two_open_orders() {
    let rows = vec![
        courier_row(11, OrderStatus::Success, None, None),
        courier_row(12, OrderStatus::Success, None, None),
    ];
    let mails = courier_deliveries(&"courier@example.com".to_string(), &rows, &day(738946)).unwrap();
    assert_eq!(mails.len(), 1);
    assert_eq!(mails[0].to, "courier@example.com");
    assert_eq!(mails[0].subject, "отчет за 2024-02-29");
    assert_eq!(mails[0].page.rows.len(), 3);
    assert_eq!(mails[0].page.rows[1][2], text(NOT_ENDED));
    assert_eq!(mails[0].page.rows[2][2], text(NOT_ENDED));
}

#[test]
fn curator_report_of_250_rows_makes_three_mails() {
    let rows: Vec<CourierXLSTotal> = (0..250).map(|i| curator_row(i)).collect();
    let mails = curator_deliveries(&rows, &day(738946)).unwrap();
    assert_eq!(mails.len(), 3);
    let sizes: Vec<usize> = mails.iter().map(|m| data_rows(&m.page)).collect();
    assert_eq!(sizes, vec![100, 100, 50]);
    for m in &mails {
        assert_eq!(m.to, "noreply@topgo.club");
        assert_eq!(m.subject, "отчет по курьерам за 2024-02-29");
        assert_eq!(m.page.rows[0].len(), 20);
        assert_eq!(m.page.rows[0][0], text("телефон курьера"));
    }
    assert_eq!(mails[2].page.rows[50][7], CellValue::Number(249));
}

#[test]
fn curator_row_cells() {
    let pages = curator_pages(&vec![curator_row(77)]).unwrap();
    let row = &pages[0].rows[1];
    assert_eq!(row[0], text("+79990000000"));
    assert_eq!(row[3], text("Иванович"));
    assert_eq!(row[4], text("2024-02-29"));
    assert_eq!(row[6], text("20:00:00"));
    assert_eq!(row[8], CellValue::Number(100));
    assert_eq!(row[11], CellValue::Flag(true));
    assert_eq!(row[13], text(""));
    assert_eq!(row[14], CellValue::Number(999));
    assert_eq!(row[15], CellValue::Number(250));
    assert_eq!(row[17], text("+70000000000"));
    assert_eq!(row[19], text("наличными"));
}

#[test]
fn curator_report_with_unmapped_status() {
    let mut rows = vec![curator_row(1), curator_row(2)];
    rows[1].order_status = OrderStatus::ReadyForDelivery;
    assert_eq!(curator_deliveries(&rows, &day(738946)).unwrap_err(), ReportError::UnmappedStatus(2));
}

#[test]
fn report_on_first_calendar_day_is_out_of_range() {
    let rows = vec![courier_row(1, OrderStatus::Success, None, None)];
    assert_eq!(courier_deliveries(&"a@b.c".to_string(), &rows, &day(1)).unwrap_err(), ReportError::DateOutOfRange);
    assert_eq!(curator_deliveries(&Vec::new(), &day(1)).unwrap_err(), ReportError::DateOutOfRange);
}

#[test]
fn negative_amounts_are_rounded_down() {
    let mut r = courier_row(9, OrderStatus::Success, None, None);
    r.courier_salary = -150;
    r.order_price = -1;
    let pages = courier_pages(&vec![r]).unwrap();
    assert_eq!(pages[0].rows[1][4], CellValue::Number(-2));
    assert_eq!(pages[0].rows[1][10], CellValue::Number(-1));
    let mut c = curator_row(10);
    c.courier_salary = -150;
    c.order_price = -100;
    c.delivery_cost = -101;
    let pages = curator_pages(&vec![c]).unwrap();
    assert_eq!(pages[0].rows[1][8], CellValue::Number(-2));
    assert_eq!(pages[0].rows[1][14], CellValue::Number(-1));
    assert_eq!(pages[0].rows[1][15], CellValue::Number(-2));
}
