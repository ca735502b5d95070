use topgo_reports::calendar::Date;
use topgo_reports::courier_report::ReportError;
use topgo_reports::dispatch::settlement_deliveries;
use topgo_reports::settlement::{commission, payable, settlement_period, settlement_sheet, RestaurantSettlement};
use topgo_reports::sheet::CellValue;

fn text(s: &str) -> CellValue {
    CellValue::Text(s.to_string())
}

fn week() -> RestaurantSettlement {
    RestaurantSettlement {
        orders_card_pay: 2,
        orders_card_pay_sum: 100000,
        orders_cash_pay: 1,
        orders_cash_pay_sum: 50000,
        orders_reject_pay: 1,
        orders_reject_pay_sum: 12345,
        orders_no_pay: 1,
        total_delivery: 30000,
    }
}

#[test]
fn commission_is_two_percent_of_card_payments() {
    assert_eq!(commission(100000), 20);
    assert_eq!(commission(0), 0);
    assert_eq!(commission(4999), 0);
    assert_eq!(commission(5000), 1);
    assert_eq!(commission(123456789), 24691);
    assert_eq!(commission(u64::MAX), u64::MAX / 5000);
}

#[test]
fn payable_adds_delivery_share_and_card_payments() {
    assert_eq!(payable(30000, 100000), 1280);
    assert_eq!(payable(0, 100000), 980);
    assert_eq!(payable(99, 0), 0);
    assert_eq!(payable(u64::MAX, u64::MAX), ((u64::MAX as u128 + (u64::MAX as u128) * 98 / 100) / 100) as u64);
}

#[test]
fn settlement_week_ends_yesterday() {
    let today = Date::from_days(738946).unwrap();
    let (from, to) = settlement_period(&today).unwrap();
    assert_eq!(from.text(), "2024-02-23");
    assert_eq!(to.text(), "2024-02-29");
    assert!(settlement_period(&Date::from_days(7).unwrap()).is_none());
    assert!(settlement_period(&Date::from_days(8).unwrap()).is_some());
}

#[test]
fn settlement_sheet_lines() {
    let from = Date::from_days(738939).unwrap();
    let to = Date::from_days(738945).unwrap();
    let page = settlement_sheet(&week(), &from, &to);
    let r = &page.rows;
    assert_eq!(r.len(), 19);
    assert_eq!(r[0], vec![text("Информационный отчет о движении денежных средств")]);
    assert_eq!(r[1], vec![text("по договору № _________ от 31.05.2021 за период с 2024-02-23 по 2024-02-29")]);
    assert!(r[2].is_empty());
    assert_eq!(r[3], vec![text("1. За период с 2024-02-23 по 2024-02-29 г. \"Top Go\"  были получены и переданы клиенту:")]);
    assert_eq!(r[5], vec![text(" - 2 заказов, исполненных и оплаченных покупателями по терминалу на сумму 1000 руб ")]);
    assert_eq!(r[6], vec![text(" - 1 заказов, исполненных и оплаченных покупателями наличными на сумму 500 руб ")]);
    assert_eq!(r[7], vec![text(" - 1 заказов, не исполненных заказчиком по вине ресторана на общую сумму 123 руб")]);
    assert_eq!(r[10], vec![text("2. Комиссия \"Top Go\" за прием оплаты заказа по терминалу за период с 2024-02-23 по 2024-02-29 составила: 20 руб. (2% от общей суммы заказов принятых по терминалу за указанный период)")]);
    assert_eq!(r[11], vec![text("2.1 Комиссия \"Top Go\" за 4 выполненных заказов за период с 2024-02-23 по 2024-02-29 составила: 300 руб. ")]);
    assert_eq!(r[12], vec![text("2.2 Сводная сумма комиссии \"Top Go\" за период с 2024-02-23 по 2024-02-29 составила: 1280 руб. ")]);
    assert_eq!(r[14], vec![text("3. Сумма к перечислению за период с 2024-02-23 по 2024-02-29 г. составляет 1280 руб.")]);
    assert_eq!(r[16].len(), 7);
    assert_eq!(r[16][6], text("Итого сумма к перечислению"));
    assert_eq!(r[17], vec![text("1"), text("4"), text("1000"), text("2"), text("500"), text("1"), text("1280")]);
    assert_eq!(r[18][0], text("итого:"));
    assert_eq!(r[18][1], CellValue::Blank);
    assert_eq!(r[18][6], text("1280"));
}

#[test]
fn settlement_goes_to_restaurant_and_operations() {
    let mails = settlement_deliveries(&"rest@example.com".to_string(), &week(), &Date::from_days(738946).unwrap()).unwrap();
    assert_eq!(mails.len(), 2);
    assert_eq!(mails[0].to, "rest@example.com");
    assert_eq!(mails[1].to, "noreply@topgo.club");
    assert_eq!(mails[0].subject, "отчет за 2024-02-23");
    assert_eq!(mails[1].subject, "отчет за 2024-02-23");
    assert_eq!(mails[0].page, mails[1].page);
    assert_eq!(mails[0].page.rows.len(), 19);
}

#[test]
fn settlement_before_calendar_start_is_out_of_range() {
    let r = settlement_deliveries(&"rest@example.com".to_string(), &week(), &Date::from_days(7).unwrap());
    assert_eq!(r.unwrap_err(), ReportError::DateOutOfRange);
}
