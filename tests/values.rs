use topgo_reports::calendar::{Date, DateTime, TimeOfDay, LAST_DAY};
use topgo_reports::credentials::make_hash;
use topgo_reports::decimal::decimal_text;
use topgo_reports::enum_types::{OrderStatus, PayMethod};
use topgo_reports::labels::{method_label, session_not_ended, status_label};
use topgo_reports::money::to_major;
use topgo_reports::schedule::{cron_expression, startup_tasks, tasks_of, Runs, Task, Trigger};
use topgo_reports::recipients::{courier_recipients, restaurant_recipients, Mailbox, Recipient};
use topgo_reports::requests::{balances_to_reset, BalanceReset, NullMoney};

#[test]
fn minor_units_are_shown_divided_by_a_hundred() {
    assert_eq!(to_major(1234), 12);
    assert_eq!(to_major(99), 0);
    assert_eq!(to_major(100), 1);
    assert_eq!(to_major(0), 0);
    assert_eq!(to_major(-1234), -13);
    assert_eq!(to_major(-150), -2);
    assert_eq!(to_major(-100), -1);
    assert_eq!(to_major(-1), -1);
    assert_eq!(to_major(i64::MIN), i64::MIN / 100 - 1);
    assert_eq!(to_major(i64::MAX), i64::MAX / 100);
}

#[test]
fn status_labels() {
    assert_eq!(status_label(OrderStatus::Success), Some("успешно доставлено"));
    assert_eq!(status_label(OrderStatus::FailureByRestaurant), Some("отменено по вине ресторана"));
    assert_eq!(status_label(OrderStatus::FailureByCourier), Some("отменено по вине курьера"));
    for s in [
        OrderStatus::CourierFinding,
        OrderStatus::CourierConfirmation,
        OrderStatus::Cooking,
        OrderStatus::ReadyForDelivery,
        OrderStatus::Delivering,
        OrderStatus::Delivered,
    ] {
        assert_eq!(status_label(s), None);
    }
}

#[test]
fn method_labels() {
    assert_eq!(method_label(PayMethod::Cash), "наличными");
    assert_eq!(method_label(PayMethod::Card), "картой");
    assert_eq!(method_label(PayMethod::AlreadyPayed), "оплачено заранее");
    assert_eq!(session_not_ended(), "на момент создания отчета сессия не была закончена");
}

#[test]
fn dates_in_range() {
    assert!(Date::from_days(0).is_none());
    assert!(Date::from_days(LAST_DAY + 1).is_none());
    assert_eq!(Date::from_days(1).unwrap().text(), "0001-01-01");
    assert_eq!(Date::from_days(LAST_DAY).unwrap().text(), "9999-12-31");
    let d = Date::from_days(737941).unwrap();
    assert_eq!(d.text(), "2021-05-31");
    assert_eq!(d.days_before(7).unwrap().text(), "2021-05-24");
    assert!(Date::from_days(3).unwrap().days_before(3).is_none());
}

#[test]
fn times_of_day() {
    assert!(TimeOfDay::from_parts(86400, 0).is_none());
    assert!(TimeOfDay::from_parts(0, 1_000_000_000).is_none());
    assert_eq!(TimeOfDay::from_parts(3661, 0).unwrap().text(), "01:01:01");
    assert_eq!(TimeOfDay::from_parts(3661, 500_000_000).unwrap().text(), "01:01:01.500");
    let m = DateTime { date: Date::from_days(738945).unwrap(), time: TimeOfDay::from_parts(86399, 0).unwrap() };
    assert_eq!(m.text(), "2024-02-29 23:59:59");
}

#[test]
fn decimal_texts() {
    assert_eq!(decimal_text(0), "0");
    assert_eq!(decimal_text(1234567), "1234567");
    assert_eq!(decimal_text(u128::MAX), "340282366920938463463374607431768211455");
}

#[test]
fn password_hash() {
    assert_eq!(make_hash("password"), "XohImNooBHFR0OVvjcYpJ3NgPQ1qq73WKhHvch0VQtg=");
    assert_eq!(make_hash(""), "47DEQpj8HBSa+/TImW+5JCeuQeRkm5NMpJWZG3hSuFU=");
}

fn reset(salary: bool, all: bool, cash: bool, card: bool) -> BalanceReset {
    balances_to_reset(&NullMoney { courier_id: 1, salary, all, cash, card })
}

#[test]
fn balance_resets() {
    assert_eq!(reset(false, true, false, false), BalanceReset { salary: true, cash: true, term: true });
    assert_eq!(reset(true, false, true, true), BalanceReset { salary: true, cash: false, term: false });
    assert_eq!(reset(false, false, true, true), BalanceReset { salary: false, cash: false, term: true });
    assert_eq!(reset(false, false, true, false), BalanceReset { salary: false, cash: true, term: false });
    assert_eq!(reset(false, false, false, false), BalanceReset { salary: false, cash: false, term: false });
}

#[test]
fn schedule_triggers() {
    assert_eq!(cron_expression(Trigger::Daily), "0 0 0 * * * *");
    assert_eq!(cron_expression(Trigger::Weekly), "0 0 0 * * Mon *");
    assert_eq!(cron_expression(Trigger::EveryMinute), "0 * * * * * *");
    assert_eq!(tasks_of(Trigger::Daily), vec![Task::CourierReports, Task::CuratorReport]);
    assert_eq!(tasks_of(Trigger::Weekly), vec![Task::RestaurantSettlements]);
    assert_eq!(tasks_of(Trigger::EveryMinute), vec![Task::ProcessApprovals]);
    assert_eq!(startup_tasks(), vec![Task::CourierReports, Task::CuratorReport, Task::RestaurantSettlements]);
}

#[test]
fn a_running_trigger_does_not_start_again() {
    let mut runs = Runs::idle();
    assert_eq!(runs.fire(Trigger::Daily), vec![Task::CourierReports, Task::CuratorReport]);
    assert!(runs.fire(Trigger::Daily).is_empty());
    assert_eq!(runs.fire(Trigger::EveryMinute), vec![Task::ProcessApprovals]);
    runs.finish(Trigger::Daily);
    assert_eq!(runs, Runs { daily: false, weekly: false, minute: true });
    assert_eq!(runs.fire(Trigger::Daily), vec![Task::CourierReports, Task::CuratorReport]);
}

fn mailbox(id: i64, email: Option<&str>, is_deleted: bool) -> Mailbox {
    Mailbox { id, email: email.map(|e| e.to_string()), is_deleted }
}

#[test]
fn report_recipients() {
    let all = vec![
        mailbox(1, Some("a@x.ru"), false),
        mailbox(2, None, false),
        mailbox(3, Some(""), false),
        mailbox(4, Some("d@x.ru"), true),
        mailbox(5, Some("e@x.ru"), false),
    ];
    let couriers = courier_recipients(&all);
    assert_eq!(
        couriers,
        vec![Recipient { id: 1, email: "a@x.ru".to_string() }, Recipient { id: 5, email: "e@x.ru".to_string() }]
    );
    let restaurants: Vec<i64> = restaurant_recipients(&all).iter().map(|r| r.id).collect();
    assert_eq!(restaurants, vec![1, 4, 5]);
    assert!(courier_recipients(&Vec::new()).is_empty());
}
