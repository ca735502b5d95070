//! Rows that the database views hand to the reports.

use vstd::prelude::*;
use crate::calendar::{Date, DateTime, TimeOfDay};
use crate::enum_types::{OrderStatus, PayMethod};

verus! {

/// One order of one courier's work session.
#[derive(Debug, PartialEq, Eq)]
pub struct CourierXLS {
    pub courier_id: i64,
    pub session_day: Date,
    pub start_time: TimeOfDay,
    pub end_real_time: Option<TimeOfDay>,
    pub order_id: i64,
    pub take_datetime: Option<DateTime>,
    pub order_status: OrderStatus,
    pub details: String,
    pub is_big_order: bool,
    pub cooking_time: TimeOfDay,
    pub delivery_datetime: Option<DateTime>,
    pub courier_salary: i64,
    pub order_price: i64,
    pub delivery_address: String,
    pub client_comment: String,
    pub method: PayMethod,
}

/// One order of one courier's work session, with the courier's identity, for curators.
#[derive(Debug, PartialEq, Eq)]
pub struct CourierXLSTotal {
    pub courier_id: i64,
    pub phone: String,
    pub name: String,
    pub surname: String,
    pub patronymic: String,
    pub session_day: Date,
    pub start_time: TimeOfDay,
    pub end_real_time: Option<TimeOfDay>,
    pub order_id: i64,
    pub take_datetime: Option<DateTime>,
    pub order_status: OrderStatus,
    pub details: String,
    pub is_big_order: bool,
    pub cooking_time: TimeOfDay,
    pub delivery_datetime: Option<DateTime>,
    pub courier_salary: i64,
    pub delivery_cost: i64,
    pub order_price: i64,
    pub delivery_address: String,
    pub client_comment: String,
    pub client_phone: String,
    pub method: PayMethod,
}

/// One finished order of a restaurant.
#[derive(Debug, PartialEq, Eq)]
pub struct RestaurantXLS {
    pub restaurant_id: i64,
    pub order_id: i64,
    pub take_datetime: DateTime,
    pub order_status: OrderStatus,
    pub details: String,
    pub is_big_order: bool,
    pub cooking_time: TimeOfDay,
    pub delivery_datetime: DateTime,
    pub order_price: i64,
    pub delivery_address: String,
    pub client_comment: String,
    pub client_phone: String,
    pub method: PayMethod,
}

/// One finished order of a restaurant, with the restaurant's identity.
#[derive(Debug, PartialEq, Eq)]
pub struct RestaurantXLSTotal {
    pub restaurant_id: i64,
    pub name: String,
    pub phone: String,
    pub address: String,
    pub order_id: i64,
    pub take_datetime: DateTime,
    pub order_status: OrderStatus,
    pub details: String,
    pub is_big_order: bool,
    pub cooking_time: TimeOfDay,
    pub delivery_datetime: DateTime,
    pub order_price: i64,
    pub delivery_address: String,
    pub client_comment: String,
    pub client_phone: String,
    pub method: PayMethod,
}

} // verus!
