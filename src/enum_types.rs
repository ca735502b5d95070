use vstd::prelude::*;

verus! {

/// How a customer paid for an order.
#[derive(Clone, Copy, Debug, PartialEq, Eq, Structural)]
pub enum PayMethod {
    Cash,
    Card,
    AlreadyPayed,
}

/// Life-cycle state of an order.
#[derive(Clone, Copy, Debug, PartialEq, Eq, Structural)]
pub enum OrderStatus {
    CourierFinding,
    CourierConfirmation,
    Cooking,
    ReadyForDelivery,
    Delivering,
    Delivered,
    FailureByCourier,
    FailureByRestaurant,
    Success,
}

/// How a courier moves around.
#[derive(Clone, Copy, Debug, PartialEq, Eq, Structural)]
pub enum TransportType {
    Car,
    Feet,
    Bicycle,
}

} // verus!
